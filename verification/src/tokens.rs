//! The closed vocabulary of lexical units: every token the lexer can emit
//! and the parser consumes, together with its mathematical model.

use vstd::prelude::*;

verus! {

/// Mathematical model of a token: the same tagged union as [`Token`], with
/// text as `Seq<char>` and the integer value unbounded.
#[verifier::ext_equal]
pub ghost enum Tok {
    /// Any name that is not a keyword: a function name, a variable name.
    Symbol(Seq<char>),
    /// A constant integer value (always within 32-bit signed range).
    Integer(int),
    /// A character literal: exactly four slots, trailing ones padded with '\0'.
    CharLit(Seq<char>),
    /// A string literal.
    StrLit(Seq<char>),
    /// An operator, one or two characters of text.
    Operator(Seq<char>),
    EndOfStatement,
    OpeningBrace,
    ClosingBrace,
    OpeningParenthesis,
    ClosingParenthesis,
    OpeningBracket,
    ClosingBracket,
    Auto,
    Extern,
    Case,
    If,
    Else,
    While,
    Switch,
    Goto,
    Return,
}

/// All units of the code.
#[derive(Debug, PartialEq)]
pub enum Token {
    /// Any symbol, like a function name or variable name. Symbols are
    /// distinct from keywords: each keyword has its own token.
    Symbol(String),
    /// A constant integer value.
    Integer(i32),
    /// A character token (value wrapped between single quotes). A word
    /// stores the value, so it can hold up to 4 characters; unused slots
    /// are filled with the null character. At least one character is
    /// required.
    Char([char; 4]),
    /// A string token (value wrapped between double quotes).
    String(String),
    /// An operator, unary or binary. The text is kept because some
    /// operators have two characters, like the increment "++".
    Operator(String),
    /// The end of a statement (character `;`).
    EndOfStatement,
    /// The opening curly brace `{`.
    OpeningBrace,
    /// The closing curly brace `}`.
    ClosingBrace,
    /// The opening parenthesis `(`.
    OpeningParenthesis,
    /// The closing parenthesis `)`.
    ClosingParenthesis,
    /// The opening bracket `[`.
    OpeningBracket,
    /// The closing bracket `]`.
    ClosingBracket,
    /// The `auto` keyword, declaring variables.
    Auto,
    /// The `extrn` keyword, declaring external symbols.
    Extern,
    /// The `case` keyword, a branch of a switch statement.
    Case,
    /// The `if` conditional statement.
    If,
    /// The `else` statement.
    Else,
    /// The `while` statement.
    While,
    /// The `switch` statement.
    Switch,
    /// The `goto` statement.
    Goto,
    /// The `return` statement.
    Return,
}

impl View for Token {
    type V = Tok;

    open spec fn view(&self) -> Tok {
        match self {
            Token::Symbol(s) => Tok::Symbol(s@),
            Token::Integer(v) => Tok::Integer(*v as int),
            Token::Char(a) => Tok::CharLit(a@),
            Token::String(s) => Tok::StrLit(s@),
            Token::Operator(s) => Tok::Operator(s@),
            Token::EndOfStatement => Tok::EndOfStatement,
            Token::OpeningBrace => Tok::OpeningBrace,
            Token::ClosingBrace => Tok::ClosingBrace,
            Token::OpeningParenthesis => Tok::OpeningParenthesis,
            Token::ClosingParenthesis => Tok::ClosingParenthesis,
            Token::OpeningBracket => Tok::OpeningBracket,
            Token::ClosingBracket => Tok::ClosingBracket,
            Token::Auto => Tok::Auto,
            Token::Extern => Tok::Extern,
            Token::Case => Tok::Case,
            Token::If => Tok::If,
            Token::Else => Tok::Else,
            Token::While => Tok::While,
            Token::Switch => Tok::Switch,
            Token::Goto => Tok::Goto,
            Token::Return => Tok::Return,
        }
    }
}

impl Clone for Token {
    fn clone(&self) -> (r: Token)
        ensures
            r@ == self@,
    {
        match self {
            Token::Symbol(s) => Token::Symbol(s.clone()),
            Token::Integer(v) => Token::Integer(*v),
            Token::Char(a) => Token::Char(*a),
            Token::String(s) => Token::String(s.clone()),
            Token::Operator(s) => Token::Operator(s.clone()),
            Token::EndOfStatement => Token::EndOfStatement,
            Token::OpeningBrace => Token::OpeningBrace,
            Token::ClosingBrace => Token::ClosingBrace,
            Token::OpeningParenthesis => Token::OpeningParenthesis,
            Token::ClosingParenthesis => Token::ClosingParenthesis,
            Token::OpeningBracket => Token::OpeningBracket,
            Token::ClosingBracket => Token::ClosingBracket,
            Token::Auto => Token::Auto,
            Token::Extern => Token::Extern,
            Token::Case => Token::Case,
            Token::If => Token::If,
            Token::Else => Token::Else,
            Token::While => Token::While,
            Token::Switch => Token::Switch,
            Token::Goto => Token::Goto,
            Token::Return => Token::Return,
        }
    }
}

/// Keyword resolution, applied once when a symbol-or-keyword buffer closes:
/// an exact match against the fixed keyword set yields the corresponding
/// keyword token; anything else becomes a `Symbol`.
pub open spec fn resolve_word(s: Seq<char>) -> Tok {
    if s == "auto"@ {
        Tok::Auto
    } else if s == "extrn"@ {
        Tok::Extern
    } else if s == "case"@ {
        Tok::Case
    } else if s == "if"@ {
        Tok::If
    } else if s == "else"@ {
        Tok::Else
    } else if s == "while"@ {
        Tok::While
    } else if s == "switch"@ {
        Tok::Switch
    } else if s == "goto"@ {
        Tok::Goto
    } else if s == "return"@ {
        Tok::Return
    } else {
        Tok::Symbol(s)
    }
}

} // verus!

//! A push-based finite-state lexer: characters in, zero or more tokens out,
//! with an explicit finalize step that flushes any buffered trailing token
//! at end of input.
//!
//! The whole scanner is specified by a transition function over a
//! mathematical model of its state ([`LexModel`], [`step`], [`save_spec`]):
//! the pair (state, buffer) fully determines how the next character is
//! interpreted, and after every emitted token the state resets to `Empty`
//! with an empty buffer.

use vstd::prelude::*;

use crate::tokens::{resolve_word, Tok, Token};

verus! {

// ---------------------------------------------------------------------------
// Character classes
// ---------------------------------------------------------------------------

pub uninterp spec fn unicode_whitespace(c: char) -> bool;

pub uninterp spec fn unicode_numeric(c: char) -> bool;

/// Whitespace as `char::is_whitespace` decides it: within ASCII exactly the
/// six characters with the Unicode `White_Space` property; beyond ASCII the
/// decision is left abstract.
pub open spec fn is_ws(c: char) -> bool {
    if (c as u32) < 128 {
        c == ' ' || c == '\t' || c == '\n' || c == '\x0b' || c == '\x0c' || c == '\r'
    } else {
        unicode_whitespace(c)
    }
}

/// Numeric characters as `char::is_numeric` decides it: within ASCII exactly
/// the decimal digits; beyond ASCII the decision is left abstract.
pub open spec fn is_num(c: char) -> bool {
    if (c as u32) < 128 {
        is_digit(c)
    } else {
        unicode_numeric(c)
    }
}

/// Relies on char::is_whitespace: true exactly for characters with the
/// Unicode `White_Space` property, which within ASCII are '\t', '\n',
/// '\x0b', '\x0c', '\r' and ' '.
#[verifier::external_body]
fn is_whitespace_char(c: char) -> (r: bool)
    ensures
        r == is_ws(c),
        (c as u32) >= 128 ==> r == unicode_whitespace(c),
{
    c.is_whitespace()
}

/// Relies on char::is_numeric: true exactly for characters with a Unicode
/// numeric property, which within ASCII are the digits '0' through '9'.
#[verifier::external_body]
fn is_numeric_char(c: char) -> (r: bool)
    ensures
        r == is_num(c),
        (c as u32) >= 128 ==> r == unicode_numeric(c),
{
    c.is_numeric()
}

/// The seven characters that immediately emit their own structural token.
pub open spec fn is_structural(c: char) -> bool {
    c == '(' || c == ')' || c == '[' || c == ']' || c == '{' || c == '}' || c == ';'
}

pub open spec fn structural_token(c: char) -> Tok {
    if c == '(' {
        Tok::OpeningParenthesis
    } else if c == ')' {
        Tok::ClosingParenthesis
    } else if c == '[' {
        Tok::OpeningBracket
    } else if c == ']' {
        Tok::ClosingBracket
    } else if c == '{' {
        Tok::OpeningBrace
    } else if c == '}' {
        Tok::ClosingBrace
    } else {
        Tok::EndOfStatement
    }
}

/// Characters that immediately emit a one-character operator token: they
/// never combine with a following character.
pub open spec fn is_single_operator(c: char) -> bool {
    c == ',' || c == ':' || c == '|' || c == '&' || c == '%' || c == '*' || c == '?'
}

/// Characters that may begin either a one-character operator or a longer
/// multi-character operator, requiring one character of lookahead.
pub open spec fn is_ambiguous_start(c: char) -> bool {
    c == '+' || c == '-' || c == '/' || c == '!' || c == '=' || c == '>' || c == '<'
}

/// The full operator character class.
pub open spec fn is_operator_char(c: char) -> bool {
    is_single_operator(c) || is_ambiguous_start(c)
}

// ---------------------------------------------------------------------------
// Numeric literals
// ---------------------------------------------------------------------------

pub open spec fn is_digit(c: char) -> bool {
    48 <= c as u32 <= 57
}

pub open spec fn digit_value(c: char) -> int {
    c as u32 - 48
}

pub open spec fn all_digits(s: Seq<char>) -> bool {
    forall|i: int| 0 <= i < s.len() ==> is_digit(#[trigger] s[i])
}

/// The decimal value of a digit sequence.
pub open spec fn digits_value(s: Seq<char>) -> int
    decreases s.len(),
{
    if s.len() == 0 {
        0
    } else {
        digits_value(s.drop_last()) * 10 + digit_value(s.last())
    }
}

/// A numeric buffer produces a token exactly when it is all decimal digits
/// and its value fits 32-bit signed range.
pub open spec fn numeric_ok(s: Seq<char>) -> bool {
    all_digits(s) && digits_value(s) <= i32::MAX
}

// ---------------------------------------------------------------------------
// Character literals
// ---------------------------------------------------------------------------

/// A character literal is stored as a fixed 4-slot sequence; unused trailing
/// slots are filled with the null character.
pub open spec fn pad_char_literal(s: Seq<char>) -> Seq<char> {
    Seq::new(4, |i: int| if i < s.len() { s[i] } else { '\0' })
}

// ---------------------------------------------------------------------------
// The lexer model
// ---------------------------------------------------------------------------

/// The lexer's finite states. The pair (state, buffer) fully determines how
/// the next input character is interpreted.
#[derive(Clone, Copy, Debug)]
pub enum LexState {
    /// No pending content; the next character is dispatched fresh.
    Empty,
    /// The buffer holds one character that may begin a longer operator.
    AmbiguousOperator,
    /// The buffer accumulates a symbol or keyword.
    SymbolOrKeyword,
    /// Inside a block comment, scanning for the closing `*/`.
    Comment,
    /// Inside a character literal, accumulating until the closing quote.
    CharLit,
    /// Inside a string literal, accumulating until the closing quote.
    StrLit,
    /// The buffer accumulates a numeric literal.
    Numeric,
}

/// Mathematical model of the whole lexer: its state, its accumulation
/// buffer, and the token sequence built so far.
#[verifier::ext_equal]
pub ghost struct LexModel {
    pub state: LexState,
    pub buffer: Seq<char>,
    pub tokens: Seq<Tok>,
}

pub open spec fn init_model() -> LexModel {
    LexModel { state: LexState::Empty, buffer: Seq::empty(), tokens: Seq::empty() }
}

/// Clearing state and buffer, keeping the tokens.
pub open spec fn reset(m: LexModel) -> LexModel {
    LexModel { state: LexState::Empty, buffer: Seq::empty(), tokens: m.tokens }
}

/// Appending one completed token and resetting.
pub open spec fn emit(m: LexModel, t: Tok) -> LexModel {
    LexModel { state: LexState::Empty, buffer: Seq::empty(), tokens: m.tokens.push(t) }
}

pub open spec fn char_size_error() -> Seq<char> {
    "Invalid character size : must be between 1 and 4"@
}

pub open spec fn numeric_error() -> Seq<char> {
    "Error during parsing number token"@
}

/// What saving the pending buffer does: the lexer never emits a token for
/// state `Empty` or `Comment` directly; a symbol-or-keyword buffer goes
/// through keyword resolution; a character literal must hold 1 to 4
/// characters; a numeric buffer must parse as a 32-bit signed integer.
pub open spec fn save_spec(m: LexModel) -> Result<LexModel, Seq<char>> {
    match m.state {
        LexState::Empty => Ok(reset(m)),
        LexState::AmbiguousOperator => Ok(emit(m, Tok::Operator(m.buffer))),
        LexState::SymbolOrKeyword => Ok(emit(m, resolve_word(m.buffer))),
        LexState::Comment => Ok(reset(m)),
        LexState::CharLit => if 1 <= m.buffer.len() && m.buffer.len() <= 4 {
            Ok(emit(m, Tok::CharLit(pad_char_literal(m.buffer))))
        } else {
            Err(char_size_error())
        },
        LexState::StrLit => Ok(emit(m, Tok::StrLit(m.buffer))),
        LexState::Numeric => if numeric_ok(m.buffer) {
            Ok(emit(m, Tok::Integer(digits_value(m.buffer))))
        } else {
            Err(numeric_error())
        },
    }
}

/// Dispatch of one character from the `Empty` state (character classes are
/// evaluated in order; the first match wins): whitespace is dropped; a digit
/// starts a numeric literal; a quote starts the corresponding literal;
/// structural characters and single-character operators emit immediately;
/// an ambiguous operator character is buffered; anything else starts a
/// symbol or keyword.
pub open spec fn step_empty(m: LexModel, c: char) -> LexModel {
    if is_ws(c) {
        m
    } else if is_num(c) {
        LexModel { state: LexState::Numeric, buffer: m.buffer.push(c), ..m }
    } else if c == '"' {
        LexModel { state: LexState::StrLit, ..m }
    } else if c == '\'' {
        LexModel { state: LexState::CharLit, ..m }
    } else if is_structural(c) {
        LexModel { tokens: m.tokens.push(structural_token(c)), ..m }
    } else if is_single_operator(c) {
        LexModel { tokens: m.tokens.push(Tok::Operator(seq![c])), ..m }
    } else if is_ambiguous_start(c) {
        LexModel { state: LexState::AmbiguousOperator, buffer: m.buffer.push(c), ..m }
    } else {
        LexModel { state: LexState::SymbolOrKeyword, buffer: m.buffer.push(c), ..m }
    }
}

/// The lexer's transition function: what one input character does to the
/// model, or the lexical error it surfaces.
pub open spec fn step(m: LexModel, c: char) -> Result<LexModel, Seq<char>> {
    match m.state {
        LexState::Empty => Ok(step_empty(m, c)),
        LexState::AmbiguousOperator => step_ambiguous(m, c),
        LexState::SymbolOrKeyword => step_word(m, c),
        LexState::Comment => Ok(step_comment(m, c)),
        LexState::CharLit => if c == '\'' {
            save_spec(m)
        } else {
            Ok(LexModel { buffer: m.buffer.push(c), ..m })
        },
        LexState::StrLit => if c == '"' {
            save_spec(m)
        } else {
            Ok(LexModel { buffer: m.buffer.push(c), ..m })
        },
        LexState::Numeric => if is_num(c) {
            Ok(LexModel { buffer: m.buffer.push(c), ..m })
        } else {
            match save_spec(m) {
                Ok(m1) => Ok(step_empty(m1, c)),
                Err(e) => Err(e),
            }
        },
    }
}

/// Resolution of a buffered ambiguous operator against the next character,
/// in order: whitespace closes it; a digit closes it and starts a numeric
/// literal; a repeated character from `{+,-,>,<,=}` forms a doubled
/// operator; `*` after a pending `/` opens a block comment without emitting
/// anything; `=` after a pending `!`, `>` or `<` forms an inequality; a
/// quote closes it and starts a literal; a structural character closes it
/// and emits both tokens; anything else closes it as a one-character
/// operator and is re-dispatched fresh, so a following operator character
/// may begin a new multi-character operator of its own.
pub open spec fn step_ambiguous(m: LexModel, c: char) -> Result<LexModel, Seq<char>> {
    if is_ws(c) {
        save_spec(m)
    } else if is_num(c) {
        match save_spec(m) {
            Ok(m1) => Ok(LexModel { state: LexState::Numeric, buffer: m1.buffer.push(c), ..m1 }),
            Err(e) => Err(e),
        }
    } else if (c == '+' || c == '-' || c == '>' || c == '<' || c == '=') && m.buffer.len() > 0
        && m.buffer.last() == c {
        save_spec(LexModel { buffer: m.buffer.push(c), ..m })
    } else if c == '*' && m.buffer.len() > 0 && m.buffer.last() == '/' {
        Ok(LexModel { state: LexState::Comment, buffer: Seq::empty(), ..m })
    } else if c == '=' && m.buffer.len() > 0 && (m.buffer[0] == '!' || m.buffer[0] == '>'
        || m.buffer[0] == '<') {
        save_spec(LexModel { buffer: m.buffer.push(c), ..m })
    } else if c == '"' {
        match save_spec(m) {
            Ok(m1) => Ok(LexModel { state: LexState::StrLit, ..m1 }),
            Err(e) => Err(e),
        }
    } else if c == '\'' {
        match save_spec(m) {
            Ok(m1) => Ok(LexModel { state: LexState::CharLit, ..m1 }),
            Err(e) => Err(e),
        }
    } else if is_structural(c) {
        match save_spec(m) {
            Ok(m1) => Ok(LexModel { tokens: m1.tokens.push(structural_token(c)), ..m1 }),
            Err(e) => Err(e),
        }
    } else {
        match save_spec(m) {
            Ok(m1) => Ok(step_empty(m1, c)),
            Err(e) => Err(e),
        }
    }
}

/// A symbol-or-keyword buffer closes on whitespace, on a structural
/// character (which also emits its token) or on an operator character
/// (which is re-dispatched fresh); anything else appends to the buffer.
pub open spec fn step_word(m: LexModel, c: char) -> Result<LexModel, Seq<char>> {
    if is_ws(c) {
        save_spec(m)
    } else if is_structural(c) {
        match save_spec(m) {
            Ok(m1) => Ok(LexModel { tokens: m1.tokens.push(structural_token(c)), ..m1 }),
            Err(e) => Err(e),
        }
    } else if is_operator_char(c) {
        match save_spec(m) {
            Ok(m1) => Ok(step_empty(m1, c)),
            Err(e) => Err(e),
        }
    } else {
        Ok(LexModel { buffer: m.buffer.push(c), ..m })
    }
}

/// Inside a block comment the buffer flags whether the previous character
/// was `*`; any other character clears it, so the comment closes exactly on
/// the adjacent two-character sequence `*/` — silently, emitting no token.
pub open spec fn step_comment(m: LexModel, c: char) -> LexModel {
    if c == '/' {
        if m.buffer.len() > 0 && m.buffer.last() == '*' {
            reset(m)
        } else {
            LexModel { buffer: Seq::empty(), ..m }
        }
    } else if c == '*' {
        LexModel { buffer: m.buffer.push(c), ..m }
    } else {
        LexModel { buffer: Seq::empty(), ..m }
    }
}

/// The lexer's structural invariant: `Empty` holds no pending content, and
/// an ambiguous-operator buffer holds exactly the one character of lookahead
/// that started it.
pub open spec fn wf_model(m: LexModel) -> bool {
    match m.state {
        LexState::Empty => m.buffer.len() == 0,
        LexState::AmbiguousOperator => m.buffer.len() == 1 && is_ambiguous_start(m.buffer[0]),
        _ => true,
    }
}

// ---------------------------------------------------------------------------
// Errors
// ---------------------------------------------------------------------------

/// A lexical error, carrying a fixed diagnostic message.
#[derive(Debug, Clone)]
pub struct TokenError {
    message: &'static str,
}

impl View for TokenError {
    type V = Seq<char>;

    closed spec fn view(&self) -> Seq<char> {
        self.message@
    }
}

impl TokenError {
    pub fn new(message: &'static str) -> (e: TokenError)
        ensures
            e@ == message@,
    {
        TokenError { message }
    }

    /// The diagnostic message.
    pub fn message(&self) -> (m: &'static str)
        ensures
            m@ == self@,
    {
        self.message
    }
}

// ---------------------------------------------------------------------------
// Executable helpers
// ---------------------------------------------------------------------------

/// Relies on String::push, which appends one character to the end of the
/// string.
#[verifier::external_body]
fn push_char(s: &mut String, c: char)
    ensures
        final(s)@ == old(s)@.push(c),
{
    s.push(c);
}

fn chars_to_string(buf: &Vec<char>) -> (s: String)
    ensures
        s@ == buf@,
{
    let mut s = String::new();
    let mut i: usize = 0;
    while i < buf.len()
        invariant
            i <= buf@.len(),
            s@ == buf@.subrange(0, i as int),
        decreases buf@.len() - i,
    {
        push_char(&mut s, buf[i]);
        proof {
            assert(s@ =~= buf@.subrange(0, i + 1 as int));
        }
        i += 1;
    }
    proof {
        assert(s@ =~= buf@);
    }
    s
}

fn single_char_string(c: char) -> (s: String)
    ensures
        s@ == seq![c],
{
    let mut s = String::new();
    push_char(&mut s, c);
    proof {
        assert(s@ =~= seq![c]);
    }
    s
}

pub(crate) fn string_is(s: &String, lit: &str) -> (b: bool)
    ensures
        b == (s@ == lit@),
{
    let other = String::from_str(lit);
    s.eq(&other)
}

/// Keyword resolution on a closing buffer.
fn word_token(buf: &Vec<char>) -> (t: Token)
    ensures
        t@ == resolve_word(buf@),
{
    let s = chars_to_string(buf);
    if string_is(&s, "auto") {
        Token::Auto
    } else if string_is(&s, "extrn") {
        Token::Extern
    } else if string_is(&s, "case") {
        Token::Case
    } else if string_is(&s, "if") {
        Token::If
    } else if string_is(&s, "else") {
        Token::Else
    } else if string_is(&s, "while") {
        Token::While
    } else if string_is(&s, "switch") {
        Token::Switch
    } else if string_is(&s, "goto") {
        Token::Goto
    } else if string_is(&s, "return") {
        Token::Return
    } else {
        Token::Symbol(s)
    }
}

proof fn lemma_digits_nonneg(s: Seq<char>)
    requires
        all_digits(s),
    ensures
        digits_value(s) >= 0,
    decreases s.len(),
{
    if s.len() > 0 {
        assert(all_digits(s.drop_last()));
        lemma_digits_nonneg(s.drop_last());
    }
}

/// Appending digits never decreases the value of the buffer.
proof fn lemma_digits_prefix_le(s: Seq<char>, k: int)
    requires
        all_digits(s),
        0 <= k <= s.len(),
    ensures
        digits_value(s.subrange(0, k)) <= digits_value(s),
    decreases s.len() - k,
{
    if k < s.len() {
        lemma_digits_prefix_le(s, k + 1);
        let p = s.subrange(0, k + 1);
        assert(p.drop_last() =~= s.subrange(0, k));
        assert(all_digits(p.drop_last()));
        lemma_digits_nonneg(p.drop_last());
        assert(digits_value(p) == digits_value(s.subrange(0, k)) * 10 + digit_value(p.last()));
    } else {
        assert(s.subrange(0, k) =~= s);
    }
}

/// Parsing a digit buffer as a 32-bit signed integer, exactly as the model
/// demands: all decimal digits, value within range.
fn parse_int(buf: &Vec<char>) -> (r: Result<i32, ()>)
    ensures
        numeric_ok(buf@) ==> r is Ok && r->Ok_0 as int == digits_value(buf@),
        !numeric_ok(buf@) ==> r is Err,
{
    let mut val: u64 = 0;
    let mut i: usize = 0;
    while i < buf.len()
        invariant
            i <= buf@.len(),
            forall|j: int| 0 <= j < i ==> is_digit(#[trigger] buf@[j]),
            val as int == digits_value(buf@.subrange(0, i as int)),
            val <= 0x7fff_ffff,
        decreases buf@.len() - i,
    {
        let c = buf[i];
        let u = c as u32;
        if u < 48 || u > 57 {
            proof {
                assert(!is_digit(buf@[i as int]));
                assert(!all_digits(buf@));
            }
            return Err(());
        }
        let d = (u - 48) as u64;
        proof {
            assert(buf@.subrange(0, i + 1 as int).drop_last() =~= buf@.subrange(0, i as int));
            assert(buf@.subrange(0, i + 1 as int).last() == buf@[i as int]);
        }
        val = val * 10 + d;
        if val > 0x7fff_ffff {
            proof {
                if all_digits(buf@) {
                    lemma_digits_prefix_le(buf@, i + 1 as int);
                    assert(buf@.subrange(0, buf@.len() as int) =~= buf@);
                }
            }
            return Err(());
        }
        i += 1;
    }
    proof {
        assert(buf@.subrange(0, buf@.len() as int) =~= buf@);
        assert(all_digits(buf@));
    }
    Ok(val as i32)
}

/// Padding a 1-to-4 character buffer into the fixed 4-slot representation.
fn pad_to_array(buf: &Vec<char>) -> (arr: [char; 4])
    requires
        1 <= buf@.len() <= 4,
    ensures
        arr@ == pad_char_literal(buf@),
{
    let a0 = buf[0];
    let a1 = if buf.len() > 1 { buf[1] } else { '\0' };
    let a2 = if buf.len() > 2 { buf[2] } else { '\0' };
    let a3 = if buf.len() > 3 { buf[3] } else { '\0' };
    let arr = [a0, a1, a2, a3];
    proof {
        assert(arr@ =~= pad_char_literal(buf@));
    }
    arr
}

// ---------------------------------------------------------------------------
// The lexer
// ---------------------------------------------------------------------------

/// The push-based lexer. Abstractly it is a [`LexModel`]; every transition
/// is pinned to the model's [`step`] function and every flush to
/// [`save_spec`].
pub struct Tokenizer {
    tokens: Vec<Token>,
    buffer: Vec<char>,
    state: LexState,
}

impl View for Tokenizer {
    type V = LexModel;

    closed spec fn view(&self) -> LexModel {
        LexModel {
            state: self.state,
            buffer: self.buffer@,
            tokens: self.tokens@.map_values(|t: Token| t@),
        }
    }
}

impl Tokenizer {
    pub open spec fn wf(&self) -> bool {
        wf_model(self@)
    }

    /// A fresh lexer: no state, no buffer, no tokens.
    pub fn new() -> (t: Tokenizer)
        ensures
            t.wf(),
            t@ == init_model(),
    {
        let t = Tokenizer { tokens: Vec::new(), buffer: Vec::new(), state: LexState::Empty };
        proof {
            assert(t@ =~= init_model());
        }
        t
    }

    /// The accumulated token sequence.
    pub fn tokens(&self) -> (r: Vec<Token>)
        ensures
            r@.map_values(|t: Token| t@) == self@.tokens,
    {
        let mut r: Vec<Token> = Vec::new();
        let mut i: usize = 0;
        while i < self.tokens.len()
            invariant
                i <= self.tokens@.len(),
                r@.len() == i,
                forall|j: int| 0 <= j < i ==> r@[j]@ == self.tokens@[j]@,
            decreases self.tokens@.len() - i,
        {
            r.push(self.tokens[i].clone());
            i += 1;
        }
        proof {
            assert(r@.map_values(|t: Token| t@) =~= self@.tokens);
        }
        r
    }

    /// Flushes any buffered-but-unterminated token at end of input; must be
    /// called exactly once after the last character.
    pub fn finalize(&mut self) -> (r: Result<(), TokenError>)
        requires
            old(self).wf(),
        ensures
            final(self).wf(),
            (match save_spec(old(self)@) {
                Ok(m) => r is Ok && final(self)@ == m,
                Err(msg) => r is Err && final(self)@ == old(self)@ && r->Err_0@ == msg,
            }),
    {
        self.save_token()
    }

    /// Consumes exactly one input character, updates state and buffer, and
    /// appends zero or more completed tokens, exactly as the model's
    /// transition function says; on a lexical error the lexer is left
    /// unchanged.
    pub fn push(&mut self, c: char) -> (r: Result<(), TokenError>)
        requires
            old(self).wf(),
        ensures
            final(self).wf(),
            (match step(old(self)@, c) {
                Ok(m) => r is Ok && final(self)@ == m,
                Err(msg) => r is Err && final(self)@ == old(self)@ && r->Err_0@ == msg,
            }),
    {
        match self.state {
            LexState::Empty => {
                self.dispatch_empty(c);
                Ok(())
            },
            LexState::AmbiguousOperator => self.push_ambiguous(c),
            LexState::SymbolOrKeyword => {
                if is_whitespace_char(c) {
                    self.save_token()
                } else if c == '(' {
                    self.save_and_push(Token::OpeningParenthesis)
                } else if c == ')' {
                    self.save_and_push(Token::ClosingParenthesis)
                } else if c == '[' {
                    self.save_and_push(Token::OpeningBracket)
                } else if c == ']' {
                    self.save_and_push(Token::ClosingBracket)
                } else if c == '{' {
                    self.save_and_push(Token::OpeningBrace)
                } else if c == '}' {
                    self.save_and_push(Token::ClosingBrace)
                } else if c == ';' {
                    self.save_and_push(Token::EndOfStatement)
                } else if c == ',' || c == ':' || c == '|' || c == '&' || c == '%' || c == '?'
                    || c == '!' || c == '*' || c == '>' || c == '<' || c == '+' || c == '-'
                    || c == '/' || c == '=' {
                    match self.save_token() {
                        Ok(_) => {
                            self.dispatch_empty(c);
                            Ok(())
                        },
                        Err(e) => Err(e),
                    }
                } else {
                    self.buffer.push(c);
                    Ok(())
                }
            },
            LexState::Comment => {
                if c == '/' {
                    let closes = self.buffer.len() > 0 && self.buffer[self.buffer.len() - 1]
                        == '*';
                    if closes {
                        self.reset_state();
                    } else {
                        self.buffer.clear();
                    }
                    Ok(())
                } else if c == '*' {
                    self.buffer.push(c);
                    Ok(())
                } else {
                    self.buffer.clear();
                    Ok(())
                }
            },
            LexState::CharLit => {
                if c == '\'' {
                    self.save_token()
                } else {
                    self.buffer.push(c);
                    Ok(())
                }
            },
            LexState::StrLit => {
                if c == '"' {
                    self.save_token()
                } else {
                    self.buffer.push(c);
                    Ok(())
                }
            },
            LexState::Numeric => {
                if is_numeric_char(c) {
                    self.buffer.push(c);
                    Ok(())
                } else {
                    match self.save_token() {
                        Ok(_) => {
                            self.dispatch_empty(c);
                            Ok(())
                        },
                        Err(e) => Err(e),
                    }
                }
            },
        }
    }

    /// One character dispatched fresh, with no pending content.
    fn dispatch_empty(&mut self, c: char)
        requires
            old(self).wf(),
            old(self)@.state is Empty,
        ensures
            final(self).wf(),
            final(self)@ == step_empty(old(self)@, c),
    {
        if is_whitespace_char(c) {
        } else if is_numeric_char(c) {
            self.state = LexState::Numeric;
            self.buffer.push(c);
        } else if c == '"' {
            self.state = LexState::StrLit;
        } else if c == '\'' {
            self.state = LexState::CharLit;
        } else if c == '(' {
            self.push_token(Token::OpeningParenthesis);
        } else if c == ')' {
            self.push_token(Token::ClosingParenthesis);
        } else if c == '[' {
            self.push_token(Token::OpeningBracket);
        } else if c == ']' {
            self.push_token(Token::ClosingBracket);
        } else if c == '{' {
            self.push_token(Token::OpeningBrace);
        } else if c == '}' {
            self.push_token(Token::ClosingBrace);
        } else if c == ';' {
            self.push_token(Token::EndOfStatement);
        } else if c == ',' || c == ':' || c == '|' || c == '&' || c == '%' || c == '*' || c == '?' {
            let s = single_char_string(c);
            self.push_token(Token::Operator(s));
        } else if c == '+' || c == '-' || c == '/' || c == '!' || c == '=' || c == '>' || c == '<' {
            self.state = LexState::AmbiguousOperator;
            self.buffer.push(c);
        } else {
            self.state = LexState::SymbolOrKeyword;
            self.buffer.push(c);
        }
    }

    /// One character against a buffered ambiguous operator.
    fn push_ambiguous(&mut self, c: char) -> (r: Result<(), TokenError>)
        requires
            old(self).wf(),
            old(self)@.state is AmbiguousOperator,
        ensures
            final(self).wf(),
            (match step_ambiguous(old(self)@, c) {
                Ok(m) => r is Ok && final(self)@ == m,
                Err(msg) => r is Err && final(self)@ == old(self)@ && r->Err_0@ == msg,
            }),
    {
        if is_whitespace_char(c) {
            self.save_token()
        } else if is_numeric_char(c) {
            match self.save_token() {
                Ok(_) => {
                    self.state = LexState::Numeric;
                    self.buffer.push(c);
                    Ok(())
                },
                Err(e) => Err(e),
            }
        } else if (c == '+' || c == '-' || c == '>' || c == '<' || c == '=')
            && self.buffer.len() > 0 && self.buffer[self.buffer.len() - 1] == c {
            self.buffer.push(c);
            self.save_token()
        } else if c == '*' && self.buffer.len() > 0 && self.buffer[self.buffer.len() - 1] == '/' {
            self.state = LexState::Comment;
            self.buffer.clear();
            Ok(())
        } else if c == '=' && self.buffer.len() > 0 && (self.buffer[0] == '!' || self.buffer[0]
            == '>' || self.buffer[0] == '<') {
            self.buffer.push(c);
            self.save_token()
        } else if c == '"' {
            match self.save_token() {
                Ok(_) => {
                    self.state = LexState::StrLit;
                    Ok(())
                },
                Err(e) => Err(e),
            }
        } else if c == '\'' {
            match self.save_token() {
                Ok(_) => {
                    self.state = LexState::CharLit;
                    Ok(())
                },
                Err(e) => Err(e),
            }
        } else if c == '(' {
            self.save_and_push(Token::OpeningParenthesis)
        } else if c == ')' {
            self.save_and_push(Token::ClosingParenthesis)
        } else if c == '[' {
            self.save_and_push(Token::OpeningBracket)
        } else if c == ']' {
            self.save_and_push(Token::ClosingBracket)
        } else if c == '{' {
            self.save_and_push(Token::OpeningBrace)
        } else if c == '}' {
            self.save_and_push(Token::ClosingBrace)
        } else if c == ';' {
            self.save_and_push(Token::EndOfStatement)
        } else {
            match self.save_token() {
                Ok(_) => {
                    self.dispatch_empty(c);
                    Ok(())
                },
                Err(e) => Err(e),
            }
        }
    }

    /// Appends one completed token to the output sequence.
    fn push_token(&mut self, token: Token)
        ensures
            final(self)@ == (LexModel { tokens: old(self)@.tokens.push(token@), ..old(self)@ }),
    {
        self.tokens.push(token);
        proof {
            assert(self@.tokens =~= old(self)@.tokens.push(token@));
            assert(self@ =~= (LexModel { tokens: old(self)@.tokens.push(token@), ..old(self)@ }));
        }
    }

    /// Saves the pending buffer, then appends one more token.
    fn save_and_push(&mut self, token: Token) -> (r: Result<(), TokenError>)
        requires
            old(self).wf(),
        ensures
            final(self).wf(),
            (match save_spec(old(self)@) {
                Ok(m) => r is Ok && final(self)@ == (LexModel { tokens: m.tokens.push(token@), ..m }),
                Err(msg) => r is Err && final(self)@ == old(self)@ && r->Err_0@ == msg,
            }),
    {
        match self.save_token() {
            Ok(_) => {
                self.push_token(token);
                Ok(())
            },
            Err(e) => Err(e),
        }
    }

    /// Flushes the pending buffer into a completed token, exactly as the
    /// model's save function says; on a lexical error the lexer is left
    /// unchanged.
    fn save_token(&mut self) -> (r: Result<(), TokenError>)
        ensures
            (match save_spec(old(self)@) {
                Ok(m) => r is Ok && final(self)@ == m,
                Err(msg) => r is Err && final(self)@ == old(self)@ && r->Err_0@ == msg,
            }),
    {
        match self.state {
            LexState::Empty => {
                self.reset_state();
                Ok(())
            },
            LexState::AmbiguousOperator => {
                let s = chars_to_string(&self.buffer);
                self.push_token(Token::Operator(s));
                self.reset_state();
                Ok(())
            },
            LexState::SymbolOrKeyword => {
                let t = word_token(&self.buffer);
                self.push_token(t);
                self.reset_state();
                Ok(())
            },
            LexState::Comment => {
                self.reset_state();
                Ok(())
            },
            LexState::CharLit => {
                if self.buffer.len() < 1 || self.buffer.len() > 4 {
                    return Err(TokenError::new("Invalid character size : must be between 1 and 4"));
                }
                let arr = pad_to_array(&self.buffer);
                self.push_token(Token::Char(arr));
                self.reset_state();
                Ok(())
            },
            LexState::StrLit => {
                let s = chars_to_string(&self.buffer);
                self.push_token(Token::String(s));
                self.reset_state();
                Ok(())
            },
            LexState::Numeric => {
                match parse_int(&self.buffer) {
                    Ok(v) => {
                        self.push_token(Token::Integer(v));
                        self.reset_state();
                        Ok(())
                    },
                    Err(_) => Err(TokenError::new("Error during parsing number token")),
                }
            },
        }
    }

    fn reset_state(&mut self)
        ensures
            final(self)@ == reset(old(self)@),
    {
        self.state = LexState::Empty;
        self.buffer.clear();
        proof {
            assert(self@ =~= reset(old(self)@));
        }
    }
}

// ---------------------------------------------------------------------------
// Laws
// ---------------------------------------------------------------------------

/// Law: when a symbol-or-keyword buffer closes, the lexer emits exactly the
/// keyword token for each of the nine keywords, and a `Symbol` carrying the
/// buffered text for any other word — never the reverse.
pub proof fn lemma_keyword_vs_symbol(m: LexModel)
    requires
        m.state is SymbolOrKeyword,
    ensures
        save_spec(m) is Ok,
        save_spec(m)->Ok_0.tokens == m.tokens.push(resolve_word(m.buffer)),
        m.buffer == "auto"@ ==> resolve_word(m.buffer) == Tok::Auto,
        m.buffer == "extrn"@ ==> resolve_word(m.buffer) == Tok::Extern,
        m.buffer == "case"@ ==> resolve_word(m.buffer) == Tok::Case,
        m.buffer == "if"@ ==> resolve_word(m.buffer) == Tok::If,
        m.buffer == "else"@ ==> resolve_word(m.buffer) == Tok::Else,
        m.buffer == "while"@ ==> resolve_word(m.buffer) == Tok::While,
        m.buffer == "switch"@ ==> resolve_word(m.buffer) == Tok::Switch,
        m.buffer == "goto"@ ==> resolve_word(m.buffer) == Tok::Goto,
        m.buffer == "return"@ ==> resolve_word(m.buffer) == Tok::Return,
        (m.buffer != "auto"@ && m.buffer != "extrn"@ && m.buffer != "case"@ && m.buffer != "if"@
            && m.buffer != "else"@ && m.buffer != "while"@ && m.buffer != "switch"@ && m.buffer
            != "goto"@ && m.buffer != "return"@) ==> resolve_word(m.buffer) == Tok::Symbol(
            m.buffer,
        ),
{
    reveal_strlit("auto");
    reveal_strlit("extrn");
    reveal_strlit("case");
    reveal_strlit("if");
    reveal_strlit("else");
    reveal_strlit("while");
    reveal_strlit("switch");
    reveal_strlit("goto");
    reveal_strlit("return");
    assert("else"@.len() == 4);
    assert("else"@[0] == 'e');
    assert("auto"@[0] == 'a');
    assert("auto"@ != "else"@);
    assert("goto"@[0] == 'g');
    assert("goto"@ != "else"@);
}

/// Law: a repeated character from `{+,-,>,<,=}` closes the pending
/// ambiguous operator as one doubled two-character operator token, never as
/// two one-character tokens.
pub proof fn lemma_doubled_operator(m: LexModel, c: char)
    requires
        wf_model(m),
        m.state is AmbiguousOperator,
        m.buffer[0] == c,
        c == '+' || c == '-' || c == '>' || c == '<' || c == '=',
    ensures
        step(m, c) is Ok,
        step(m, c)->Ok_0.tokens == m.tokens.push(Tok::Operator(seq![c, c])),
        step(m, c)->Ok_0.state is Empty,
{
    assert(m.buffer.push(c) =~= seq![c, c]);
}

/// Law: `=` after a pending `!`, `>` or `<` closes the ambiguous operator
/// as the two-character inequality operator.
pub proof fn lemma_inequality_operator(m: LexModel)
    requires
        wf_model(m),
        m.state is AmbiguousOperator,
        m.buffer[0] == '!' || m.buffer[0] == '>' || m.buffer[0] == '<',
    ensures
        step(m, '=') is Ok,
        step(m, '=')->Ok_0.tokens == m.tokens.push(Tok::Operator(seq![m.buffer[0], '='])),
        step(m, '=')->Ok_0.state is Empty,
{
    assert(m.buffer.push('=') =~= seq![m.buffer[0], '=']);
}

/// Law: whitespace after a pending ambiguous operator closes it as exactly
/// one one-character operator token.
pub proof fn lemma_lone_operator(m: LexModel, c: char)
    requires
        wf_model(m),
        m.state is AmbiguousOperator,
        is_ws(c),
    ensures
        step(m, c) is Ok,
        step(m, c)->Ok_0.tokens == m.tokens.push(Tok::Operator(m.buffer)),
        step(m, c)->Ok_0.state is Empty,
{
}

/// One character after another, from a given model.
pub open spec fn run_steps(m: LexModel, cs: Seq<char>) -> Result<LexModel, Seq<char>>
    decreases cs.len(),
{
    if cs.len() == 0 {
        Ok(m)
    } else {
        match step(m, cs[0]) {
            Ok(m1) => run_steps(m1, cs.drop_first()),
            Err(e) => Err(e),
        }
    }
}

/// Law: a whole comment region produces zero tokens. From inside a comment,
/// any run of characters free of an adjacent `*/` pair (and not opening
/// with a `/` while a `*` is already pending) keeps the lexer silently in
/// the comment, and a closing `*/` then returns it to the empty state, the
/// token sequence untouched either way.
pub proof fn lemma_comment_region_elided(m: LexModel, cs: Seq<char>)
    requires
        m.state is Comment,
        (cs.len() > 0 && cs[0] == '/') ==> !(m.buffer.len() > 0 && m.buffer.last() == '*'),
        forall|i: int| 0 <= i < cs.len() - 1 ==> !(cs[i] == '*' && #[trigger] cs[i + 1] == '/'),
    ensures
        run_steps(m, cs) is Ok,
        run_steps(m, cs)->Ok_0.tokens == m.tokens,
        run_steps(m, cs)->Ok_0.state is Comment,
        run_steps(m, cs + seq!['*', '/']) is Ok,
        run_steps(m, cs + seq!['*', '/'])->Ok_0 == reset(m),
    decreases cs.len(),
{
    reveal_with_fuel(run_steps, 4);
    let close = seq!['*', '/'];
    if cs.len() == 0 {
        assert(cs + close =~= close);
        let m1 = step(m, '*')->Ok_0;
        assert(m1.state is Comment && m1.buffer.last() == '*' && m1.tokens == m.tokens);
        assert(close.drop_first() =~= seq!['/']);
        assert(seq!['/'].drop_first() =~= Seq::<char>::empty());
        assert(step(m1, '/') == Ok::<LexModel, Seq<char>>(reset(m1)));
        assert(reset(m1) =~= reset(m));
    } else {
        let m1 = step(m, cs[0])->Ok_0;
        assert(m1.state is Comment && m1.tokens == m.tokens);
        let tail = cs.drop_first();
        assert(cs[0] == '*' ==> (tail.len() > 0 ==> tail[0] != '/'));
        assert(cs[0] != '*' ==> m1.buffer.len() == 0);
        assert(forall|i: int|
            0 <= i < tail.len() - 1 ==> !(tail[i] == '*' && #[trigger] tail[i + 1] == '/'));
        lemma_comment_region_elided(m1, tail);
        assert((cs + close).drop_first() =~= tail + close);
        assert(reset(m1) =~= reset(m));
    }
}

/// Law: no character inside a block comment ever emits a token or fails;
/// the comment closes silently back to the empty state exactly on the final
/// `/` of a `*/` sequence and otherwise stays a comment.
pub proof fn lemma_comment_elision(m: LexModel, c: char)
    requires
        m.state is Comment,
    ensures
        step(m, c) is Ok,
        step(m, c)->Ok_0.tokens == m.tokens,
        step(m, c)->Ok_0.state is Empty || step(m, c)->Ok_0.state is Comment,
        (step(m, c)->Ok_0.state is Empty) == (c == '/' && m.buffer.len() > 0 && m.buffer.last()
            == '*'),
{
}

/// Law: a closing quote over a character-literal buffer of 1 to 4
/// characters emits exactly one character token, its unused trailing slots
/// padded with the null character; a buffer of 0 or of more than 4
/// characters fails with the character-size error.
pub proof fn lemma_char_literal_bounds(m: LexModel)
    requires
        m.state is CharLit,
    ensures
        1 <= m.buffer.len() <= 4 ==> step(m, '\'') == Ok::<LexModel, Seq<char>>(
            emit(m, Tok::CharLit(pad_char_literal(m.buffer))),
        ),
        pad_char_literal(m.buffer).len() == 4,
        forall|i: int|
            0 <= i < m.buffer.len() && i < 4 ==> pad_char_literal(m.buffer)[i] == m.buffer[i],
        forall|i: int| m.buffer.len() <= i < 4 ==> pad_char_literal(m.buffer)[i] == '\0',
        (m.buffer.len() == 0 || m.buffer.len() > 4) ==> step(m, '\'') == Err::<
            LexModel,
            Seq<char>,
        >(char_size_error()),
{
}

/// Law: flushing a digit buffer whose value fits 32-bit signed range emits
/// exactly that integer token; a digit sequence exceeding the range fails
/// with the numeric error.
pub proof fn lemma_numeric_bounds(m: LexModel)
    requires
        m.state is Numeric,
        all_digits(m.buffer),
    ensures
        digits_value(m.buffer) <= i32::MAX ==> save_spec(m) == Ok::<LexModel, Seq<char>>(
            emit(m, Tok::Integer(digits_value(m.buffer))),
        ),
        digits_value(m.buffer) > i32::MAX ==> save_spec(m) == Err::<LexModel, Seq<char>>(
            numeric_error(),
        ),
{
}

} // verus!

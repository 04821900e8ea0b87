use bfront::tokenizer::Tokenizer;
use bfront::tokens::Token;

fn lex(src: &str) -> Vec<Token> {
    let mut t = Tokenizer::new();
    for c in src.chars() {
        t.push(c).expect("lexing failed");
    }
    t.finalize().expect("finalize failed");
    t.tokens()
}

fn lex_err(src: &str) -> String {
    let mut t = Tokenizer::new();
    for c in src.chars() {
        if let Err(e) = t.push(c) {
            return e.message().to_string();
        }
    }
    match t.finalize() {
        Ok(_) => panic!("expected a lexical error"),
        Err(e) => e.message().to_string(),
    }
}

#[test]
fn tokenize_example_program() {
    let source = "printn(n,b) {\n\textrn putchar;\n\tauto a;\n\n\tif(a=n/b) /* assignment, not test for equality */\n\t\tprintn(a,b); /* recursive */\n\tputchar(n%b + '0');\n}\n";
    let tokens = lex(source);

    assert_eq!(38, tokens.len());

    assert_eq!(Token::Symbol(String::from("printn")), tokens[0]);
    assert_eq!(Token::OpeningParenthesis, tokens[1]);
    assert_eq!(Token::Symbol(String::from("n")), tokens[2]);
    assert_eq!(Token::Operator(String::from(",")), tokens[3]);
    assert_eq!(Token::Symbol(String::from("b")), tokens[4]);
    assert_eq!(Token::ClosingParenthesis, tokens[5]);
    assert_eq!(Token::OpeningBrace, tokens[6]);
    assert_eq!(Token::Extern, tokens[7]);
    assert_eq!(Token::Symbol(String::from("putchar")), tokens[8]);
    assert_eq!(Token::EndOfStatement, tokens[9]);
    assert_eq!(Token::Auto, tokens[10]);
    assert_eq!(Token::Symbol(String::from("a")), tokens[11]);
    assert_eq!(Token::EndOfStatement, tokens[12]);
    assert_eq!(Token::If, tokens[13]);
    assert_eq!(Token::OpeningParenthesis, tokens[14]);
    assert_eq!(Token::Symbol(String::from("a")), tokens[15]);
    assert_eq!(Token::Operator(String::from("=")), tokens[16]);
    assert_eq!(Token::Symbol(String::from("n")), tokens[17]);
    assert_eq!(Token::Operator(String::from("/")), tokens[18]);
    assert_eq!(Token::Symbol(String::from("b")), tokens[19]);
    assert_eq!(Token::ClosingParenthesis, tokens[20]);
    assert_eq!(Token::Symbol(String::from("printn")), tokens[21]);
    assert_eq!(Token::OpeningParenthesis, tokens[22]);
    assert_eq!(Token::Symbol(String::from("a")), tokens[23]);
    assert_eq!(Token::Operator(String::from(",")), tokens[24]);
    assert_eq!(Token::Symbol(String::from("b")), tokens[25]);
    assert_eq!(Token::ClosingParenthesis, tokens[26]);
    assert_eq!(Token::EndOfStatement, tokens[27]);
    assert_eq!(Token::Symbol(String::from("putchar")), tokens[28]);
    assert_eq!(Token::OpeningParenthesis, tokens[29]);
    assert_eq!(Token::Symbol(String::from("n")), tokens[30]);
    assert_eq!(Token::Operator(String::from("%")), tokens[31]);
    assert_eq!(Token::Symbol(String::from("b")), tokens[32]);
    assert_eq!(Token::Operator(String::from("+")), tokens[33]);
    assert_eq!(Token::Char(['0', '\0', '\0', '\0']), tokens[34]);
    assert_eq!(Token::ClosingParenthesis, tokens[35]);
    assert_eq!(Token::EndOfStatement, tokens[36]);
    assert_eq!(Token::ClosingBrace, tokens[37]);
}

#[test]
fn keywords_resolve_to_keyword_tokens() {
    assert_eq!(vec![Token::Auto], lex("auto"));
    assert_eq!(vec![Token::Extern], lex("extrn"));
    assert_eq!(vec![Token::Case], lex("case"));
    assert_eq!(vec![Token::If], lex("if"));
    assert_eq!(vec![Token::Else], lex("else"));
    assert_eq!(vec![Token::While], lex("while"));
    assert_eq!(vec![Token::Switch], lex("switch"));
    assert_eq!(vec![Token::Goto], lex("goto"));
    assert_eq!(vec![Token::Return], lex("return"));
}

#[test]
fn non_keywords_resolve_to_symbols() {
    assert_eq!(vec![Token::Symbol(String::from("autos"))], lex("autos"));
    assert_eq!(vec![Token::Symbol(String::from("ifx"))], lex("ifx "));
    assert_eq!(vec![Token::Symbol(String::from("retur"))], lex("retur"));
    assert_eq!(vec![Token::Symbol(String::from("x"))], lex("x"));
    assert_eq!(
        vec![Token::Symbol(String::from("While"))],
        lex("While"),
        "keyword match is exact, case included"
    );
}

#[test]
fn doubled_operators_lex_as_one_token() {
    assert_eq!(vec![Token::Operator(String::from("=="))], lex("=="));
    assert_eq!(vec![Token::Operator(String::from("!="))], lex("!="));
    assert_eq!(vec![Token::Operator(String::from("<="))], lex("<="));
    assert_eq!(vec![Token::Operator(String::from(">="))], lex(">="));
    assert_eq!(vec![Token::Operator(String::from("++"))], lex("++"));
    assert_eq!(vec![Token::Operator(String::from("--"))], lex("--"));
    assert_eq!(vec![Token::Operator(String::from("<<"))], lex("<<"));
    assert_eq!(vec![Token::Operator(String::from(">>"))], lex(">>"));
}

#[test]
fn lone_operators_lex_as_one_character_tokens() {
    assert_eq!(vec![Token::Operator(String::from("="))], lex("= "));
    assert_eq!(vec![Token::Operator(String::from("+"))], lex("+ "));
    assert_eq!(vec![Token::Operator(String::from("-"))], lex("- "));
    assert_eq!(vec![Token::Operator(String::from("<"))], lex("< "));
    assert_eq!(vec![Token::Operator(String::from(">"))], lex("> "));
    assert_eq!(vec![Token::Operator(String::from("!"))], lex("! "));
}

#[test]
fn closed_operator_redispatches_the_next_character() {
    // the character closing a pending operator is dispatched fresh, so it
    // may begin a multi-character operator of its own
    assert_eq!(
        vec![
            Token::Operator(String::from("=")),
            Token::Operator(String::from("--")),
        ],
        lex("=--")
    );
    assert_eq!(
        vec![
            Token::Operator(String::from("=")),
            Token::Operator(String::from("<=")),
        ],
        lex("=<=")
    );
}

#[test]
fn slash_before_a_comment_is_kept() {
    // the first '/' closes as an operator; the second opens the comment
    assert_eq!(
        vec![
            Token::Symbol(String::from("a")),
            Token::Operator(String::from("/")),
            Token::Symbol(String::from("b")),
        ],
        lex("a //* c */ b")
    );
}

#[test]
fn single_character_operators_never_combine() {
    assert_eq!(
        vec![
            Token::Operator(String::from("&")),
            Token::Operator(String::from("&")),
            Token::Operator(String::from("|")),
            Token::Operator(String::from("|")),
        ],
        lex("&&||")
    );
}

#[test]
fn comment_produces_no_tokens() {
    assert_eq!(
        vec![
            Token::Symbol(String::from("a")),
            Token::Symbol(String::from("b")),
        ],
        lex("a /* anything / and * together */ b")
    );
    // '*' and '/' may each appear inside the comment; only the adjacent
    // two-character sequence closes it
    assert_eq!(
        vec![
            Token::Symbol(String::from("a")),
            Token::Symbol(String::from("b")),
        ],
        lex("a /* x * y / z */ b")
    );
    assert_eq!(
        vec![
            Token::Symbol(String::from("a")),
            Token::Symbol(String::from("b")),
        ],
        lex("a /** q /*/ b")
    );
    assert_eq!(
        vec![Token::Integer(1), Token::Integer(2)],
        lex("1/*between*/2")
    );
    assert_eq!(Vec::<Token>::new(), lex("/* only a comment */"));
}

#[test]
fn unterminated_comment_is_dropped_silently() {
    assert_eq!(
        vec![Token::Symbol(String::from("a"))],
        lex("a /* never closed")
    );
}

#[test]
fn char_literals_pad_with_null() {
    assert_eq!(vec![Token::Char(['0', '\0', '\0', '\0'])], lex("'0'"));
    assert_eq!(vec![Token::Char(['a', 'b', '\0', '\0'])], lex("'ab'"));
    assert_eq!(vec![Token::Char(['a', 'b', 'c', 'd'])], lex("'abcd'"));
}

#[test]
fn char_literal_size_is_bounded() {
    assert_eq!(
        "Invalid character size : must be between 1 and 4",
        lex_err("''")
    );
    assert_eq!(
        "Invalid character size : must be between 1 and 4",
        lex_err("'abcde'")
    );
}

#[test]
fn numeric_literals_parse_to_exact_values() {
    assert_eq!(vec![Token::Integer(0)], lex("0"));
    assert_eq!(vec![Token::Integer(42)], lex("42"));
    assert_eq!(vec![Token::Integer(7)], lex("007"));
    assert_eq!(vec![Token::Integer(2147483647)], lex("2147483647"));
}

#[test]
fn numeric_literal_beyond_signed_32_bit_range_fails() {
    assert_eq!("Error during parsing number token", lex_err("2147483648;"));
    assert_eq!("Error during parsing number token", lex_err("99999999999"));
}

#[test]
fn string_literals_keep_their_text() {
    assert_eq!(
        vec![Token::String(String::from("hello world"))],
        lex("\"hello world\"")
    );
    assert_eq!(vec![Token::String(String::new())], lex("\"\""));
}

#[test]
fn structural_characters_emit_their_tokens() {
    assert_eq!(
        vec![
            Token::OpeningParenthesis,
            Token::ClosingParenthesis,
            Token::OpeningBracket,
            Token::ClosingBracket,
            Token::OpeningBrace,
            Token::ClosingBrace,
            Token::EndOfStatement,
        ],
        lex("()[]{};")
    );
}

#[test]
fn operator_after_number_splits_tokens() {
    assert_eq!(
        vec![
            Token::Integer(1),
            Token::Operator(String::from("+")),
            Token::Integer(2),
        ],
        lex("1+2")
    );
}

#[test]
fn push_error_leaves_tokenizer_unchanged() {
    let mut t = Tokenizer::new();
    for c in "a ".chars() {
        t.push(c).unwrap();
    }
    for c in "'' ".chars() {
        let _ = t.push(c);
    }
    // after the failed empty char literal, the earlier token is still there
    let tokens = t.tokens();
    assert_eq!(Token::Symbol(String::from("a")), tokens[0]);
}

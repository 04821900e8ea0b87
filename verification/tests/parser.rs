use bfront::ast::{AutoDecl, Expr, Function, Stmt};
use bfront::parser::Parser;
use bfront::tokenizer::Tokenizer;
use bfront::tokens::Token;

fn lex(src: &str) -> Vec<Token> {
    let mut t = Tokenizer::new();
    for c in src.chars() {
        t.push(c).expect("lexing failed");
    }
    t.finalize().expect("finalize failed");
    t.tokens()
}

fn var(name: &str) -> Expr {
    Expr::Variable(String::from(name))
}

fn parse_stmt(src: &str) -> Stmt {
    let mut p = Parser::new(lex(src));
    p.parse_statement().expect("statement should parse")
}

fn parse_expr(src: &str) -> Expr {
    let mut p = Parser::new(lex(src));
    p.parse_rvalue().expect("expression should parse")
}

#[test]
fn parse_end_to_end_scenario() {
    let source = "f(n,b){extrn putchar;auto a;if(a=n/b)f(a,b);putchar(n%b+'0');}";
    let tokens = lex(source);
    assert_eq!(38, tokens.len());

    let function = Parser::parse(tokens).expect("the example program should parse");

    let expected = Function {
        name: String::from("f"),
        arguments: vec![String::from("n"), String::from("b")],
        body: Stmt::Block(vec![
            Stmt::Extrn(vec![String::from("putchar")]),
            Stmt::Auto(vec![AutoDecl { name: String::from("a"), initial: None }]),
            Stmt::If(
                Expr::Assign(
                    None,
                    Box::new(var("a")),
                    Box::new(Expr::Binary(
                        String::from("/"),
                        Box::new(var("n")),
                        Box::new(var("b")),
                    )),
                ),
                Box::new(Stmt::Expression(Expr::Call(
                    Box::new(var("f")),
                    vec![var("a"), var("b")],
                ))),
            ),
            Stmt::Expression(Expr::Call(
                Box::new(var("putchar")),
                vec![Expr::Binary(
                    String::from("+"),
                    Box::new(Expr::Binary(
                        String::from("%"),
                        Box::new(var("n")),
                        Box::new(var("b")),
                    )),
                    Box::new(Expr::CharLit(['0', '\0', '\0', '\0'])),
                )],
            )),
        ]),
    };
    assert_eq!(expected, function);
}

#[test]
fn plain_assignment_parses_as_assignment() {
    assert_eq!(
        Stmt::Expression(Expr::Assign(None, Box::new(var("a")), Box::new(var("b")))),
        parse_stmt("a = b;")
    );
}

#[test]
fn equality_is_never_mistaken_for_assignment() {
    assert_eq!(
        Stmt::Expression(Expr::Binary(
            String::from("=="),
            Box::new(var("a")),
            Box::new(var("b")),
        )),
        parse_stmt("a == b;")
    );
}

#[test]
fn compound_assignments_capture_their_operator() {
    for op in [
        "|", "&", "==", "!=", "<", "<=", ">", ">=", ">>", "<<", "-", "+", "%", "*", "/",
    ] {
        let source = format!("a {} = b;", op);
        assert_eq!(
            Stmt::Expression(Expr::Assign(
                Some(String::from(op)),
                Box::new(var("a")),
                Box::new(var("b")),
            )),
            parse_stmt(&source),
            "source: {}",
            source
        );
    }
}

#[test]
fn unspaced_compound_assignment_also_parses() {
    // "+=" lexes as the two tokens "+" and "=", which the parser reads as
    // a compound assignment
    assert_eq!(
        Stmt::Expression(Expr::Assign(
            Some(String::from("+")),
            Box::new(var("a")),
            Box::new(var("b")),
        )),
        parse_stmt("a += b;")
    );
}

#[test]
fn chained_assignment_nests_to_the_right() {
    assert_eq!(
        Expr::Assign(
            None,
            Box::new(var("a")),
            Box::new(Expr::Assign(
                None,
                Box::new(var("b")),
                Box::new(Expr::Integer(5)),
            )),
        ),
        parse_expr("a = b = 5;")
    );
}

#[test]
fn bare_reads_as_call_arguments_keep_the_cursor_straight() {
    assert_eq!(
        Stmt::Expression(Expr::Call(Box::new(var("f")), vec![var("a"), var("b")])),
        parse_stmt("f(a, b);")
    );
}

#[test]
fn precedence_ladder_binds_tightest_last() {
    assert_eq!(
        Expr::Binary(
            String::from("+"),
            Box::new(Expr::Integer(1)),
            Box::new(Expr::Binary(
                String::from("*"),
                Box::new(Expr::Integer(2)),
                Box::new(Expr::Integer(3)),
            )),
        ),
        parse_expr("1+2*3;")
    );
    assert_eq!(
        Expr::Binary(
            String::from("*"),
            Box::new(Expr::Binary(
                String::from("+"),
                Box::new(Expr::Integer(1)),
                Box::new(Expr::Integer(2)),
            )),
            Box::new(Expr::Integer(3)),
        ),
        parse_expr("(1+2)*3;")
    );
}

#[test]
fn binary_levels_are_left_associative() {
    assert_eq!(
        Expr::Binary(
            String::from("-"),
            Box::new(Expr::Binary(
                String::from("+"),
                Box::new(Expr::Integer(1)),
                Box::new(Expr::Integer(2)),
            )),
            Box::new(Expr::Integer(3)),
        ),
        parse_expr("1+2-3;")
    );
}

#[test]
fn prefix_operators_nest_outside_in() {
    assert_eq!(
        Expr::Assign(
            None,
            Box::new(var("x")),
            Box::new(Expr::Unary(
                String::from("-"),
                Box::new(Expr::Unary(String::from("!"), Box::new(var("y")))),
            )),
        ),
        parse_expr("x = -!y;")
    );
}

#[test]
fn postfix_operators_wrap_the_atom() {
    assert_eq!(
        Stmt::Expression(Expr::Postfix(String::from("++"), Box::new(var("y")))),
        parse_stmt("y++;")
    );
}

#[test]
fn statements_dispatch_on_their_lead_token() {
    assert_eq!(
        Stmt::Auto(vec![
            AutoDecl { name: String::from("x"), initial: Some(5) },
            AutoDecl { name: String::from("y"), initial: None },
        ]),
        parse_stmt("auto x 5, y;")
    );
    assert_eq!(
        Stmt::Extrn(vec![String::from("a"), String::from("b")]),
        parse_stmt("extrn a, b;")
    );
    assert_eq!(Stmt::Label(String::from("top")), parse_stmt("top: x;"));
    assert_eq!(Stmt::Case, parse_stmt("case"));
    assert_eq!(Stmt::While, parse_stmt("while"));
    assert_eq!(Stmt::Return, parse_stmt("return"));
    assert_eq!(
        Stmt::If(
            var("a"),
            Box::new(Stmt::Expression(Expr::Call(Box::new(var("x")), vec![]))),
        ),
        parse_stmt("if(a)x();")
    );
    assert_eq!(
        Stmt::Block(vec![
            Stmt::Expression(var("a")),
            Stmt::Expression(var("b")),
        ]),
        parse_stmt("{a;b;}")
    );
}

#[test]
fn parse_rejects_what_the_grammar_rejects() {
    // an empty token sequence has no declaration
    assert!(Parser::parse(Vec::new()).is_err());
    // the declared name must be a symbol
    assert!(Parser::parse(lex("5(){}")).is_err());
    // a parameter list must hold symbols
    assert!(Parser::parse(lex("f(5){}")).is_err());
    // a missing end of statement is reported
    {
        let mut p = Parser::new(lex("a = b"));
        assert!(p.parse_statement().is_err());
    }
    // a parameter list refuses a trailing comma
    assert!(Parser::parse(lex("f(a,){}")).is_err());
    // an extrn list demands commas between its names
    {
        let mut p = Parser::new(lex("extrn a b;"));
        assert!(p.parse_statement().is_err());
    }
    // an extrn list demands at least one name
    {
        let mut p = Parser::new(lex("extrn ;"));
        assert!(p.parse_statement().is_err());
    }
    // pre-increment demands an addressable operand
    {
        let mut p = Parser::new(lex("++5;"));
        assert!(p.parse_statement().is_err());
    }
    // address-of demands an addressable operand
    {
        let mut p = Parser::new(lex("x = &1;"));
        assert!(p.parse_statement().is_err());
    }
    // an index must be closed
    {
        let mut p = Parser::new(lex("a[1;"));
        assert!(p.parse_statement().is_err());
    }
}

#[test]
fn indexing_yields_an_addressable_element() {
    assert_eq!(
        Stmt::Expression(Expr::Index(
            Box::new(var("a")),
            Box::new(Expr::Integer(1)),
        )),
        parse_stmt("a[1];")
    );
    assert_eq!(
        Stmt::Expression(Expr::Assign(
            None,
            Box::new(Expr::Index(Box::new(var("a")), Box::new(var("i")))),
            Box::new(Expr::Integer(5)),
        )),
        parse_stmt("a[i] = 5;")
    );
}

#[test]
fn lvalue_prefix_operators_take_addressable_operands() {
    assert_eq!(
        Stmt::Expression(Expr::Unary(String::from("++"), Box::new(var("x")))),
        parse_stmt("++x;")
    );
    assert_eq!(
        Stmt::Expression(Expr::Assign(
            None,
            Box::new(var("p")),
            Box::new(Expr::Unary(String::from("&"), Box::new(var("y")))),
        )),
        parse_stmt("p = &y;")
    );
    // a dereference is addressable, so it can be incremented
    assert_eq!(
        Stmt::Expression(Expr::Unary(
            String::from("++"),
            Box::new(Expr::Unary(String::from("*"), Box::new(var("p")))),
        )),
        parse_stmt("++*p;")
    );
}

#[test]
fn labels_consume_their_colon() {
    assert_eq!(
        Stmt::Block(vec![
            Stmt::Label(String::from("top")),
            Stmt::Expression(var("x")),
        ]),
        parse_stmt("{top: x;}")
    );
}

#[test]
fn global_declarations_are_an_unimplemented_extension_point() {
    let e = Parser::parse(lex("x 5;")).expect_err("globals are not implemented");
    assert_eq!("global declarations are not implemented", e.message());
}

#[test]
fn string_and_char_literals_are_expression_atoms() {
    assert_eq!(
        Stmt::Expression(Expr::Call(
            Box::new(var("puts")),
            vec![Expr::StrLit(String::from("hi"))],
        )),
        parse_stmt("puts(\"hi\");")
    );
    assert_eq!(
        Stmt::Expression(Expr::Assign(
            None,
            Box::new(var("c")),
            Box::new(Expr::CharLit(['a', 'b', '\0', '\0'])),
        )),
        parse_stmt("c = 'ab';")
    );
}

//! The structures the parser produces: expression and statement nodes with
//! their mathematical models, and the program-level containers that later
//! compiler stages fill in.

use vstd::prelude::*;

verus! {

/// Mathematical model of an expression node.
#[verifier::ext_equal]
pub ghost enum ExprS {
    /// A constant integer literal.
    Integer(int),
    /// A character literal, as its fixed 4-slot padded sequence.
    CharLit(Seq<char>),
    /// A string literal.
    StrLit(Seq<char>),
    /// A variable reference.
    Variable(Seq<char>),
    /// A prefix operator over an operand.
    Unary(Seq<char>, Box<ExprS>),
    /// A binary operator, built left-associatively.
    Binary(Seq<char>, Box<ExprS>, Box<ExprS>),
    /// An assignment into an lvalue; the operator text is present exactly
    /// for a compound assignment.
    Assign(Option<Seq<char>>, Box<ExprS>, Box<ExprS>),
    /// A postfix increment or decrement.
    Postfix(Seq<char>, Box<ExprS>),
    /// A function call with its arguments in order.
    Call(Box<ExprS>, Seq<ExprS>),
    /// An indexed element: an addressable slot of an array.
    Index(Box<ExprS>, Box<ExprS>),
}

/// An expression node: a literal, a variable read, an operator application,
/// an assignment, or a call.
#[derive(Debug, PartialEq)]
pub enum Expr {
    /// A constant integer literal.
    Integer(i32),
    /// A character literal, in its fixed 4-slot padded form.
    CharLit([char; 4]),
    /// A string literal.
    StrLit(String),
    /// A variable reference.
    Variable(String),
    /// A prefix operator (`!`, `-`, `&`, `*`, `++` or `--`) over an operand.
    Unary(String, Box<Expr>),
    /// A binary operator, built left-associatively within each precedence
    /// level.
    Binary(String, Box<Expr>, Box<Expr>),
    /// An assignment into an lvalue; the operator is present exactly for a
    /// compound assignment such as `+` in `a += b`.
    Assign(Option<String>, Box<Expr>, Box<Expr>),
    /// A postfix increment or decrement.
    Postfix(String, Box<Expr>),
    /// A function call with its arguments in order.
    Call(Box<Expr>, Vec<Expr>),
    /// An indexed element: an addressable slot of an array.
    Index(Box<Expr>, Box<Expr>),
}

/// The model of a sequence of expression nodes, element by element.
pub open spec fn view_exprs(s: Seq<Expr>) -> Seq<ExprS>
    decreases s,
{
    if s.len() == 0 {
        Seq::empty()
    } else {
        view_exprs(s.drop_last()).push(s.last()@)
    }
}

impl View for Expr {
    type V = ExprS;

    open spec fn view(&self) -> ExprS
        decreases self,
    {
        match self {
            Expr::Integer(v) => ExprS::Integer(*v as int),
            Expr::CharLit(a) => ExprS::CharLit(a@),
            Expr::StrLit(s) => ExprS::StrLit(s@),
            Expr::Variable(s) => ExprS::Variable(s@),
            Expr::Unary(op, e) => ExprS::Unary(op@, Box::new((**e)@)),
            Expr::Binary(op, l, r) => ExprS::Binary(op@, Box::new((**l)@), Box::new((**r)@)),
            Expr::Assign(op, l, r) => ExprS::Assign(
                match op {
                    Some(o) => Some(o@),
                    None => None,
                },
                Box::new((**l)@),
                Box::new((**r)@),
            ),
            Expr::Postfix(op, e) => ExprS::Postfix(op@, Box::new((**e)@)),
            Expr::Call(f, args) => ExprS::Call(Box::new((**f)@), view_exprs(args@)),
            Expr::Index(a, i) => ExprS::Index(Box::new((**a)@), Box::new((**i)@)),
        }
    }
}

/// Views of a pushed sequence unfold one element at a time.
pub proof fn lemma_view_exprs_push(s: Seq<Expr>, e: Expr)
    ensures
        view_exprs(s.push(e)) == view_exprs(s).push(e@),
{
    assert(s.push(e).drop_last() =~= s);
    assert(s.push(e).last() == e);
}

/// One variable of an `auto` declaration: a name with an optional integer
/// initializer.
#[derive(Debug, PartialEq)]
pub struct AutoDecl {
    pub name: String,
    pub initial: Option<i32>,
}

impl View for AutoDecl {
    type V = (Seq<char>, Option<int>);

    open spec fn view(&self) -> (Seq<char>, Option<int>) {
        (
            self.name@,
            match self.initial {
                Some(v) => Some(v as int),
                None => None,
            },
        )
    }
}

/// Mathematical model of a statement node.
#[verifier::ext_equal]
pub ghost enum StmtS {
    /// A local declaration list, each name with its optional initializer.
    Auto(Seq<(Seq<char>, Option<int>)>),
    /// A declaration of external symbols.
    Extrn(Seq<Seq<char>>),
    /// A label declaration: a name bound as a jump target.
    Label(Seq<char>),
    /// A switch-case label (sub-grammar not yet fleshed out).
    Case,
    /// A block of statements.
    Block(Seq<StmtS>),
    /// A single-branch conditional.
    If(ExprS, Box<StmtS>),
    /// The `while` keyword (sub-grammar is an extension point).
    While,
    /// The `switch` keyword (sub-grammar is an extension point).
    Switch,
    /// The `goto` keyword (sub-grammar is an extension point).
    Goto,
    /// The `return` keyword (sub-grammar is an extension point).
    Return,
    /// An expression statement.
    Expression(ExprS),
}

/// A statement node.
#[derive(Debug, PartialEq)]
pub enum Stmt {
    /// A local declaration list: `auto` names with optional initializers.
    Auto(Vec<AutoDecl>),
    /// A declaration of external symbols: `extrn` names.
    Extrn(Vec<String>),
    /// A label declaration: a name bound as a jump target.
    Label(String),
    /// A switch-case label (sub-grammar not yet fleshed out).
    Case,
    /// A block of statements between braces.
    Block(Vec<Stmt>),
    /// A single-branch conditional: no `else` clause is recognized yet.
    If(Expr, Box<Stmt>),
    /// The `while` keyword (sub-grammar is an extension point).
    While,
    /// The `switch` keyword (sub-grammar is an extension point).
    Switch,
    /// The `goto` keyword (sub-grammar is an extension point).
    Goto,
    /// The `return` keyword (sub-grammar is an extension point).
    Return,
    /// An expression statement: `expression ;`.
    Expression(Expr),
}

/// The model of a sequence of statement nodes, element by element.
pub open spec fn view_stmts(s: Seq<Stmt>) -> Seq<StmtS>
    decreases s,
{
    if s.len() == 0 {
        Seq::empty()
    } else {
        view_stmts(s.drop_last()).push(s.last()@)
    }
}

impl View for Stmt {
    type V = StmtS;

    open spec fn view(&self) -> StmtS
        decreases self,
    {
        match self {
            Stmt::Auto(ds) => StmtS::Auto(ds@.map_values(|d: AutoDecl| d@)),
            Stmt::Extrn(ns) => StmtS::Extrn(ns@.map_values(|n: String| n@)),
            Stmt::Label(n) => StmtS::Label(n@),
            Stmt::Case => StmtS::Case,
            Stmt::Block(ss) => StmtS::Block(view_stmts(ss@)),
            Stmt::If(c, b) => StmtS::If(c@, Box::new((**b)@)),
            Stmt::While => StmtS::While,
            Stmt::Switch => StmtS::Switch,
            Stmt::Goto => StmtS::Goto,
            Stmt::Return => StmtS::Return,
            Stmt::Expression(e) => StmtS::Expression(e@),
        }
    }
}

/// Views of a pushed sequence unfold one element at a time.
pub proof fn lemma_view_stmts_push(s: Seq<Stmt>, e: Stmt)
    ensures
        view_stmts(s.push(e)) == view_stmts(s).push(e@),
{
    assert(s.push(e).drop_last() =~= s);
    assert(s.push(e).last() == e);
}

/// Mathematical model of a parsed function.
#[verifier::ext_equal]
pub ghost struct FunctionS {
    pub name: Seq<char>,
    pub arguments: Seq<Seq<char>>,
    pub body: StmtS,
}

/// A parsed function: its name, its parameter names in order, and its body,
/// which is exactly one statement (commonly a block).
#[derive(Debug, PartialEq)]
pub struct Function {
    pub name: String,
    pub arguments: Vec<String>,
    pub body: Stmt,
}

impl View for Function {
    type V = FunctionS;

    open spec fn view(&self) -> FunctionS {
        FunctionS {
            name: self.name@,
            arguments: self.arguments@.map_values(|n: String| n@),
            body: self.body@,
        }
    }
}

/// A value a global variable can be initialized with.
#[derive(Debug, PartialEq)]
pub enum Value {
    /// A constant integer.
    Constant(i32),
    /// A reference to another symbol.
    Variable(String),
}

/// A global variable declaration; the eventual repository of parsed
/// globals, not yet produced by the parser (global declaration parsing is
/// an extension point).
#[derive(Debug, PartialEq)]
pub enum Variable {
    /// A single word with an optional initializer.
    Atomic { name: String, initial: Option<Value> },
    /// An array of words with its initializers.
    Array { name: String, size: u32, initial: Vec<Value> },
}

/// The eventual repository of parsed global variables and functions; later
/// compiler stages fill it in.
#[derive(Debug, PartialEq)]
pub struct Program {
    pub globals: Vec<Variable>,
    pub functions: Vec<Function>,
}

} // verus!

//! A recursive-descent parser over a finished token sequence: it recognizes
//! one top-level declaration (a function), statements, and a full
//! expression sub-grammar with an explicit lvalue/rvalue distinction and
//! assignment handling.
//!
//! The grammar is specified by one spec function per production
//! (`sp_rvalue`, `sp_statement`, ...), each mapping the token sequence and
//! a cursor position to the recognized node and the new position, or to
//! `None` at the first ill-formed construct; every parsing method is pinned
//! to its production.

use vstd::prelude::*;

use crate::ast::{
    view_exprs, view_stmts, AutoDecl, Expr, ExprS, Function, FunctionS, Stmt, StmtS,
};
use crate::tokens::{Tok, Token};

verus! {

// ---------------------------------------------------------------------------
// Operator classes at the token level
// ---------------------------------------------------------------------------

/// The token is an operator with exactly this text.
pub open spec fn tok_op(t: Tok, s: Seq<char>) -> bool {
    t matches Tok::Operator(x) && x == s
}

/// The operators that combine with a following `=` into a compound
/// assignment.
pub open spec fn is_compound_op(s: Seq<char>) -> bool {
    s == "|"@ || s == "&"@ || s == "=="@ || s == "!="@ || s == "<"@ || s == "<="@ || s == ">"@
        || s == ">="@ || s == ">>"@ || s == "<<"@ || s == "-"@ || s == "+"@ || s == "%"@ || s
        == "*"@ || s == "/"@
}

/// The prefix operators that take any operand: negation, logical not, and
/// dereference.
pub open spec fn is_value_prefix_op(s: Seq<char>) -> bool {
    s == "!"@ || s == "-"@ || s == "*"@
}

/// The prefix operators that require an addressable (lvalue) operand:
/// address-of and pre-increment/decrement.
pub open spec fn is_lvalue_prefix_op(s: Seq<char>) -> bool {
    s == "&"@ || s == "++"@ || s == "--"@
}

/// The expressions that denote an addressable storage location: a variable,
/// a dereference, or an indexed element.
pub open spec fn is_lvalue_expr(e: ExprS) -> bool {
    match e {
        ExprS::Variable(_) => true,
        ExprS::Index(_, _) => true,
        ExprS::Unary(op, _) => op == "*"@,
        _ => false,
    }
}

/// The postfix operators.
pub open spec fn is_postfix_op(s: Seq<char>) -> bool {
    s == "++"@ || s == "--"@
}

/// A sub-parse continues from the position the previous production stopped
/// at, held inside the bounds that every production in fact respects (at
/// least `p_min`, at most `len`), so that progress is plain.
pub open spec fn step_pos(p_new: int, p_min: int, len: int) -> int {
    let lo = if p_min > len {
        len
    } else {
        p_min
    };
    if p_new < lo {
        lo
    } else if p_new > len {
        len
    } else {
        p_new
    }
}

// ---------------------------------------------------------------------------
// The expression grammar
// ---------------------------------------------------------------------------

/// Atoms: a literal, a symbol, or a parenthesized rvalue.
pub open spec fn sp_atomic(t: Seq<Tok>, p: int) -> Option<(ExprS, int)>
    decreases t.len() - p, 0int,
{
    if p < 0 || p >= t.len() {
        None
    } else {
        match t[p] {
            Tok::Integer(v) => Some((ExprS::Integer(v), p + 1)),
            Tok::StrLit(s) => Some((ExprS::StrLit(s), p + 1)),
            Tok::CharLit(s) => Some((ExprS::CharLit(s), p + 1)),
            Tok::Symbol(x) => Some((ExprS::Variable(x), p + 1)),
            Tok::OpeningParenthesis => match sp_rvalue(t, p + 1) {
                Some((e, p1)) => if p1 < t.len() && t[p1] is ClosingParenthesis {
                    Some((e, p1 + 1))
                } else {
                    None
                },
                None => None,
            },
            _ => None,
        }
    }
}

/// A call argument list: `(` already under the cursor, zero or more
/// comma-separated rvalues, closed by `)`.
pub open spec fn sp_call_args(t: Seq<Tok>, p: int) -> Option<(Seq<ExprS>, int)>
    decreases t.len() - p, 0int,
{
    if p < 0 || p >= t.len() || !(t[p] is OpeningParenthesis) {
        None
    } else {
        sp_args_rest(t, p + 1, Seq::empty())
    }
}

pub open spec fn sp_args_rest(t: Seq<Tok>, p: int, acc: Seq<ExprS>) -> Option<(Seq<ExprS>, int)>
    decreases t.len() - p, 12int,
{
    if p < 0 || p >= t.len() {
        None
    } else if t[p] is ClosingParenthesis {
        Some((acc, p + 1))
    } else {
        match sp_rvalue(t, p) {
            Some((e, p1raw)) => {
                let p1 = step_pos(p1raw, p + 1, t.len() as int);
                if p1 < t.len() && tok_op(t[p1], ","@) {
                    sp_args_rest(t, p1 + 1, acc.push(e))
                } else if p1 < t.len() && t[p1] is ClosingParenthesis {
                    sp_args_rest(t, p1, acc.push(e))
                } else {
                    None
                }
            },
            None => None,
        }
    }
}

/// Postfix context over an already-parsed atom: a call binds to it; postfix
/// `++`/`--` wrap it; `[` rvalue `]` yields an indexed element.
pub open spec fn sp_postfix_rest(t: Seq<Tok>, p: int, acc: ExprS) -> Option<(ExprS, int)>
    decreases t.len() - p, 1int,
{
    if p < 0 || p >= t.len() {
        None
    } else {
        match t[p] {
            Tok::OpeningBracket => match sp_rvalue(t, p + 1) {
                Some((idx, p1raw)) => {
                    let p1 = step_pos(p1raw, p + 2, t.len() as int);
                    if p1 < t.len() && t[p1] is ClosingBracket {
                        sp_postfix_rest(
                            t,
                            p1 + 1,
                            ExprS::Index(Box::new(acc), Box::new(idx)),
                        )
                    } else {
                        None
                    }
                },
                None => None,
            },
            Tok::OpeningParenthesis => match sp_call_args(t, p) {
                Some((args, p1raw)) => sp_postfix_rest(
                    t,
                    step_pos(p1raw, p + 1, t.len() as int),
                    ExprS::Call(Box::new(acc), args),
                ),
                None => None,
            },
            Tok::Operator(op) => if is_postfix_op(op) {
                sp_postfix_rest(t, p + 1, ExprS::Postfix(op, Box::new(acc)))
            } else {
                Some((acc, p))
            },
            _ => Some((acc, p)),
        }
    }
}

pub open spec fn sp_postfix(t: Seq<Tok>, p: int) -> Option<(ExprS, int)>
    decreases t.len() - p, 2int,
{
    if p < 0 || p >= t.len() {
        None
    } else {
        match sp_atomic(t, p) {
            Some((e, p1raw)) => sp_postfix_rest(t, step_pos(p1raw, p + 1, t.len() as int), e),
            None => None,
        }
    }
}

/// Prefix operators, each over a recursively parsed operand; the first seen
/// is outermost.
pub open spec fn sp_prefix(t: Seq<Tok>, p: int) -> Option<(ExprS, int)>
    decreases t.len() - p, 3int,
{
    if p < 0 || p >= t.len() {
        None
    } else {
        match t[p] {
            Tok::Operator(op) => if is_value_prefix_op(op) {
                match sp_prefix(t, p + 1) {
                    Some((e, p1)) => Some((ExprS::Unary(op, Box::new(e)), p1)),
                    None => None,
                }
            } else if is_lvalue_prefix_op(op) {
                match sp_prefix(t, p + 1) {
                    Some((e, p1)) => if is_lvalue_expr(e) {
                        Some((ExprS::Unary(op, Box::new(e)), p1))
                    } else {
                        None
                    },
                    None => None,
                }
            } else {
                sp_postfix(t, p)
            },
            _ => sp_postfix(t, p),
        }
    }
}

pub open spec fn sp_mul(t: Seq<Tok>, p: int) -> Option<(ExprS, int)>
    decreases t.len() - p, 4int,
{
    if p < 0 || p >= t.len() {
        None
    } else {
        match sp_prefix(t, p) {
            Some((e, p1raw)) => sp_mul_rest(t, step_pos(p1raw, p + 1, t.len() as int), e),
            None => None,
        }
    }
}

pub open spec fn sp_mul_rest(t: Seq<Tok>, p: int, acc: ExprS) -> Option<(ExprS, int)>
    decreases t.len() - p, 4int,
{
    if p < 0 || p >= t.len() {
        None
    } else {
        match t[p] {
            Tok::Operator(op) => if op == "*"@ || op == "/"@ || op == "%"@ {
                match sp_prefix(t, p + 1) {
                    Some((e2, p1raw)) => sp_mul_rest(
                        t,
                        step_pos(p1raw, p + 2, t.len() as int),
                        ExprS::Binary(op, Box::new(acc), Box::new(e2)),
                    ),
                    None => None,
                }
            } else {
                Some((acc, p))
            },
            _ => Some((acc, p)),
        }
    }
}

pub open spec fn sp_add(t: Seq<Tok>, p: int) -> Option<(ExprS, int)>
    decreases t.len() - p, 5int,
{
    if p < 0 || p >= t.len() {
        None
    } else {
        match sp_mul(t, p) {
            Some((e, p1raw)) => sp_add_rest(t, step_pos(p1raw, p + 1, t.len() as int), e),
            None => None,
        }
    }
}

pub open spec fn sp_add_rest(t: Seq<Tok>, p: int, acc: ExprS) -> Option<(ExprS, int)>
    decreases t.len() - p, 5int,
{
    if p < 0 || p >= t.len() {
        None
    } else {
        match t[p] {
            Tok::Operator(op) => if op == "+"@ || op == "-"@ {
                match sp_mul(t, p + 1) {
                    Some((e2, p1raw)) => sp_add_rest(
                        t,
                        step_pos(p1raw, p + 2, t.len() as int),
                        ExprS::Binary(op, Box::new(acc), Box::new(e2)),
                    ),
                    None => None,
                }
            } else {
                Some((acc, p))
            },
            _ => Some((acc, p)),
        }
    }
}

pub open spec fn sp_shift(t: Seq<Tok>, p: int) -> Option<(ExprS, int)>
    decreases t.len() - p, 6int,
{
    if p < 0 || p >= t.len() {
        None
    } else {
        match sp_add(t, p) {
            Some((e, p1raw)) => sp_shift_rest(t, step_pos(p1raw, p + 1, t.len() as int), e),
            None => None,
        }
    }
}

pub open spec fn sp_shift_rest(t: Seq<Tok>, p: int, acc: ExprS) -> Option<(ExprS, int)>
    decreases t.len() - p, 6int,
{
    if p < 0 || p >= t.len() {
        None
    } else {
        match t[p] {
            Tok::Operator(op) => if op == ">>"@ || op == "<<"@ {
                match sp_add(t, p + 1) {
                    Some((e2, p1raw)) => sp_shift_rest(
                        t,
                        step_pos(p1raw, p + 2, t.len() as int),
                        ExprS::Binary(op, Box::new(acc), Box::new(e2)),
                    ),
                    None => None,
                }
            } else {
                Some((acc, p))
            },
            _ => Some((acc, p)),
        }
    }
}

pub open spec fn sp_equality(t: Seq<Tok>, p: int) -> Option<(ExprS, int)>
    decreases t.len() - p, 7int,
{
    if p < 0 || p >= t.len() {
        None
    } else {
        match sp_shift(t, p) {
            Some((e, p1raw)) => sp_equality_rest(t, step_pos(p1raw, p + 1, t.len() as int), e),
            None => None,
        }
    }
}

pub open spec fn sp_equality_rest(t: Seq<Tok>, p: int, acc: ExprS) -> Option<(ExprS, int)>
    decreases t.len() - p, 7int,
{
    if p < 0 || p >= t.len() {
        None
    } else {
        match t[p] {
            Tok::Operator(op) => if op == "=="@ || op == "!="@ {
                match sp_shift(t, p + 1) {
                    Some((e2, p1raw)) => sp_equality_rest(
                        t,
                        step_pos(p1raw, p + 2, t.len() as int),
                        ExprS::Binary(op, Box::new(acc), Box::new(e2)),
                    ),
                    None => None,
                }
            } else {
                Some((acc, p))
            },
            _ => Some((acc, p)),
        }
    }
}

pub open spec fn sp_and(t: Seq<Tok>, p: int) -> Option<(ExprS, int)>
    decreases t.len() - p, 8int,
{
    if p < 0 || p >= t.len() {
        None
    } else {
        match sp_equality(t, p) {
            Some((e, p1raw)) => sp_and_rest(t, step_pos(p1raw, p + 1, t.len() as int), e),
            None => None,
        }
    }
}

pub open spec fn sp_and_rest(t: Seq<Tok>, p: int, acc: ExprS) -> Option<(ExprS, int)>
    decreases t.len() - p, 8int,
{
    if p < 0 || p >= t.len() {
        None
    } else if tok_op(t[p], "&&"@) {
        match sp_equality(t, p + 1) {
            Some((e2, p1raw)) => sp_and_rest(
                t,
                step_pos(p1raw, p + 2, t.len() as int),
                ExprS::Binary("&&"@, Box::new(acc), Box::new(e2)),
            ),
            None => None,
        }
    } else {
        Some((acc, p))
    }
}

pub open spec fn sp_or(t: Seq<Tok>, p: int) -> Option<(ExprS, int)>
    decreases t.len() - p, 9int,
{
    if p < 0 || p >= t.len() {
        None
    } else {
        match sp_and(t, p) {
            Some((e, p1raw)) => sp_or_rest(t, step_pos(p1raw, p + 1, t.len() as int), e),
            None => None,
        }
    }
}

pub open spec fn sp_or_rest(t: Seq<Tok>, p: int, acc: ExprS) -> Option<(ExprS, int)>
    decreases t.len() - p, 9int,
{
    if p < 0 || p >= t.len() {
        None
    } else if tok_op(t[p], "||"@) {
        match sp_and(t, p + 1) {
            Some((e2, p1raw)) => sp_or_rest(
                t,
                step_pos(p1raw, p + 2, t.len() as int),
                ExprS::Binary("||"@, Box::new(acc), Box::new(e2)),
            ),
            None => None,
        }
    } else {
        Some((acc, p))
    }
}

/// The one bounded backtrack of the grammar: parse an lvalue-candidate and
/// look for an assignment. A bare `=` gives a plain assignment; a compound
/// operator immediately followed by a bare `=` gives a compound assignment;
/// anything else rolls the cursor back to where the candidate began.
pub open spec fn sp_assign_left(t: Seq<Tok>, p: int) -> Option<
    (Seq<(ExprS, Option<Seq<char>>)>, int),
>
    decreases t.len() - p, 10int,
{
    if p < 0 || p >= t.len() {
        None
    } else {
        match sp_prefix(t, p) {
        Some((lv, p1raw)) => {
            let p1 = step_pos(p1raw, p + 1, t.len() as int);
            if p1 >= t.len() {
                None
            } else {
                match t[p1] {
                    Tok::Operator(op) => if is_compound_op(op) && p1 + 1 < t.len() && tok_op(
                        t[p1 + 1],
                        "="@,
                    ) {
                        match sp_assign_left(t, p1 + 2) {
                            Some((rest, pr)) => Some((seq![(lv, Some(op))] + rest, pr)),
                            None => None,
                        }
                    } else if op == "="@ {
                        match sp_assign_left(t, p1 + 1) {
                            Some((rest, pr)) => Some(
                                (seq![(lv, Option::<Seq<char>>::None)] + rest, pr),
                            ),
                            None => None,
                        }
                    } else {
                        Some((Seq::empty(), p))
                    },
                        _ => Some((Seq::empty(), p)),
                    }
                }
            },
            None => None,
        }
    }
}

/// Folding a run of assignment prefixes over a right-hand side: the
/// first-parsed prefix becomes the outermost assignment.
pub open spec fn apply_assigns(prefixes: Seq<(ExprS, Option<Seq<char>>)>, rhs: ExprS) -> ExprS
    decreases prefixes.len(),
{
    if prefixes.len() == 0 {
        rhs
    } else {
        ExprS::Assign(
            prefixes[0].1,
            Box::new(prefixes[0].0),
            Box::new(apply_assigns(prefixes.drop_first(), rhs)),
        )
    }
}

/// An rvalue: a run of assignment prefixes applied right-to-left over one
/// expression from the precedence ladder.
pub open spec fn sp_rvalue(t: Seq<Tok>, p: int) -> Option<(ExprS, int)>
    decreases t.len() - p, 11int,
{
    if p < 0 || p >= t.len() {
        None
    } else {
        match sp_assign_left(t, p) {
            Some((prefixes, p1raw)) => {
                let p1 = step_pos(p1raw, p, t.len() as int);
                match sp_or(t, p1) {
                    Some((rhs, p2)) => Some((apply_assigns(prefixes, rhs), p2)),
                    None => None,
                }
            },
            None => None,
        }
    }
}

// ---------------------------------------------------------------------------
// The statement grammar
// ---------------------------------------------------------------------------

/// An expression statement: `expression ;`.
pub open spec fn sp_expression_statement(t: Seq<Tok>, p: int) -> Option<(StmtS, int)>
    decreases t.len() - p, 13int,
{
    match sp_rvalue(t, p) {
        Some((e, p1raw)) => {
            let p1 = step_pos(p1raw, p + 1, t.len() as int);
            if p1 < t.len() && t[p1] is EndOfStatement {
                Some((StmtS::Expression(e), p1 + 1))
            } else {
                None
            }
        },
        None => None,
    }
}

/// A declaration list after `auto`: each variable may carry an optional
/// integer initializer; comma-separated; terminated by `;`.
pub open spec fn sp_auto(t: Seq<Tok>, p: int) -> Option<(Seq<(Seq<char>, Option<int>)>, int)>
    decreases t.len() - p, 0int,
{
    if p < 0 || p >= t.len() {
        None
    } else {
        match t[p] {
            Tok::Symbol(x) => if p + 1 >= t.len() {
                None
            } else {
                match t[p + 1] {
                    Tok::Integer(v) => if p + 2 >= t.len() {
                        None
                    } else if tok_op(t[p + 2], ","@) {
                        match sp_auto(t, p + 3) {
                            Some((rest, pr)) => Some((seq![(x, Some(v))] + rest, pr)),
                            None => None,
                        }
                    } else if t[p + 2] is EndOfStatement {
                        Some((seq![(x, Some(v))], p + 3))
                    } else {
                        None
                    },
                    Tok::Operator(op) => if op == ","@ {
                        match sp_auto(t, p + 2) {
                            Some((rest, pr)) => Some(
                                (seq![(x, Option::<int>::None)] + rest, pr),
                            ),
                            None => None,
                        }
                    } else {
                        None
                    },
                    Tok::EndOfStatement => Some((seq![(x, Option::<int>::None)], p + 2)),
                    _ => None,
                }
            },
            _ => None,
        }
    }
}

/// The names after `extrn`: at least one symbol, comma-separated,
/// terminated by `;`.
pub open spec fn sp_extrn_names(t: Seq<Tok>, p: int) -> Option<(Seq<Seq<char>>, int)>
    decreases t.len() - p, 0int,
{
    if p < 0 || p >= t.len() {
        None
    } else {
        match t[p] {
            Tok::Symbol(x) => if p + 1 >= t.len() {
                None
            } else {
                match t[p + 1] {
                    Tok::EndOfStatement => Some((seq![x], p + 2)),
                    Tok::Operator(op) => if op == ","@ {
                        match sp_extrn_names(t, p + 2) {
                            Some((rest, pr)) => Some((seq![x] + rest, pr)),
                            None => None,
                        }
                    } else {
                        None
                    },
                    _ => None,
                }
            },
            _ => None,
        }
    }
}

/// A single-branch conditional after `if`: `( expression ) statement`.
pub open spec fn sp_if(t: Seq<Tok>, p: int) -> Option<(StmtS, int)>
    decreases t.len() - p, 13int,
{
    if p < 0 || p >= t.len() || !(t[p] is OpeningParenthesis) {
        None
    } else {
        match sp_rvalue(t, p + 1) {
            Some((cond, p1raw)) => {
                let p1 = step_pos(p1raw, p + 2, t.len() as int);
                if p1 < t.len() && t[p1] is ClosingParenthesis {
                    match sp_statement(t, p1 + 1) {
                        Some((body, p2)) => Some((StmtS::If(cond, Box::new(body)), p2)),
                        None => None,
                    }
                } else {
                    None
                }
            },
            None => None,
        }
    }
}

/// A statement, dispatched on its lead token.
pub open spec fn sp_statement(t: Seq<Tok>, p: int) -> Option<(StmtS, int)>
    decreases t.len() - p, 14int,
{
    if p < 0 || p >= t.len() {
        None
    } else {
        match t[p] {
            Tok::Auto => match sp_auto(t, p + 1) {
                Some((ds, p1)) => Some((StmtS::Auto(ds), p1)),
                None => None,
            },
            Tok::Extern => match sp_extrn_names(t, p + 1) {
                Some((ns, p1)) => Some((StmtS::Extrn(ns), p1)),
                None => None,
            },
            Tok::Symbol(x) => if p + 1 >= t.len() {
                None
            } else if tok_op(t[p + 1], ":"@) {
                Some((StmtS::Label(x), p + 2))
            } else {
                sp_expression_statement(t, p)
            },
            Tok::Case => Some((StmtS::Case, p + 1)),
            Tok::OpeningBrace => match sp_block(t, p + 1, Seq::empty()) {
                Some((ss, p1)) => Some((StmtS::Block(ss), p1)),
                None => None,
            },
            Tok::If => sp_if(t, p + 1),
            Tok::While => Some((StmtS::While, p + 1)),
            Tok::Switch => Some((StmtS::Switch, p + 1)),
            Tok::Goto => Some((StmtS::Goto, p + 1)),
            Tok::Return => Some((StmtS::Return, p + 1)),
            _ => sp_expression_statement(t, p),
        }
    }
}

/// The statements of a block, gathered until the closing brace.
pub open spec fn sp_block(t: Seq<Tok>, p: int, acc: Seq<StmtS>) -> Option<(Seq<StmtS>, int)>
    decreases t.len() - p, 15int,
{
    if p < 0 || p >= t.len() {
        None
    } else if t[p] is ClosingBrace {
        Some((acc, p + 1))
    } else {
        match sp_statement(t, p) {
            Some((s, p1raw)) => sp_block(t, step_pos(p1raw, p + 1, t.len() as int), acc.push(s)),
            None => None,
        }
    }
}

/// The parameter names of a function declaration, in order; an empty list
/// is legal, a trailing comma is not.
pub open spec fn sp_params(t: Seq<Tok>, p: int) -> Option<(Seq<Seq<char>>, int)>
    decreases t.len() - p, 0int,
{
    if p < 0 || p >= t.len() {
        None
    } else {
        match t[p] {
            Tok::ClosingParenthesis => Some((Seq::empty(), p + 1)),
            Tok::Symbol(x) => if p + 1 >= t.len() {
                None
            } else {
                match t[p + 1] {
                    Tok::ClosingParenthesis => Some((seq![x], p + 2)),
                    Tok::Operator(op) => if op == ","@ {
                        if p + 2 < t.len() && t[p + 2] is Symbol {
                            match sp_params(t, p + 2) {
                                Some((rest, pr)) => Some((seq![x] + rest, pr)),
                                None => None,
                            }
                        } else {
                            None
                        }
                    } else {
                        None
                    },
                    _ => None,
                }
            },
            _ => None,
        }
    }
}

/// A function declaration after its name: `( params ) statement`.
pub open spec fn sp_function(t: Seq<Tok>, p: int, name: Seq<char>) -> Option<(FunctionS, int)>
    decreases t.len() - p, 1int,
{
    if p < 0 || p >= t.len() || !(t[p] is OpeningParenthesis) {
        None
    } else {
        match sp_params(t, p + 1) {
            Some((params, p1raw)) => {
                let p1 = step_pos(p1raw, p + 2, t.len() as int);
                match sp_statement(t, p1) {
                    Some((body, p2)) => Some(
                        (FunctionS { name, arguments: params, body }, p2),
                    ),
                    None => None,
                }
            },
            None => None,
        }
    }
}

/// One top-level declaration: a declared name, then a function; a global
/// declaration is an unimplemented extension point.
pub open spec fn sp_program(t: Seq<Tok>) -> Option<(FunctionS, int)> {
    if t.len() == 0 {
        None
    } else {
        match t[0] {
            Tok::Symbol(name) => if t.len() < 2 {
                None
            } else if t[1] is OpeningParenthesis {
                sp_function(t, 1, name)
            } else {
                None
            },
            _ => None,
        }
    }
}

// ---------------------------------------------------------------------------
// Errors
// ---------------------------------------------------------------------------

/// A parse error: an unexpected token against what a production required.
#[derive(Debug, Clone)]
pub struct ParseError {
    message: &'static str,
}

impl ParseError {
    fn new(message: &'static str) -> ParseError {
        ParseError { message }
    }

    /// The diagnostic message.
    pub fn message(&self) -> &'static str {
        self.message
    }
}

// ---------------------------------------------------------------------------
// Executable helpers
// ---------------------------------------------------------------------------

/// The model of a gathered run of assignment prefixes.
pub open spec fn view_prefixes(s: Seq<(Expr, Option<String>)>) -> Seq<
    (ExprS, Option<Seq<char>>),
> {
    s.map_values(
        |pr: (Expr, Option<String>)|
            (
                pr.0@,
                match pr.1 {
                    Some(o) => Some(o@),
                    None => Option::<Seq<char>>::None,
                },
            ),
    )
}

fn is_compound_op_exec(s: &String) -> (b: bool)
    ensures
        b == is_compound_op(s@),
{
    crate::tokenizer::string_is(s, "|") || crate::tokenizer::string_is(s, "&")
        || crate::tokenizer::string_is(s, "==") || crate::tokenizer::string_is(s, "!=")
        || crate::tokenizer::string_is(s, "<") || crate::tokenizer::string_is(s, "<=")
        || crate::tokenizer::string_is(s, ">") || crate::tokenizer::string_is(s, ">=")
        || crate::tokenizer::string_is(s, ">>") || crate::tokenizer::string_is(s, "<<")
        || crate::tokenizer::string_is(s, "-") || crate::tokenizer::string_is(s, "+")
        || crate::tokenizer::string_is(s, "%") || crate::tokenizer::string_is(s, "*")
        || crate::tokenizer::string_is(s, "/")
}

fn is_value_prefix_op_exec(s: &String) -> (b: bool)
    ensures
        b == is_value_prefix_op(s@),
{
    crate::tokenizer::string_is(s, "!") || crate::tokenizer::string_is(s, "-")
        || crate::tokenizer::string_is(s, "*")
}

fn is_lvalue_prefix_op_exec(s: &String) -> (b: bool)
    ensures
        b == is_lvalue_prefix_op(s@),
{
    crate::tokenizer::string_is(s, "&") || crate::tokenizer::string_is(s, "++")
        || crate::tokenizer::string_is(s, "--")
}

fn expr_is_lvalue(e: &Expr) -> (b: bool)
    ensures
        b == is_lvalue_expr(e@),
{
    match e {
        Expr::Variable(_) => true,
        Expr::Index(_, _) => true,
        Expr::Unary(op, _) => crate::tokenizer::string_is(op, "*"),
        _ => false,
    }
}

fn is_postfix_op_exec(s: &String) -> (b: bool)
    ensures
        b == is_postfix_op(s@),
{
    crate::tokenizer::string_is(s, "++") || crate::tokenizer::string_is(s, "--")
}

proof fn lemma_apply_assigns_step(
    s: Seq<(ExprS, Option<Seq<char>>)>,
    x: (ExprS, Option<Seq<char>>),
    r: ExprS,
)
    ensures
        apply_assigns(s.push(x), r) == apply_assigns(
            s,
            ExprS::Assign(x.1, Box::new(x.0), Box::new(r)),
        ),
    decreases s.len(),
{
    reveal_with_fuel(apply_assigns, 3);
    if s.len() == 0 {
        assert(s.push(x)[0] == x);
        assert(s.push(x).drop_first() =~= Seq::<(ExprS, Option<Seq<char>>)>::empty());
    } else {
        lemma_apply_assigns_step(s.drop_first(), x, r);
        assert(s.push(x)[0] == s[0]);
        assert(s.push(x).drop_first() =~= s.drop_first().push(x));
        assert(apply_assigns(s.push(x), r) == ExprS::Assign(
            s[0].1,
            Box::new(s[0].0),
            Box::new(apply_assigns(s.drop_first().push(x), r)),
        ));
        assert(apply_assigns(s, ExprS::Assign(x.1, Box::new(x.0), Box::new(r)))
            == ExprS::Assign(
            s[0].1,
            Box::new(s[0].0),
            Box::new(
                apply_assigns(s.drop_first(), ExprS::Assign(x.1, Box::new(x.0), Box::new(r))),
            ),
        ));
    }
}

/// Folds the gathered assignment prefixes over the right-hand side, the
/// first-parsed prefix outermost.
fn apply_assigns_exec(prefixes: Vec<(Expr, Option<String>)>, rhs: Expr) -> (r: Expr)
    ensures
        r@ == apply_assigns(view_prefixes(prefixes@), rhs@),
{
    let mut rest = prefixes;
    let mut result = rhs;
    while rest.len() > 0
        invariant
            apply_assigns(view_prefixes(rest@), result@) == apply_assigns(
                view_prefixes(prefixes@),
                rhs@,
            ),
        decreases rest.len(),
    {
        let ghost prev = rest@;
        match rest.pop() {
            Some(x) => {
                proof {
                    assert(prev =~= rest@.push(x));
                    let sv = view_prefixes(rest@);
                    let xv = (
                        x.0@,
                        if x.1 is Some {
                            Some(((x.1)->0)@)
                        } else {
                            Option::<Seq<char>>::None
                        },
                    );
                    assert(sv.push(xv) =~= view_prefixes(prev));
                    lemma_apply_assigns_step(sv, xv, result@);
                }
                result = Expr::Assign(x.1, Box::new(x.0), Box::new(result));
            },
            None => {},
        }
    }
    proof {
        assert(view_prefixes(rest@) =~= Seq::<(ExprS, Option<Seq<char>>)>::empty());
    }
    result
}

// ---------------------------------------------------------------------------
// The parser
// ---------------------------------------------------------------------------

/// The kind of the token under the cursor, with the token's data dropped.
pub enum TokKind {
    Symbol,
    Integer,
    CharLit,
    StrLit,
    Operator,
    EndOfStatement,
    OpeningBrace,
    ClosingBrace,
    OpeningParenthesis,
    ClosingParenthesis,
    OpeningBracket,
    ClosingBracket,
    Auto,
    Extrn,
    Case,
    If,
    Else,
    While,
    Switch,
    Goto,
    Return,
    EndOfInput,
}

pub open spec fn kind_of(t: Tok) -> TokKind {
    match t {
        Tok::Symbol(_) => TokKind::Symbol,
        Tok::Integer(_) => TokKind::Integer,
        Tok::CharLit(_) => TokKind::CharLit,
        Tok::StrLit(_) => TokKind::StrLit,
        Tok::Operator(_) => TokKind::Operator,
        Tok::EndOfStatement => TokKind::EndOfStatement,
        Tok::OpeningBrace => TokKind::OpeningBrace,
        Tok::ClosingBrace => TokKind::ClosingBrace,
        Tok::OpeningParenthesis => TokKind::OpeningParenthesis,
        Tok::ClosingParenthesis => TokKind::ClosingParenthesis,
        Tok::OpeningBracket => TokKind::OpeningBracket,
        Tok::ClosingBracket => TokKind::ClosingBracket,
        Tok::Auto => TokKind::Auto,
        Tok::Extern => TokKind::Extrn,
        Tok::Case => TokKind::Case,
        Tok::If => TokKind::If,
        Tok::Else => TokKind::Else,
        Tok::While => TokKind::While,
        Tok::Switch => TokKind::Switch,
        Tok::Goto => TokKind::Goto,
        Tok::Return => TokKind::Return,
    }
}

/// The recursive-descent parser: an immutable token sequence and a cursor,
/// the index of the next unread token.
pub struct Parser {
    tokens: Vec<Token>,
    cursor: usize,
}

impl Parser {
    /// The token sequence being parsed, as its model.
    pub closed spec fn toks(&self) -> Seq<Tok> {
        self.tokens@.map_values(|t: Token| t@)
    }

    /// The cursor: the index of the next unread token.
    pub closed spec fn pos(&self) -> int {
        self.cursor as int
    }

    proof fn toks_len_eq(&self)
        ensures
            self.toks().len() == self.tokens@.len(),
    {
    }

    /// Consumes the token under the cursor.
    fn advance(&mut self)
        requires
            old(self).wf(),
            old(self).pos() < old(self).toks().len(),
        ensures
            final(self).wf(),
            final(self).toks() == old(self).toks(),
            final(self).pos() == old(self).pos() + 1,
    {
        proof {
            self.toks_len_eq();
        }
        if self.cursor < self.tokens.len() {
            self.cursor = self.cursor + 1;
        }
    }

    /// The cursor never precedes the sequence nor exceeds its length.
    pub closed spec fn wf(&self) -> bool {
        self.cursor <= self.tokens@.len()
    }

    /// A parser over a finished token sequence, its cursor at the start.
    pub fn new(tokens: Vec<Token>) -> (p: Parser)
        ensures
            p.wf(),
            p.toks() == tokens@.map_values(|t: Token| t@),
            p.pos() == 0,
    {
        Parser { tokens, cursor: 0 }
    }

    /// Parses one top-level declaration out of the token sequence.
    pub fn parse(tokens: Vec<Token>) -> (r: Result<Function, ParseError>)
        ensures
            (match sp_program(tokens@.map_values(|t: Token| t@)) {
                Some((f, p)) => r is Ok && (r->Ok_0)@ == f,
                None => r is Err,
            }),
    {
        let mut parser = Parser::new(tokens);
        parser.parse_program()
    }

    /// Reads one token and advances the cursor; at end of input, an error.
    fn next(&mut self) -> (r: Result<Token, ParseError>)
        requires
            old(self).wf(),
        ensures
            final(self).wf(),
            final(self).toks() == old(self).toks(),
            old(self).pos() < old(self).toks().len() ==> r is Ok && r->Ok_0@ == old(self).toks()[
                old(self).pos()
            ] && final(self).pos() == old(self).pos() + 1,
            old(self).pos() >= old(self).toks().len() ==> r is Err && final(self).pos() == old(self).pos(),
    {
        if self.cursor < self.tokens.len() {
            let tk = self.tokens[self.cursor].clone();
            self.cursor = self.cursor + 1;
            Ok(tk)
        } else {
            Err(ParseError::new("unexpected end of input"))
        }
    }

    /// The kind of the token under the cursor, without advancing.
    fn peek_kind(&self) -> (k: TokKind)
        requires
            self.wf(),
        ensures
            (k is EndOfInput) == (self.pos() == self.toks().len()),
            !(k is EndOfInput) ==> self.pos() < self.toks().len(),
            self.pos() < self.toks().len() ==> k == kind_of(self.toks()[self.pos()]),
    {
        proof {
            self.toks_len_eq();
        }
        if self.cursor >= self.tokens.len() {
            return TokKind::EndOfInput;
        }
        match &self.tokens[self.cursor] {
            Token::Symbol(_) => TokKind::Symbol,
            Token::Integer(_) => TokKind::Integer,
            Token::Char(_) => TokKind::CharLit,
            Token::String(_) => TokKind::StrLit,
            Token::Operator(_) => TokKind::Operator,
            Token::EndOfStatement => TokKind::EndOfStatement,
            Token::OpeningBrace => TokKind::OpeningBrace,
            Token::ClosingBrace => TokKind::ClosingBrace,
            Token::OpeningParenthesis => TokKind::OpeningParenthesis,
            Token::ClosingParenthesis => TokKind::ClosingParenthesis,
            Token::OpeningBracket => TokKind::OpeningBracket,
            Token::ClosingBracket => TokKind::ClosingBracket,
            Token::Auto => TokKind::Auto,
            Token::Extern => TokKind::Extrn,
            Token::Case => TokKind::Case,
            Token::If => TokKind::If,
            Token::Else => TokKind::Else,
            Token::While => TokKind::While,
            Token::Switch => TokKind::Switch,
            Token::Goto => TokKind::Goto,
            Token::Return => TokKind::Return,
        }
    }

    /// The operator text under the cursor, if the cursor stands on an
    /// operator token.
    fn peek_operator(&self) -> (r: Option<String>)
        requires
            self.wf(),
        ensures
            (match r {
                Some(s) => self.pos() < self.toks().len() && self.toks()[self.pos()]
                    == Tok::Operator(s@),
                None => self.pos() >= self.toks().len() || !(self.toks()[self.pos()] is Operator),
            }),
    {
        if self.cursor >= self.tokens.len() {
            return None;
        }
        match &self.tokens[self.cursor] {
            Token::Operator(s) => Some(s.clone()),
            _ => None,
        }
    }

    /// The symbol text under the cursor, if the cursor stands on a symbol.
    fn peek_symbol(&self) -> (r: Option<String>)
        requires
            self.wf(),
        ensures
            (match r {
                Some(s) => self.pos() < self.toks().len() && self.toks()[self.pos()]
                    == Tok::Symbol(s@),
                None => self.pos() >= self.toks().len() || !(self.toks()[self.pos()] is Symbol),
            }),
    {
        if self.cursor >= self.tokens.len() {
            return None;
        }
        match &self.tokens[self.cursor] {
            Token::Symbol(s) => Some(s.clone()),
            _ => None,
        }
    }

    /// Whether the token after the cursor is the bare `=` operator.
    fn peek_next_is_assign(&self) -> (b: bool)
        requires
            self.wf(),
        ensures
            b == (self.pos() + 1 < self.toks().len() && tok_op(
                self.toks()[self.pos() + 1],
                "="@,
            )),
    {
        if self.cursor >= self.tokens.len() || self.tokens.len() - self.cursor < 2 {
            return false;
        }
        match &self.tokens[self.cursor + 1] {
            Token::Operator(s) => crate::tokenizer::string_is(s, "="),
            _ => false,
        }
    }

    /// Parses one top-level declaration: a declared name, then a function
    /// or (an extension point, always an error for now) a global.
    fn parse_program(&mut self) -> (r: Result<Function, ParseError>)
        requires
            old(self).wf(),
            old(self).pos() == 0,
        ensures
            final(self).wf(),
            (match sp_program(old(self).toks()) {
                Some((f, p)) => r is Ok && (r->Ok_0)@ == f,
                None => r is Err,
            }),
    {
        let tk = match self.next() {
            Ok(tk) => tk,
            Err(e) => {
                return Err(e);
            },
        };
        match tk {
            Token::Symbol(name) => {
                match self.peek_kind() {
                    TokKind::EndOfInput => Err(ParseError::new("unexpected end of input")),
                    TokKind::OpeningParenthesis => {
                        match self.parse_function(name) {
                            Ok(f) => Ok(f),
                            Err(e) => Err(e),
                        }
                    },
                    _ => self.parse_global(name),
                }
            },
            _ => Err(ParseError::new("expecting symbol")),
        }
    }

    /// Global declaration parsing is an extension point whose grammar is
    /// not yet specified; it is always a parse error.
    fn parse_global(&mut self, _name: String) -> (r: Result<Function, ParseError>)
        requires
            old(self).wf(),
        ensures
            final(self).wf(),
            r is Err,
    {
        Err(ParseError::new("global declarations are not implemented"))
    }

    /// Parses a function declaration after its name:
    /// `( ( Symbol (, Symbol)* )? ) statement`.
    fn parse_function(&mut self, name: String) -> (r: Result<Function, ParseError>)
        requires
            old(self).wf(),
        ensures
            final(self).wf(),
            final(self).toks() == old(self).toks(),
            (match sp_function(old(self).toks(), old(self).pos(), name@) {
                Some((f, p)) => r is Ok && (r->Ok_0)@ == f && final(self).pos() == p && old(self).pos() < p,
                None => r is Err,
            }),
        decreases self.toks().len() - self.pos(), 1int,
    {
        match self.next() {
            Ok(Token::OpeningParenthesis) => {},
            Ok(_) => {
                return Err(ParseError::new("expecting opening parenthesis"));
            },
            Err(e) => {
                return Err(e);
            },
        }
        let arguments = match self.parse_params() {
            Ok(ps) => ps,
            Err(e) => {
                return Err(e);
            },
        };
        let body = match self.parse_statement() {
            Ok(s) => s,
            Err(e) => {
                return Err(e);
            },
        };
        Ok(Function { name, arguments, body })
    }

    /// Parses the parameter names of a function declaration.
    fn parse_params(&mut self) -> (r: Result<Vec<String>, ParseError>)
        requires
            old(self).wf(),
        ensures
            final(self).wf(),
            final(self).toks() == old(self).toks(),
            (match sp_params(old(self).toks(), old(self).pos()) {
                Some((ps, p)) => r is Ok && (r->Ok_0)@.map_values(|n: String| n@) == ps && final(self).pos() == p && old(self).pos() < p,
                None => r is Err,
            }),
        decreases self.toks().len() - self.pos(), 0int,
    {
        let tk = match self.next() {
            Ok(tk) => tk,
            Err(e) => {
                return Err(e);
            },
        };
        match tk {
            Token::ClosingParenthesis => {
                let ps: Vec<String> = Vec::new();
                proof {
                    assert(ps@.map_values(|n: String| n@) =~= Seq::<Seq<char>>::empty());
                }
                Ok(ps)
            },
            Token::Symbol(name) => {
                let tk2 = match self.next() {
                    Ok(tk) => tk,
                    Err(e) => {
                        return Err(e);
                    },
                };
                match tk2 {
                    Token::ClosingParenthesis => {
                        let ghost namev = name@;
                        let mut ps: Vec<String> = Vec::new();
                        ps.push(name);
                        proof {
                            assert(ps@.map_values(|n: String| n@) =~= seq![namev]);
                        }
                        Ok(ps)
                    },
                    Token::Operator(op) => {
                        if crate::tokenizer::string_is(&op, ",") {
                            match self.peek_kind() {
                                TokKind::Symbol => {},
                                _ => {
                                    return Err(ParseError::new("expecting symbol after comma"));
                                },
                            }
                            let rest = match self.parse_params() {
                                Ok(ps) => ps,
                                Err(e) => {
                                    return Err(e);
                                },
                            };
                            let ghost namev = name@;
                            let ghost restv = rest@;
                            let mut ps: Vec<String> = Vec::new();
                            ps.push(name);
                            let mut rest = rest;
                            ps.append(&mut rest);
                            proof {
                                assert(ps@.map_values(|n: String| n@) =~= seq![namev]
                                    + restv.map_values(|n: String| n@));
                            }
                            Ok(ps)
                        } else {
                            Err(ParseError::new("invalid token in parameter list"))
                        }
                    },
                    _ => Err(ParseError::new("invalid token in parameter list")),
                }
            },
            _ => Err(ParseError::new("invalid token in parameter list")),
        }
    }

    /// Parses one statement, dispatched on its lead token.
    #[verifier::rlimit(60)]
    pub fn parse_statement(&mut self) -> (r: Result<Stmt, ParseError>)
        requires
            old(self).wf(),
        ensures
            final(self).wf(),
            final(self).toks() == old(self).toks(),
            (match sp_statement(old(self).toks(), old(self).pos()) {
                Some((s, p)) => r is Ok && (r->Ok_0)@ == s && final(self).pos() == p && old(self).pos() < p,
                None => r is Err,
            }),
        decreases self.toks().len() - self.pos(), 14int,
    {
        proof {
            self.toks_len_eq();
        }
        match self.peek_kind() {
            TokKind::EndOfInput => Err(ParseError::new("unexpected end of input")),
            TokKind::Auto => {
                self.advance();
                match self.parse_auto() {
                    Ok(ds) => Ok(Stmt::Auto(ds)),
                    Err(e) => Err(e),
                }
            },
            TokKind::Extrn => {
                self.advance();
                match self.parse_extrn() {
                    Ok(ns) => Ok(Stmt::Extrn(ns)),
                    Err(e) => Err(e),
                }
            },
            TokKind::Symbol => {
                if self.tokens.len() - self.cursor < 2 {
                    return Err(ParseError::new("unexpected end of input"));
                }
                let is_label = match &self.tokens[self.cursor + 1] {
                    Token::Operator(s) => crate::tokenizer::string_is(s, ":"),
                    _ => false,
                };
                if is_label {
                    match self.peek_symbol() {
                        Some(name) => {
                            self.advance();
                            self.advance();
                            Ok(Stmt::Label(name))
                        },
                        None => Err(ParseError::new("expecting symbol")),
                    }
                } else {
                    self.parse_expression_statement()
                }
            },
            TokKind::Case => {
                self.advance();
                Ok(Stmt::Case)
            },
            TokKind::OpeningBrace => {
                self.advance();
                let acc: Vec<Stmt> = Vec::new();
                proof {
                    assert(view_stmts(acc@) =~= Seq::<StmtS>::empty());
                }
                match self.parse_block_rest(acc) {
                    Ok(ss) => Ok(Stmt::Block(ss)),
                    Err(e) => Err(e),
                }
            },
            TokKind::If => {
                self.advance();
                self.parse_if()
            },
            TokKind::While => {
                self.advance();
                Ok(Stmt::While)
            },
            TokKind::Switch => {
                self.advance();
                Ok(Stmt::Switch)
            },
            TokKind::Goto => {
                self.advance();
                Ok(Stmt::Goto)
            },
            TokKind::Return => {
                self.advance();
                Ok(Stmt::Return)
            },
            _ => self.parse_expression_statement(),
        }
    }

    /// Parses an expression statement: `expression ;`.
    fn parse_expression_statement(&mut self) -> (r: Result<Stmt, ParseError>)
        requires
            old(self).wf(),
        ensures
            final(self).wf(),
            final(self).toks() == old(self).toks(),
            (match sp_expression_statement(old(self).toks(), old(self).pos()) {
                Some((s, p)) => r is Ok && (r->Ok_0)@ == s && final(self).pos() == p && old(self).pos() < p,
                None => r is Err,
            }),
        decreases self.toks().len() - self.pos(), 13int,
    {
        let e = match self.parse_rvalue() {
            Ok(e) => e,
            Err(err) => {
                return Err(err);
            },
        };
        match self.next() {
            Ok(Token::EndOfStatement) => Ok(Stmt::Expression(e)),
            Ok(_) => Err(ParseError::new("expecting end of statement")),
            Err(err) => Err(err),
        }
    }

    /// Parses the statements of a block, gathered until the closing brace.
    fn parse_block_rest(&mut self, acc: Vec<Stmt>) -> (r: Result<Vec<Stmt>, ParseError>)
        requires
            old(self).wf(),
        ensures
            final(self).wf(),
            final(self).toks() == old(self).toks(),
            (match sp_block(old(self).toks(), old(self).pos(), view_stmts(acc@)) {
                Some((ss, p)) => r is Ok && view_stmts((r->Ok_0)@) == ss && final(self).pos() == p
                    && old(self).pos() < p,
                None => r is Err,
            }),
        decreases self.toks().len() - self.pos(), 15int,
    {
        proof {
            self.toks_len_eq();
        }
        match self.peek_kind() {
            TokKind::EndOfInput => Err(ParseError::new("unexpected end of input")),
            TokKind::ClosingBrace => {
                self.advance();
                Ok(acc)
            },
            _ => {
                let s = match self.parse_statement() {
                    Ok(s) => s,
                    Err(e) => {
                        return Err(e);
                    },
                };
                let mut acc2 = acc;
                proof {
                    crate::ast::lemma_view_stmts_push(acc2@, s);
                }
                acc2.push(s);
                self.parse_block_rest(acc2)
            },
        }
    }

    /// Parses an `auto` declaration list after the keyword.
    fn parse_auto(&mut self) -> (r: Result<Vec<AutoDecl>, ParseError>)
        requires
            old(self).wf(),
        ensures
            final(self).wf(),
            final(self).toks() == old(self).toks(),
            (match sp_auto(old(self).toks(), old(self).pos()) {
                Some((ds, p)) => r is Ok && (r->Ok_0)@.map_values(|d: AutoDecl| d@) == ds && final(self).pos() == p && old(self).pos() < p,
                None => r is Err,
            }),
        decreases self.toks().len() - self.pos(), 0int,
    {
        let tk = match self.next() {
            Ok(tk) => tk,
            Err(e) => {
                return Err(e);
            },
        };
        let name = match tk {
            Token::Symbol(name) => name,
            _ => {
                return Err(ParseError::new("expecting symbol"));
            },
        };
        let tk2 = match self.next() {
            Ok(tk) => tk,
            Err(e) => {
                return Err(e);
            },
        };
        match tk2 {
            Token::Integer(value) => {
                let tk3 = match self.next() {
                    Ok(tk) => tk,
                    Err(e) => {
                        return Err(e);
                    },
                };
                match tk3 {
                    Token::Operator(op) => {
                        if crate::tokenizer::string_is(&op, ",") {
                            let rest = match self.parse_auto() {
                                Ok(ds) => ds,
                                Err(e) => {
                                    return Err(e);
                                },
                            };
                            let ghost namev = name@;
                            let ghost restv = rest@;
                            let mut ds: Vec<AutoDecl> = Vec::new();
                            ds.push(AutoDecl { name, initial: Some(value) });
                            let mut rest = rest;
                            ds.append(&mut rest);
                            proof {
                                assert(ds@.map_values(|d: AutoDecl| d@) =~= seq![
                                    (namev, Some(value as int)),
                                ] + restv.map_values(|d: AutoDecl| d@));
                            }
                            Ok(ds)
                        } else {
                            Err(ParseError::new("invalid token in declaration list"))
                        }
                    },
                    Token::EndOfStatement => {
                        let ghost namev = name@;
                        let mut ds: Vec<AutoDecl> = Vec::new();
                        ds.push(AutoDecl { name, initial: Some(value) });
                        proof {
                            assert(ds@.map_values(|d: AutoDecl| d@) =~= seq![
                                (namev, Some(value as int)),
                            ]);
                        }
                        Ok(ds)
                    },
                    _ => Err(ParseError::new("invalid token in declaration list")),
                }
            },
            Token::Operator(op) => {
                if crate::tokenizer::string_is(&op, ",") {
                    let rest = match self.parse_auto() {
                        Ok(ds) => ds,
                        Err(e) => {
                            return Err(e);
                        },
                    };
                    let ghost namev = name@;
                    let ghost restv = rest@;
                    let mut ds: Vec<AutoDecl> = Vec::new();
                    ds.push(AutoDecl { name, initial: None });
                    let mut rest = rest;
                    ds.append(&mut rest);
                    proof {
                        assert(ds@.map_values(|d: AutoDecl| d@) =~= seq![
                            (namev, Option::<int>::None),
                        ] + restv.map_values(|d: AutoDecl| d@));
                    }
                    Ok(ds)
                } else {
                    Err(ParseError::new("invalid token in declaration list"))
                }
            },
            Token::EndOfStatement => {
                let ghost namev = name@;
                let mut ds: Vec<AutoDecl> = Vec::new();
                ds.push(AutoDecl { name, initial: None });
                proof {
                    assert(ds@.map_values(|d: AutoDecl| d@) =~= seq![(namev, Option::<int>::None)]);
                }
                Ok(ds)
            },
            _ => Err(ParseError::new("invalid token in declaration list")),
        }
    }

    /// Parses the names of an `extrn` declaration after the keyword: at
    /// least one symbol, comma-separated, terminated by `;`.
    fn parse_extrn(&mut self) -> (r: Result<Vec<String>, ParseError>)
        requires
            old(self).wf(),
        ensures
            final(self).wf(),
            final(self).toks() == old(self).toks(),
            (match sp_extrn_names(old(self).toks(), old(self).pos()) {
                Some((ns, p)) => r is Ok && (r->Ok_0)@.map_values(|n: String| n@) == ns && final(self).pos() == p && old(self).pos() < p,
                None => r is Err,
            }),
        decreases self.toks().len() - self.pos(), 0int,
    {
        let tk = match self.next() {
            Ok(tk) => tk,
            Err(e) => {
                return Err(e);
            },
        };
        let name = match tk {
            Token::Symbol(name) => name,
            _ => {
                return Err(ParseError::new("expecting symbol"));
            },
        };
        let tk2 = match self.next() {
            Ok(tk) => tk,
            Err(e) => {
                return Err(e);
            },
        };
        match tk2 {
            Token::EndOfStatement => {
                let ghost namev = name@;
                let mut ns: Vec<String> = Vec::new();
                ns.push(name);
                proof {
                    assert(ns@.map_values(|n: String| n@) =~= seq![namev]);
                }
                Ok(ns)
            },
            Token::Operator(op) => {
                if crate::tokenizer::string_is(&op, ",") {
                    let rest = match self.parse_extrn() {
                        Ok(ns) => ns,
                        Err(e) => {
                            return Err(e);
                        },
                    };
                    let ghost namev = name@;
                    let ghost restv = rest@;
                    let mut ns: Vec<String> = Vec::new();
                    ns.push(name);
                    let mut rest = rest;
                    ns.append(&mut rest);
                    proof {
                        assert(ns@.map_values(|n: String| n@) =~= seq![namev] + restv.map_values(
                            |n: String| n@,
                        ));
                    }
                    Ok(ns)
                } else {
                    Err(ParseError::new("invalid token in declaration list"))
                }
            },
            _ => Err(ParseError::new("invalid token in declaration list")),
        }
    }

    /// Parses the conditional after the `if` keyword:
    /// `( expression ) statement`.
    #[verifier::rlimit(60)]
    fn parse_if(&mut self) -> (r: Result<Stmt, ParseError>)
        requires
            old(self).wf(),
        ensures
            final(self).wf(),
            final(self).toks() == old(self).toks(),
            (match sp_if(old(self).toks(), old(self).pos()) {
                Some((s, p)) => r is Ok && (r->Ok_0)@ == s && final(self).pos() == p && old(self).pos() < p,
                None => r is Err,
            }),
        decreases self.toks().len() - self.pos(), 13int,
    {
        match self.next() {
            Ok(Token::OpeningParenthesis) => {},
            Ok(_) => {
                return Err(ParseError::new("expecting opening parenthesis"));
            },
            Err(e) => {
                return Err(e);
            },
        }
        let cond = match self.parse_rvalue() {
            Ok(e) => e,
            Err(e) => {
                return Err(e);
            },
        };
        match self.next() {
            Ok(Token::ClosingParenthesis) => {},
            Ok(_) => {
                return Err(ParseError::new("expecting closing parenthesis"));
            },
            Err(e) => {
                return Err(e);
            },
        }
        let body = match self.parse_statement() {
            Ok(s) => s,
            Err(e) => {
                return Err(e);
            },
        };
        Ok(Stmt::If(cond, Box::new(body)))
    }

    /// Parses one full expression: assignment prefixes over the precedence
    /// ladder.
    pub fn parse_rvalue(&mut self) -> (r: Result<Expr, ParseError>)
        requires
            old(self).wf(),
        ensures
            final(self).wf(),
            final(self).toks() == old(self).toks(),
            (match sp_rvalue(old(self).toks(), old(self).pos()) {
                Some((e, p)) => r is Ok && (r->Ok_0)@ == e && final(self).pos() == p && old(self).pos() < p,
                None => r is Err,
            }),
        decreases self.toks().len() - self.pos(), 11int,
    {
        let prefixes = match self.parse_assign_left() {
            Ok(ps) => ps,
            Err(e) => {
                return Err(e);
            },
        };
        let rhs = match self.parse_or_expr() {
            Ok(e) => e,
            Err(e) => {
                return Err(e);
            },
        };
        Ok(apply_assigns_exec(prefixes, rhs))
    }

    /// The one bounded backtrack: parses lvalue-candidates followed by
    /// assignment operators, rolling the cursor back when the candidate is
    /// not the left side of an assignment.
    fn parse_assign_left(&mut self) -> (r: Result<Vec<(Expr, Option<String>)>, ParseError>)
        requires
            old(self).wf(),
        ensures
            final(self).wf(),
            final(self).toks() == old(self).toks(),
            (match sp_assign_left(old(self).toks(), old(self).pos()) {
                Some((ps, p)) => r is Ok && view_prefixes(r->Ok_0@) == ps && final(self).pos() == p
                    && old(self).pos() <= p,
                None => r is Err,
            }),
        decreases self.toks().len() - self.pos(), 10int,
    {
        proof {
            self.toks_len_eq();
        }
        let saved = self.cursor;
        let lv = match self.parse_prefix_expr() {
            Ok(e) => e,
            Err(e) => {
                return Err(e);
            },
        };
        if self.cursor >= self.tokens.len() {
            return Err(ParseError::new("unexpected end of input"));
        }
        let op = match self.peek_operator() {
            Some(op) => op,
            None => {
                self.cursor = saved;
                let ps: Vec<(Expr, Option<String>)> = Vec::new();
                proof {
                    assert(view_prefixes(ps@) =~= Seq::<(ExprS, Option<Seq<char>>)>::empty());
                }
                return Ok(ps);
            },
        };
        if is_compound_op_exec(&op) && self.peek_next_is_assign() {
            self.advance();
            self.advance();
            let rest = match self.parse_assign_left() {
                Ok(ps) => ps,
                Err(e) => {
                    return Err(e);
                },
            };
            let ghost lvv = lv@;
            let ghost opv = op@;
            let ghost restv = rest@;
            let mut ps: Vec<(Expr, Option<String>)> = Vec::new();
            ps.push((lv, Some(op)));
            let mut rest = rest;
            ps.append(&mut rest);
            proof {
                assert(view_prefixes(ps@) =~= seq![(lvv, Some(opv))] + view_prefixes(restv));
            }
            Ok(ps)
        } else if crate::tokenizer::string_is(&op, "=") {
            self.advance();
            let rest = match self.parse_assign_left() {
                Ok(ps) => ps,
                Err(e) => {
                    return Err(e);
                },
            };
            let ghost lvv = lv@;
            let ghost restv = rest@;
            let mut ps: Vec<(Expr, Option<String>)> = Vec::new();
            ps.push((lv, None));
            let mut rest = rest;
            ps.append(&mut rest);
            proof {
                assert(view_prefixes(ps@) =~= seq![(lvv, Option::<Seq<char>>::None)]
                    + view_prefixes(restv));
            }
            Ok(ps)
        } else {
            self.cursor = saved;
            let ps: Vec<(Expr, Option<String>)> = Vec::new();
            proof {
                assert(view_prefixes(ps@) =~= Seq::<(ExprS, Option<Seq<char>>)>::empty());
            }
            Ok(ps)
        }
    }

    fn parse_or_expr(&mut self) -> (r: Result<Expr, ParseError>)
        requires
            old(self).wf(),
        ensures
            final(self).wf(),
            final(self).toks() == old(self).toks(),
            (match sp_or(old(self).toks(), old(self).pos()) {
                Some((e, p)) => r is Ok && (r->Ok_0)@ == e && final(self).pos() == p && old(self).pos() < p,
                None => r is Err,
            }),
        decreases self.toks().len() - self.pos(), 9int,
    {
        match self.parse_and_expr() {
            Ok(e) => self.parse_or_rest(e),
            Err(e) => Err(e),
        }
    }

    #[verifier::rlimit(100)]
    #[verifier::spinoff_prover]
    fn parse_or_rest(&mut self, acc: Expr) -> (r: Result<Expr, ParseError>)
        requires
            old(self).wf(),
        ensures
            final(self).wf(),
            final(self).toks() == old(self).toks(),
            (match sp_or_rest(old(self).toks(), old(self).pos(), acc@) {
                Some((e, p)) => r is Ok && (r->Ok_0)@ == e && final(self).pos() == p && old(self).pos() <= p,
                None => r is Err,
            }),
        decreases self.toks().len() - self.pos(), 9int,
    {
        if self.cursor >= self.tokens.len() {
            return Err(ParseError::new("unexpected end of input"));
        }
        let is_or = match self.peek_operator() {
            Some(op) => crate::tokenizer::string_is(&op, "||"),
            None => false,
        };
        if is_or {
            self.advance();
            let e2 = match self.parse_and_expr() {
                Ok(e) => e,
                Err(e) => {
                    return Err(e);
                },
            };
            let op = String::from_str("||");
            self.parse_or_rest(Expr::Binary(op, Box::new(acc), Box::new(e2)))
        } else {
            Ok(acc)
        }
    }

    fn parse_and_expr(&mut self) -> (r: Result<Expr, ParseError>)
        requires
            old(self).wf(),
        ensures
            final(self).wf(),
            final(self).toks() == old(self).toks(),
            (match sp_and(old(self).toks(), old(self).pos()) {
                Some((e, p)) => r is Ok && (r->Ok_0)@ == e && final(self).pos() == p && old(self).pos() < p,
                None => r is Err,
            }),
        decreases self.toks().len() - self.pos(), 8int,
    {
        match self.parse_equality_expr() {
            Ok(e) => self.parse_and_rest(e),
            Err(e) => Err(e),
        }
    }

    #[verifier::rlimit(100)]
    fn parse_and_rest(&mut self, acc: Expr) -> (r: Result<Expr, ParseError>)
        requires
            old(self).wf(),
        ensures
            final(self).wf(),
            final(self).toks() == old(self).toks(),
            (match sp_and_rest(old(self).toks(), old(self).pos(), acc@) {
                Some((e, p)) => r is Ok && (r->Ok_0)@ == e && final(self).pos() == p && old(self).pos() <= p,
                None => r is Err,
            }),
        decreases self.toks().len() - self.pos(), 8int,
    {
        if self.cursor >= self.tokens.len() {
            return Err(ParseError::new("unexpected end of input"));
        }
        let is_and = match self.peek_operator() {
            Some(op) => crate::tokenizer::string_is(&op, "&&"),
            None => false,
        };
        if is_and {
            self.advance();
            let e2 = match self.parse_equality_expr() {
                Ok(e) => e,
                Err(e) => {
                    return Err(e);
                },
            };
            let op = String::from_str("&&");
            self.parse_and_rest(Expr::Binary(op, Box::new(acc), Box::new(e2)))
        } else {
            Ok(acc)
        }
    }

    fn parse_equality_expr(&mut self) -> (r: Result<Expr, ParseError>)
        requires
            old(self).wf(),
        ensures
            final(self).wf(),
            final(self).toks() == old(self).toks(),
            (match sp_equality(old(self).toks(), old(self).pos()) {
                Some((e, p)) => r is Ok && (r->Ok_0)@ == e && final(self).pos() == p && old(self).pos() < p,
                None => r is Err,
            }),
        decreases self.toks().len() - self.pos(), 7int,
    {
        match self.parse_shift_expr() {
            Ok(e) => self.parse_equality_rest(e),
            Err(e) => Err(e),
        }
    }

    fn parse_equality_rest(&mut self, acc: Expr) -> (r: Result<Expr, ParseError>)
        requires
            old(self).wf(),
        ensures
            final(self).wf(),
            final(self).toks() == old(self).toks(),
            (match sp_equality_rest(old(self).toks(), old(self).pos(), acc@) {
                Some((e, p)) => r is Ok && (r->Ok_0)@ == e && final(self).pos() == p && old(self).pos() <= p,
                None => r is Err,
            }),
        decreases self.toks().len() - self.pos(), 7int,
    {
        if self.cursor >= self.tokens.len() {
            return Err(ParseError::new("unexpected end of input"));
        }
        let op_found: Option<String> = match self.peek_operator() {
            Some(op) => {
                if crate::tokenizer::string_is(&op, "==") || crate::tokenizer::string_is(
                    &op,
                    "!=",
                ) {
                    Some(op)
                } else {
                    None
                }
            },
            None => None,
        };
        match op_found {
            Some(op) => {
                self.advance();
                let e2 = match self.parse_shift_expr() {
                    Ok(e) => e,
                    Err(e) => {
                        return Err(e);
                    },
                };
                self.parse_equality_rest(Expr::Binary(op, Box::new(acc), Box::new(e2)))
            },
            None => Ok(acc),
        }
    }

    fn parse_shift_expr(&mut self) -> (r: Result<Expr, ParseError>)
        requires
            old(self).wf(),
        ensures
            final(self).wf(),
            final(self).toks() == old(self).toks(),
            (match sp_shift(old(self).toks(), old(self).pos()) {
                Some((e, p)) => r is Ok && (r->Ok_0)@ == e && final(self).pos() == p && old(self).pos() < p,
                None => r is Err,
            }),
        decreases self.toks().len() - self.pos(), 6int,
    {
        match self.parse_add_expr() {
            Ok(e) => self.parse_shift_rest(e),
            Err(e) => Err(e),
        }
    }

    fn parse_shift_rest(&mut self, acc: Expr) -> (r: Result<Expr, ParseError>)
        requires
            old(self).wf(),
        ensures
            final(self).wf(),
            final(self).toks() == old(self).toks(),
            (match sp_shift_rest(old(self).toks(), old(self).pos(), acc@) {
                Some((e, p)) => r is Ok && (r->Ok_0)@ == e && final(self).pos() == p && old(self).pos() <= p,
                None => r is Err,
            }),
        decreases self.toks().len() - self.pos(), 6int,
    {
        if self.cursor >= self.tokens.len() {
            return Err(ParseError::new("unexpected end of input"));
        }
        let op_found: Option<String> = match self.peek_operator() {
            Some(op) => {
                if crate::tokenizer::string_is(&op, ">>") || crate::tokenizer::string_is(
                    &op,
                    "<<",
                ) {
                    Some(op)
                } else {
                    None
                }
            },
            None => None,
        };
        match op_found {
            Some(op) => {
                self.advance();
                let e2 = match self.parse_add_expr() {
                    Ok(e) => e,
                    Err(e) => {
                        return Err(e);
                    },
                };
                self.parse_shift_rest(Expr::Binary(op, Box::new(acc), Box::new(e2)))
            },
            None => Ok(acc),
        }
    }

    fn parse_add_expr(&mut self) -> (r: Result<Expr, ParseError>)
        requires
            old(self).wf(),
        ensures
            final(self).wf(),
            final(self).toks() == old(self).toks(),
            (match sp_add(old(self).toks(), old(self).pos()) {
                Some((e, p)) => r is Ok && (r->Ok_0)@ == e && final(self).pos() == p && old(self).pos() < p,
                None => r is Err,
            }),
        decreases self.toks().len() - self.pos(), 5int,
    {
        match self.parse_mul_expr() {
            Ok(e) => self.parse_add_rest(e),
            Err(e) => Err(e),
        }
    }

    fn parse_add_rest(&mut self, acc: Expr) -> (r: Result<Expr, ParseError>)
        requires
            old(self).wf(),
        ensures
            final(self).wf(),
            final(self).toks() == old(self).toks(),
            (match sp_add_rest(old(self).toks(), old(self).pos(), acc@) {
                Some((e, p)) => r is Ok && (r->Ok_0)@ == e && final(self).pos() == p && old(self).pos() <= p,
                None => r is Err,
            }),
        decreases self.toks().len() - self.pos(), 5int,
    {
        if self.cursor >= self.tokens.len() {
            return Err(ParseError::new("unexpected end of input"));
        }
        let op_found: Option<String> = match self.peek_operator() {
            Some(op) => {
                if crate::tokenizer::string_is(&op, "+") || crate::tokenizer::string_is(&op, "-") {
                    Some(op)
                } else {
                    None
                }
            },
            None => None,
        };
        match op_found {
            Some(op) => {
                self.advance();
                let e2 = match self.parse_mul_expr() {
                    Ok(e) => e,
                    Err(e) => {
                        return Err(e);
                    },
                };
                self.parse_add_rest(Expr::Binary(op, Box::new(acc), Box::new(e2)))
            },
            None => Ok(acc),
        }
    }

    fn parse_mul_expr(&mut self) -> (r: Result<Expr, ParseError>)
        requires
            old(self).wf(),
        ensures
            final(self).wf(),
            final(self).toks() == old(self).toks(),
            (match sp_mul(old(self).toks(), old(self).pos()) {
                Some((e, p)) => r is Ok && (r->Ok_0)@ == e && final(self).pos() == p && old(self).pos() < p,
                None => r is Err,
            }),
        decreases self.toks().len() - self.pos(), 4int,
    {
        match self.parse_prefix_expr() {
            Ok(e) => self.parse_mul_rest(e),
            Err(e) => Err(e),
        }
    }

    fn parse_mul_rest(&mut self, acc: Expr) -> (r: Result<Expr, ParseError>)
        requires
            old(self).wf(),
        ensures
            final(self).wf(),
            final(self).toks() == old(self).toks(),
            (match sp_mul_rest(old(self).toks(), old(self).pos(), acc@) {
                Some((e, p)) => r is Ok && (r->Ok_0)@ == e && final(self).pos() == p && old(self).pos() <= p,
                None => r is Err,
            }),
        decreases self.toks().len() - self.pos(), 4int,
    {
        if self.cursor >= self.tokens.len() {
            return Err(ParseError::new("unexpected end of input"));
        }
        let op_found: Option<String> = match self.peek_operator() {
            Some(op) => {
                if crate::tokenizer::string_is(&op, "*") || crate::tokenizer::string_is(&op, "/")
                    || crate::tokenizer::string_is(&op, "%") {
                    Some(op)
                } else {
                    None
                }
            },
            None => None,
        };
        match op_found {
            Some(op) => {
                self.advance();
                let e2 = match self.parse_prefix_expr() {
                    Ok(e) => e,
                    Err(e) => {
                        return Err(e);
                    },
                };
                self.parse_mul_rest(Expr::Binary(op, Box::new(acc), Box::new(e2)))
            },
            None => Ok(acc),
        }
    }

    /// Parses a run of prefix operators over a postfix expression.
    fn parse_prefix_expr(&mut self) -> (r: Result<Expr, ParseError>)
        requires
            old(self).wf(),
        ensures
            final(self).wf(),
            final(self).toks() == old(self).toks(),
            (match sp_prefix(old(self).toks(), old(self).pos()) {
                Some((e, p)) => r is Ok && (r->Ok_0)@ == e && final(self).pos() == p && old(self).pos() < p,
                None => r is Err,
            }),
        decreases self.toks().len() - self.pos(), 3int,
    {
        if self.cursor >= self.tokens.len() {
            return Err(ParseError::new("unexpected end of input"));
        }
        let op_found: Option<(String, bool)> = match self.peek_operator() {
            Some(op) => {
                if is_value_prefix_op_exec(&op) {
                    Some((op, false))
                } else if is_lvalue_prefix_op_exec(&op) {
                    Some((op, true))
                } else {
                    None
                }
            },
            None => None,
        };
        match op_found {
            Some((op, needs_lvalue)) => {
                self.advance();
                let operand = match self.parse_prefix_expr() {
                    Ok(e) => e,
                    Err(e) => {
                        return Err(e);
                    },
                };
                if needs_lvalue && !expr_is_lvalue(&operand) {
                    return Err(ParseError::new("expecting an addressable operand"));
                }
                Ok(Expr::Unary(op, Box::new(operand)))
            },
            None => self.parse_postfix_expr(),
        }
    }

    fn parse_postfix_expr(&mut self) -> (r: Result<Expr, ParseError>)
        requires
            old(self).wf(),
        ensures
            final(self).wf(),
            final(self).toks() == old(self).toks(),
            (match sp_postfix(old(self).toks(), old(self).pos()) {
                Some((e, p)) => r is Ok && (r->Ok_0)@ == e && final(self).pos() == p && old(self).pos() < p,
                None => r is Err,
            }),
        decreases self.toks().len() - self.pos(), 2int,
    {
        match self.parse_atomic_expr() {
            Ok(e) => self.parse_postfix_rest(e),
            Err(e) => Err(e),
        }
    }

    /// Postfix context over an already-parsed atom: calls, postfix
    /// `++`/`--`, and `[` rvalue `]` indexed elements.
    fn parse_postfix_rest(&mut self, acc: Expr) -> (r: Result<Expr, ParseError>)
        requires
            old(self).wf(),
        ensures
            final(self).wf(),
            final(self).toks() == old(self).toks(),
            (match sp_postfix_rest(old(self).toks(), old(self).pos(), acc@) {
                Some((e, p)) => r is Ok && (r->Ok_0)@ == e && final(self).pos() == p && old(self).pos() <= p,
                None => r is Err,
            }),
        decreases self.toks().len() - self.pos(), 1int,
    {
        proof {
            self.toks_len_eq();
        }
        match self.peek_kind() {
            TokKind::EndOfInput => Err(ParseError::new("unexpected end of input")),
            TokKind::OpeningBracket => {
                self.advance();
                let idx = match self.parse_rvalue() {
                    Ok(e) => e,
                    Err(e) => {
                        return Err(e);
                    },
                };
                match self.next() {
                    Ok(Token::ClosingBracket) => {},
                    Ok(_) => {
                        return Err(ParseError::new("expecting closing bracket"));
                    },
                    Err(e) => {
                        return Err(e);
                    },
                }
                self.parse_postfix_rest(Expr::Index(Box::new(acc), Box::new(idx)))
            },
            TokKind::OpeningParenthesis => {
                let args = match self.parse_function_call_arguments() {
                    Ok(args) => args,
                    Err(e) => {
                        return Err(e);
                    },
                };
                self.parse_postfix_rest(Expr::Call(Box::new(acc), args))
            },
            TokKind::Operator => {
                let op_found: Option<String> = match self.peek_operator() {
                    Some(op) => {
                        if is_postfix_op_exec(&op) {
                            Some(op)
                        } else {
                            None
                        }
                    },
                    None => None,
                };
                match op_found {
                    Some(op) => {
                        self.advance();
                        self.parse_postfix_rest(Expr::Postfix(op, Box::new(acc)))
                    },
                    None => Ok(acc),
                }
            },
            _ => Ok(acc),
        }
    }

    /// Parses a call argument list: `(` under the cursor, zero or more
    /// comma-separated rvalues, closed by `)`.
    fn parse_function_call_arguments(&mut self) -> (r: Result<Vec<Expr>, ParseError>)
        requires
            old(self).wf(),
        ensures
            final(self).wf(),
            final(self).toks() == old(self).toks(),
            (match sp_call_args(old(self).toks(), old(self).pos()) {
                Some((args, p)) => r is Ok && view_exprs((r->Ok_0)@) == args && final(self).pos()
                    == p && old(self).pos() < p,
                None => r is Err,
            }),
        decreases self.toks().len() - self.pos(), 0int,
    {
        proof {
            self.toks_len_eq();
        }
        match self.peek_kind() {
            TokKind::OpeningParenthesis => {
                self.advance();
            },
            _ => {
                return Err(ParseError::new("expecting opening parenthesis"));
            },
        }
        let acc: Vec<Expr> = Vec::new();
        proof {
            assert(view_exprs(acc@) =~= Seq::<ExprS>::empty());
        }
        self.parse_args_rest(acc)
    }

    #[verifier::rlimit(100)]
    fn parse_args_rest(&mut self, acc: Vec<Expr>) -> (r: Result<Vec<Expr>, ParseError>)
        requires
            old(self).wf(),
        ensures
            final(self).wf(),
            final(self).toks() == old(self).toks(),
            (match sp_args_rest(old(self).toks(), old(self).pos(), view_exprs(acc@)) {
                Some((args, p)) => r is Ok && view_exprs((r->Ok_0)@) == args && final(self).pos()
                    == p && old(self).pos() < p,
                None => r is Err,
            }),
        decreases self.toks().len() - self.pos(), 12int,
    {
        proof {
            self.toks_len_eq();
        }
        match self.peek_kind() {
            TokKind::EndOfInput => Err(ParseError::new("unexpected end of input")),
            TokKind::ClosingParenthesis => {
                self.advance();
                Ok(acc)
            },
            _ => {
                let e = match self.parse_rvalue() {
                    Ok(e) => e,
                    Err(err) => {
                        return Err(err);
                    },
                };
                let mut acc2 = acc;
                proof {
                    crate::ast::lemma_view_exprs_push(acc2@, e);
                }
                acc2.push(e);
                let is_comma = match self.peek_operator() {
                    Some(op) => crate::tokenizer::string_is(&op, ","),
                    None => false,
                };
                if is_comma {
                    self.advance();
                    self.parse_args_rest(acc2)
                } else {
                    match self.peek_kind() {
                        TokKind::ClosingParenthesis => self.parse_args_rest(acc2),
                        _ => Err(ParseError::new("expecting comma or closing parenthesis")),
                    }
                }
            },
        }
    }

    /// Parses an atom: a literal, a symbol, or a parenthesized rvalue.
    fn parse_atomic_expr(&mut self) -> (r: Result<Expr, ParseError>)
        requires
            old(self).wf(),
        ensures
            final(self).wf(),
            final(self).toks() == old(self).toks(),
            (match sp_atomic(old(self).toks(), old(self).pos()) {
                Some((e, p)) => r is Ok && (r->Ok_0)@ == e && final(self).pos() == p && old(self).pos() < p,
                None => r is Err,
            }),
        decreases self.toks().len() - self.pos(), 0int,
    {
        let tk = match self.next() {
            Ok(tk) => tk,
            Err(e) => {
                return Err(e);
            },
        };
        match tk {
            Token::Integer(value) => Ok(Expr::Integer(value)),
            Token::String(text) => Ok(Expr::StrLit(text)),
            Token::Char(chars) => Ok(Expr::CharLit(chars)),
            Token::Symbol(name) => Ok(Expr::Variable(name)),
            Token::OpeningParenthesis => {
                let e = match self.parse_rvalue() {
                    Ok(e) => e,
                    Err(err) => {
                        return Err(err);
                    },
                };
                match self.next() {
                    Ok(Token::ClosingParenthesis) => Ok(e),
                    Ok(_) => Err(ParseError::new("expecting closing parenthesis")),
                    Err(err) => Err(err),
                }
            },
            _ => Err(ParseError::new("expecting int, string, char, symbol or parenthesis")),
        }
    }
}

// ---------------------------------------------------------------------------
// Laws
// ---------------------------------------------------------------------------

/// Law: an lvalue-candidate followed by a bare `=` parses as a plain
/// assignment of the following rvalue into it; the candidate and the
/// right-hand side are kept, nothing is re-read.
pub proof fn lemma_plain_assignment(t: Seq<Tok>, p: int, lv: ExprS, p1: int)
    requires
        0 <= p < t.len(),
        sp_prefix(t, p) == Some::<(ExprS, int)>((lv, p1)),
        p < p1 <= t.len(),
        p1 < t.len(),
        tok_op(t[p1], "="@),
    ensures
        sp_assign_left(t, p) == (match sp_assign_left(t, p1 + 1) {
            Some((rest, pr)) => Some::<(Seq<(ExprS, Option<Seq<char>>)>, int)>(
                (seq![(lv, Option::<Seq<char>>::None)] + rest, pr),
            ),
            None => None,
        }),
{
    reveal_strlit("=");
    reveal_strlit("|");
    reveal_strlit("&");
    reveal_strlit("==");
    reveal_strlit("!=");
    reveal_strlit("<");
    reveal_strlit("<=");
    reveal_strlit(">");
    reveal_strlit(">=");
    reveal_strlit(">>");
    reveal_strlit("<<");
    reveal_strlit("-");
    reveal_strlit("+");
    reveal_strlit("%");
    reveal_strlit("*");
    reveal_strlit("/");
    assert("="@.len() == 1 && "="@[0] == '=');
    assert("|"@.len() == 1 && "|"@[0] == '|');
    assert("&"@.len() == 1 && "&"@[0] == '&');
    assert("<"@.len() == 1 && "<"@[0] == '<');
    assert(">"@.len() == 1 && ">"@[0] == '>');
    assert("-"@.len() == 1 && "-"@[0] == '-');
    assert("+"@.len() == 1 && "+"@[0] == '+');
    assert("%"@.len() == 1 && "%"@[0] == '%');
    assert("*"@.len() == 1 && "*"@[0] == '*');
    assert("/"@.len() == 1 && "/"@[0] == '/');
    assert("=="@.len() == 2);
    assert("!="@.len() == 2);
    assert("<="@.len() == 2);
    assert(">="@.len() == 2);
    assert(">>"@.len() == 2);
    assert("<<"@.len() == 2);
    assert(!is_compound_op("="@));
}

/// Law: an lvalue-candidate followed by a compound operator and then a bare
/// `=` parses as a compound assignment carrying exactly that operator.
pub proof fn lemma_compound_assignment(t: Seq<Tok>, p: int, lv: ExprS, p1: int, op: Seq<char>)
    requires
        0 <= p < t.len(),
        sp_prefix(t, p) == Some::<(ExprS, int)>((lv, p1)),
        p < p1 <= t.len(),
        p1 < t.len(),
        t[p1] == Tok::Operator(op),
        is_compound_op(op),
        p1 + 1 < t.len(),
        tok_op(t[p1 + 1], "="@),
    ensures
        sp_assign_left(t, p) == (match sp_assign_left(t, p1 + 2) {
            Some((rest, pr)) => Some::<(Seq<(ExprS, Option<Seq<char>>)>, int)>(
                (seq![(lv, Some(op))] + rest, pr),
            ),
            None => None,
        }),
{
}

/// Law (backtracking): an expression that begins like an lvalue but is not
/// followed by an assignment leaves no assignment prefix and rolls the
/// cursor back to where the candidate began, so that the same tokens are
/// parsed again as a plain value.
pub proof fn lemma_backtrack(t: Seq<Tok>, p: int, lv: ExprS, p1: int)
    requires
        0 <= p < t.len(),
        sp_prefix(t, p) == Some::<(ExprS, int)>((lv, p1)),
        p < p1 <= t.len(),
        p1 < t.len(),
        t[p1] is Operator ==> !(t[p1]->Operator_0 == "="@ || (is_compound_op(t[p1]->Operator_0)
            && p1 + 1 < t.len() && tok_op(t[p1 + 1], "="@))),
    ensures
        sp_assign_left(t, p) == Some::<(Seq<(ExprS, Option<Seq<char>>)>, int)>(
            (Seq::empty(), p),
        ),
{
}

/// Law: `==` not followed by a bare `=` is a comparison, never mis-parsed
/// as an assignment: the candidate parse rolls back.
pub proof fn lemma_equality_not_assignment(t: Seq<Tok>, p: int, lv: ExprS, p1: int)
    requires
        0 <= p < t.len(),
        sp_prefix(t, p) == Some::<(ExprS, int)>((lv, p1)),
        p < p1 <= t.len(),
        p1 < t.len(),
        tok_op(t[p1], "=="@),
        !(p1 + 1 < t.len() && tok_op(t[p1 + 1], "="@)),
    ensures
        sp_assign_left(t, p) == Some::<(Seq<(ExprS, Option<Seq<char>>)>, int)>(
            (Seq::empty(), p),
        ),
{
    reveal_strlit("==");
    reveal_strlit("=");
    assert("=="@.len() == 2);
    assert("="@.len() == 1);
    assert("=="@ != "="@);
    lemma_backtrack(t, p, lv, p1);
}

} // verus!

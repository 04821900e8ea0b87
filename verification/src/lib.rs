//! Front end for a small, untyped, word-oriented systems language in the
//! tradition of early C predecessors: a push-based lexer that turns a
//! character stream into a token sequence, and a recursive-descent parser
//! that recognizes one top-level declaration with a full expression
//! sub-grammar, an explicit lvalue/rvalue distinction and assignment
//! handling.

pub mod ast;
pub mod parser;
pub mod tokenizer;
pub mod tokens;

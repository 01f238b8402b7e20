//! A small statically typed, expression-oriented scripting language.
//!
//! The front end parses a program into two pools of nodes, `ast::ExprPool`
//! and `ast::StmtPool`, whose nodes refer to one another by index. The type
//! checker in `type_checker` visits the functions of a program, resolves the
//! integer literals that carry no suffix, and rewrites them in the pool, each
//! at its own index. The evaluator in `interpreter` walks the pools and runs
//! the function `main`.
//!
//! The functions of the crate are verified against their contracts. The
//! contracts of the parsers, the type checker and the evaluator say that the
//! function computes what a mathematical description of the grammar, of the
//! typing rules or of the evaluation gives: `grammar` and `program_grammar`,
//! `type_checker::model` and `type_checker::rules`, `interpreter::semantics`.
//! The laws that follow from these descriptions stand beside them as proof
//! functions. Only the calls into the string interner, in `interner`, the
//! sharing of a handle, in `shared`, and the appending of a character to a
//! string, in `text`, have contracts that are taken on trust.

pub mod ast;
pub mod grammar;
pub mod interner;
pub mod interpreter;
pub mod lexer;
pub mod number;
pub mod parser;
pub mod program_grammar;
pub mod program_parser;
pub mod shared;
pub mod symbol;
pub mod syntax;
pub mod text;
pub mod token;
pub mod type_checker;
pub mod type_decl;
pub mod typing;

//! Syntactic front end of a small interpreted language: a single-pass,
//! single-token-lookahead recursive-descent parser with precedence-climbing
//! expression parsing.  The parser consumes a sequence of lexical tokens and
//! produces an abstract syntax tree, or a structured diagnostic carrying the
//! source span of the first offending token.
//!
//! The grammar is stated twice: once as pure specification functions over a
//! `Seq<Token>` (module `grammar`) and once as executable code (module
//! `parser`); every executable production is proved to return exactly what
//! its specification counterpart computes.

pub mod token;
pub mod ast;
pub mod error;
pub mod grammar;
pub mod parser;

pub use token::{Token, TokenKind};
pub use ast::{Expr, LiteralType, Stmt};
pub use error::{Error, ErrorInfo};
pub use parser::Parser;

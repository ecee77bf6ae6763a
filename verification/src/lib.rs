//! A small expression language: tokenizer, precedence-climbing parser and
//! tree-walking evaluator with lexical scopes and first-class functions.
//!
//! Every function is verified against a mathematical model of the data it
//! works on: character sequences for source text, algebraic models for
//! tokens and syntax trees, and finite maps for scopes.

pub mod utils;
pub mod token;
pub mod lexer;
pub mod ast;
pub mod parser;
pub mod object;
pub mod environment;
pub mod evaluator;

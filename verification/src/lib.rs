//! An embeddable expression evaluator: a lexer, a precedence-climbing tree
//! builder and a recursive evaluator over a JSON-shaped value model.
pub mod value;
pub mod error;
pub mod operator;
pub mod node;
pub mod host;
pub mod builder;
pub mod number;
pub mod lexer;
pub mod tree;
pub mod math;
pub mod builtin;
pub mod eval;
pub mod laws;

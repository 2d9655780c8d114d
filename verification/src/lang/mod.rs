//! The description language: tokens, grammar, data access and binding.

pub mod lexer;
pub mod binder;
pub mod color;
pub mod grammar;
pub mod parser;
pub mod program;
pub mod value;

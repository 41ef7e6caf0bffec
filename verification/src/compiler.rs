//! The single-pass compiler: a precedence-climbing parser that emits
//! bytecode as it reads the tokens.

pub mod rules;
pub mod diagnostic;
pub mod model;
pub mod scope;
pub mod parser;
pub mod grammar;
pub mod progress;

//! A single-pass bytecode compiler and stack-based virtual machine for a small
//! dynamically-typed scripting language, with machine-checked contracts.
//!
//! Source text is scanned into tokens, compiled straight to bytecode by a
//! precedence-climbing parser, and executed by a stack machine. Numbers are
//! IEEE-754 double-precision values held by their bit pattern: the library
//! compares and negates them itself and leaves conversion from text, the four
//! arithmetic operations and formatting to the embedding program.

pub mod text;
pub mod obj;
pub mod value;
pub mod chunk;
pub mod token;
pub mod scanner;
pub mod compiler;
pub mod globals;
pub mod vm;
pub mod debug;
pub mod error;
pub mod lox;

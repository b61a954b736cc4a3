//! The Python syntax tree that lowering produces, and a factory for its nodes.

pub mod ast;
pub mod util;

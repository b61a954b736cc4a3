//! The lowering pass: from the Koatl syntax tree to the Python syntax tree.

pub mod block;
pub mod context;
pub mod control;
pub mod destructure;
pub mod entry;
pub mod errors;
pub mod expr;
pub mod function;
pub mod laws;
pub mod literal;
pub mod model;
pub mod names;
pub mod outcome;
pub mod postfix;
pub mod rules;
pub mod stmt;
pub mod store;
pub mod store_proof;

pub use entry::{transform_ast, TransformOutput};
pub use errors::{TfErr, TfErrBuilder, TfErrKind, TfErrs};

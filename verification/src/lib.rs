//! Lowering of the Koatl scripting language to a Python syntax tree.

pub mod ast;
pub mod linecol;
pub mod py;
pub mod transform;

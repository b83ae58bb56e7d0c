//! Renders a type-checked program's canonical expression tree as compact
//! S-expression text, qualifying each variable by its defining module.

pub mod expr;
pub mod interns;
pub mod text;
pub mod loaded;
pub mod laws;

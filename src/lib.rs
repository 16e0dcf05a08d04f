pub mod ast;
pub mod config;
pub mod cursor;
pub mod error;
pub mod expr;
pub mod name_map;
pub mod paths;
pub mod span;

pub mod commands;
pub mod domain;
pub mod error;
pub mod text;
pub mod tools;

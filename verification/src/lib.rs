pub mod commands;
pub mod components;
pub mod errors;
pub mod utils;
pub mod visitors;

pub use errors::Error;

pub mod cache;
pub mod encode;
pub mod fs;
pub mod git_utils;
pub mod text;

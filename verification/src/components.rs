pub mod component;
pub mod git_dependency;
pub mod solution;

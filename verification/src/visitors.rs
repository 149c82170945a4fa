pub mod component_sync_visitor;
pub mod component_visitor;
pub mod status_visitor;
pub mod sync_visitor;

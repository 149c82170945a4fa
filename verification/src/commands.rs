pub mod status;
pub mod sync;
pub mod version;

pub mod status;
pub mod document;
pub mod config;
pub mod lookup;
pub mod laws;

pub mod data;
pub mod loader;

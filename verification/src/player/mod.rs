pub mod resources;
pub mod deploy;
pub mod palette;

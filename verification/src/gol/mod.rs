pub mod mask;
pub mod revival;
pub mod rules;
pub mod bomb;
pub mod engine;
pub mod laws;

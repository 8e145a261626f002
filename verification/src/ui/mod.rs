pub mod deployment_panel;
pub mod level_io;
pub mod simulator_panel;

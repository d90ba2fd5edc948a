pub mod command;
pub mod config;
pub mod docker_command;
pub mod indexes;
pub mod laws;
pub mod pipeline;
pub mod response;
pub mod text;
pub mod utils;

pub mod appointment;
pub mod config;
pub mod credentials;
pub mod dates;
pub mod errors;
pub mod render;
pub mod text;

pub mod checks;
pub mod cli;
pub mod config;
pub mod style;
pub mod support;
pub mod text;
pub mod runner;

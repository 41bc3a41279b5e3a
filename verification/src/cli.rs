pub mod args;
pub mod command;
pub mod config;
pub mod error;
pub mod input;

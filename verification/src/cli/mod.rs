//! The conversation with the model, seen from the program that drives it.
pub mod app;
pub mod init;
pub mod interactive;

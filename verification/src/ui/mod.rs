//! The text of what is shown to the operator. Colours and the terminal are
//! the caller's business.
pub mod error_format;
pub mod ui_utils;

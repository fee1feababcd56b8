//! The execution core of a command-line agent: the rules that stand between
//! what a language model proposes and what is carried out on the machine.
//!
//! The library takes no action on the machine itself. It decides: whether a
//! proposed operation may run ([`security`], [`approval`]), what a tool call
//! of the model asks for ([`dispatch`]), what happens next in the
//! conversation ([`cli::app`]), and what text is handed back for a command
//! that has run ([`shell`]). Whoever drives it reads files, starts processes,
//! asks the operator and calls the model, and reports what came of it.
//!
//! Every function is verified against its contract. The contracts speak of
//! texts as sequences of characters. A few things are taken on trust and are
//! marked where they stand: how `regex` compiles and runs a pattern
//! ([`pattern`]), how `serde_json` reads a document ([`json`]), what the
//! platform's path syntax says of a path, and that a string built from
//! characters holds those characters ([`text`]).
pub mod ai;
pub mod approval;
pub mod cli;
pub mod config;
pub mod dispatch;
pub mod json;
mod paths;
pub mod pattern;
pub mod security;
pub mod shell;
pub mod text;
pub mod ui;

//! What is exchanged with the language model, and what is told to it about
//! the workspace.
pub mod llm;
pub mod workspace_context;

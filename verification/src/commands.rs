//! What the user interface may ask of the backend, one module per area.

pub mod execution;
pub mod grading;
pub mod settings;
pub mod lsp;
pub mod lessons;

//! The rows that the local database keeps.

use vstd::prelude::*;

verus! {

/// A project as the database knows it.
#[derive(Debug, Clone)]
pub struct Project {
    pub id: String,
    pub name: String,
    pub path: String,
    pub language: Option<String>,
    pub created_at: String,
    pub updated_at: String,
}

/// How the language server of one language is started.
#[derive(Debug, Clone)]
pub struct LspConfig {
    pub language: String,
    pub server_path: String,
    /// The arguments, as a JSON list of strings.
    pub args: Option<String>,
    pub settings: Option<String>,
}

} // verus!

//! Backend core of an education-first desktop IDE.
//!
//! The crate holds the decisions of the backend as verified functions on plain
//! values: the sandboxed execution engine, the security policy, the language
//! tables, the feature flags and the service registry. Everything that touches
//! the container runtime, the file system or a process stays with the caller,
//! which performs the action a function names and hands back what happened.

pub mod error;
pub mod outside;
pub mod clock;
pub mod text;
pub mod paths;
pub mod docker;
pub mod security;
pub mod features;
pub mod db;
pub mod services;
pub mod fs;
pub mod listing;
pub mod commands;

//! Session core of an application launcher: one authenticated engine behind a
//! lock, and a registry of per-application symmetric keys.

pub mod error;
pub mod key;
pub mod launcher;
pub mod registry;

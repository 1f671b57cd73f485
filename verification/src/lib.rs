//! Loader for a CLI configuration document: a flat TOML file whose five fixed
//! top-level keys are global settings and whose every other top-level key names
//! a profile (a nested record of credential/context presets).
//!
//! The TOML reader of the `toml` crate turns the raw text into a generic
//! key-value tree; everything after that point — the schema, the catch-all
//! profile rule, the closed `auth_type` enumeration and the error taxonomy —
//! is verified against the specifications in [`model`].

pub mod decode;
pub mod error;
pub mod kv;
pub mod laws;
pub mod model;
pub mod schema;
pub mod toml_doc;

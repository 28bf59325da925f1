//! Loading and validation of a wasmCloud project manifest.
//!
//! A manifest is first read into a loosely typed [`RawProjectConfig`], whose
//! enum discriminants are plain strings and whose variant payloads are optional
//! blocks. [`ProjectConfig::try_from`] then projects it into the strongly typed
//! [`ProjectConfig`], failing when a discriminant is unknown, when the payload
//! block that a discriminant selects is absent, or when the version is not a
//! semantic version.

pub mod laws;
pub mod project;
pub mod text;
pub mod types;
pub mod version;

pub use project::{resolve_language, resolve_project_type, ProjectConfig, RawProjectConfig};
pub use types::{
    ActorConfig, ConfigError, ConfigField, InterfaceConfig, LanguageConfig, ProviderConfig,
    RustConfig, TinyGoConfig, TypeConfig, Variant,
};
pub use version::{parse_version, SemVersion};

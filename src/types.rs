use vstd::prelude::*;

verus! {

/// Build settings of a Rust project. Paths are kept as written in the manifest.
#[derive(Debug, PartialEq, Clone)]
pub struct RustConfig {
    pub cargo_path: Option<String>,
    pub target_path: Option<String>,
}

/// Build settings of a TinyGo project; the section carries no fields.
#[derive(Debug, PartialEq, Clone)]
pub struct TinyGoConfig {}

/// The language a project is built with; exactly one variant is populated.
#[derive(Debug, PartialEq, Clone)]
pub enum LanguageConfig {
    Rust(RustConfig),
    TinyGo(TinyGoConfig),
}

/// Settings of an actor project.
#[derive(Debug, PartialEq, Clone)]
pub struct ActorConfig {
    pub claims: Option<Vec<String>>,
    pub registry: Option<String>,
    pub push_insecure: bool,
    pub key_directory: Option<String>,
    pub filename: Option<String>,
    pub wasm_type: Option<String>,
}

/// Settings of a capability provider project.
#[derive(Debug, PartialEq, Clone)]
pub struct ProviderConfig {
    pub capability_id: String,
    pub vendor: Option<String>,
}

/// Settings of an interface project; the section carries no fields.
#[derive(Debug, PartialEq, Clone)]
pub struct InterfaceConfig {}

/// The kind of component a project builds; exactly one variant is populated.
#[derive(Debug, PartialEq, Clone)]
pub enum TypeConfig {
    Actor(ActorConfig),
    Provider(ProviderConfig),
    Interface(InterfaceConfig),
}

/// A discriminant field of the manifest.
#[derive(Debug, PartialEq, Eq, Clone, Copy)]
pub enum ConfigField {
    /// The top-level `type` key.
    ProjectType,
    /// The top-level `language` key.
    Language,
}

/// A variant whose payload section a manifest may supply.
#[derive(Debug, PartialEq, Eq, Clone, Copy)]
pub enum Variant {
    Actor,
    Provider,
    Interface,
    Rust,
    TinyGo,
}

/// Why a manifest could not be turned into a [`crate::ProjectConfig`].
#[derive(Debug, PartialEq, Clone)]
pub enum ConfigError {
    /// The manifest file is missing, unreadable or not valid structured data.
    Source { message: String },
    /// The merged document does not have the fields and types of a manifest.
    Shape { message: String },
    /// A discriminant holds a tag that names no known variant.
    UnknownDiscriminant { field: ConfigField, value: String },
    /// A discriminant names a variant whose payload section is absent.
    MissingPayload { variant: Variant },
    /// The version is not a semantic version.
    VersionParse { value: String },
}

impl ConfigField {
    /// The manifest key of this field.
    pub fn key(&self) -> (r: &'static str)
        ensures
            r@ == self.spec_key(),
    {
        match self {
            ConfigField::ProjectType => "type",
            ConfigField::Language => "language",
        }
    }

    pub open spec fn spec_key(&self) -> Seq<char> {
        match self {
            ConfigField::ProjectType => "type"@,
            ConfigField::Language => "language"@,
        }
    }
}

impl Variant {
    /// The manifest section name of this variant, which is also its tag.
    pub fn section(&self) -> (r: &'static str)
        ensures
            r@ == self.spec_section(),
    {
        match self {
            Variant::Actor => "actor",
            Variant::Provider => "provider",
            Variant::Interface => "interface",
            Variant::Rust => "rust",
            Variant::TinyGo => "tinygo",
        }
    }

    pub open spec fn spec_section(&self) -> Seq<char> {
        match self {
            Variant::Actor => "actor"@,
            Variant::Provider => "provider"@,
            Variant::Interface => "interface"@,
            Variant::Rust => "rust"@,
            Variant::TinyGo => "tinygo"@,
        }
    }
}

} // verus!

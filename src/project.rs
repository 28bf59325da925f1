use vstd::prelude::*;
use crate::text::text_eq;
use crate::types::{
    ActorConfig, ConfigError, ConfigField, InterfaceConfig, LanguageConfig, ProviderConfig,
    RustConfig, TinyGoConfig, TypeConfig, Variant,
};
use crate::version::{parse_version, semver_of, SemVersion};

verus! {

/// A manifest as read from its sources, before validation: the discriminants
/// are plain strings and each variant's payload is present only where its
/// section was.
#[derive(Debug, PartialEq, Clone)]
pub struct RawProjectConfig {
    pub language: String,
    pub project_type: String,
    pub name: String,
    pub version: String,
    pub actor: Option<ActorConfig>,
    pub provider: Option<ProviderConfig>,
    pub rust: Option<RustConfig>,
    pub interface: Option<InterfaceConfig>,
    pub tinygo: Option<TinyGoConfig>,
}

/// A validated project configuration.
#[derive(Debug, PartialEq, Clone)]
pub struct ProjectConfig {
    pub language: LanguageConfig,
    pub project_type: TypeConfig,
    pub name: String,
    pub version: SemVersion,
}

/// The payload of the variant `variant`, or the error for its absent section.
pub open spec fn spec_require<T>(payload: Option<T>, variant: Variant) -> Result<T, ConfigError> {
    match payload {
        Some(p) => Ok(p),
        None => Err(ConfigError::MissingPayload { variant }),
    }
}

/// The project type that the tag `tag` selects among the given payloads.
pub open spec fn spec_resolve_project_type(
    tag: String,
    actor: Option<ActorConfig>,
    provider: Option<ProviderConfig>,
    interface: Option<InterfaceConfig>,
) -> Result<TypeConfig, ConfigError> {
    if tag@ == Variant::Actor.spec_section() {
        match spec_require(actor, Variant::Actor) {
            Ok(a) => Ok(TypeConfig::Actor(a)),
            Err(e) => Err(e),
        }
    } else if tag@ == Variant::Provider.spec_section() {
        match spec_require(provider, Variant::Provider) {
            Ok(p) => Ok(TypeConfig::Provider(p)),
            Err(e) => Err(e),
        }
    } else if tag@ == Variant::Interface.spec_section() {
        match spec_require(interface, Variant::Interface) {
            Ok(i) => Ok(TypeConfig::Interface(i)),
            Err(e) => Err(e),
        }
    } else {
        Err(ConfigError::UnknownDiscriminant { field: ConfigField::ProjectType, value: tag })
    }
}

/// The language that the tag `tag` selects among the given payloads.
pub open spec fn spec_resolve_language(
    tag: String,
    rust: Option<RustConfig>,
    tinygo: Option<TinyGoConfig>,
) -> Result<LanguageConfig, ConfigError> {
    if tag@ == Variant::Rust.spec_section() {
        match spec_require(rust, Variant::Rust) {
            Ok(r) => Ok(LanguageConfig::Rust(r)),
            Err(e) => Err(e),
        }
    } else if tag@ == Variant::TinyGo.spec_section() {
        match spec_require(tinygo, Variant::TinyGo) {
            Ok(t) => Ok(LanguageConfig::TinyGo(t)),
            Err(e) => Err(e),
        }
    } else {
        Err(ConfigError::UnknownDiscriminant { field: ConfigField::Language, value: tag })
    }
}

impl RawProjectConfig {
    pub open spec fn spec_project_type(&self) -> Result<TypeConfig, ConfigError> {
        spec_resolve_project_type(self.project_type, self.actor, self.provider, self.interface)
    }

    pub open spec fn spec_language(&self) -> Result<LanguageConfig, ConfigError> {
        spec_resolve_language(self.language, self.rust, self.tinygo)
    }
}

/// The configuration projected from `raw`, given the outcome `version` of
/// parsing its version. The project type is resolved first, then the
/// language, then the version; the first failure is the result.
pub open spec fn spec_project(
    raw: RawProjectConfig,
    version: Result<SemVersion, ConfigError>,
) -> Result<ProjectConfig, ConfigError> {
    match raw.spec_project_type() {
        Err(e) => Err(e),
        Ok(project_type) => match raw.spec_language() {
            Err(e) => Err(e),
            Ok(language) => match version {
                Err(e) => Err(e),
                Ok(version) => Ok(ProjectConfig { language, project_type, name: raw.name, version }),
            },
        },
    }
}

/// Hands out the payload of `variant`, failing where its section is absent.
fn require_payload<T>(payload: Option<T>, variant: Variant) -> (r: Result<T, ConfigError>)
    ensures
        r == spec_require(payload, variant),
{
    match payload {
        Some(p) => Ok(p),
        None => Err(ConfigError::MissingPayload { variant }),
    }
}

/// Resolves the project type: the tag must be one of `actor`, `provider` or
/// `interface` (compared case-sensitively), and the section that it names
/// must be present; its payload is then taken over unchanged.
pub fn resolve_project_type(
    tag: String,
    actor: Option<ActorConfig>,
    provider: Option<ProviderConfig>,
    interface: Option<InterfaceConfig>,
) -> (r: Result<TypeConfig, ConfigError>)
    ensures
        r == spec_resolve_project_type(tag, actor, provider, interface),
{
    if text_eq(tag.as_str(), Variant::Actor.section()) {
        match require_payload(actor, Variant::Actor) {
            Ok(a) => Ok(TypeConfig::Actor(a)),
            Err(e) => Err(e),
        }
    } else if text_eq(tag.as_str(), Variant::Provider.section()) {
        match require_payload(provider, Variant::Provider) {
            Ok(p) => Ok(TypeConfig::Provider(p)),
            Err(e) => Err(e),
        }
    } else if text_eq(tag.as_str(), Variant::Interface.section()) {
        match require_payload(interface, Variant::Interface) {
            Ok(i) => Ok(TypeConfig::Interface(i)),
            Err(e) => Err(e),
        }
    } else {
        Err(ConfigError::UnknownDiscriminant { field: ConfigField::ProjectType, value: tag })
    }
}

/// Resolves the language: the tag must be `rust` or `tinygo` (compared
/// case-sensitively), and the section that it names must be present; its
/// payload is then taken over unchanged.
pub fn resolve_language(
    tag: String,
    rust: Option<RustConfig>,
    tinygo: Option<TinyGoConfig>,
) -> (r: Result<LanguageConfig, ConfigError>)
    ensures
        r == spec_resolve_language(tag, rust, tinygo),
{
    if text_eq(tag.as_str(), Variant::Rust.section()) {
        match require_payload(rust, Variant::Rust) {
            Ok(c) => Ok(LanguageConfig::Rust(c)),
            Err(e) => Err(e),
        }
    } else if text_eq(tag.as_str(), Variant::TinyGo.section()) {
        match require_payload(tinygo, Variant::TinyGo) {
            Ok(c) => Ok(LanguageConfig::TinyGo(c)),
            Err(e) => Err(e),
        }
    } else {
        Err(ConfigError::UnknownDiscriminant { field: ConfigField::Language, value: tag })
    }
}

impl ProjectConfig {
    /// Projects `raw` into a validated configuration, given the outcome
    /// `version` of parsing its version text.
    pub fn project(raw: RawProjectConfig, version: Result<SemVersion, ConfigError>) -> (r: Result<
        ProjectConfig,
        ConfigError,
    >)
        ensures
            r == spec_project(raw, version),
    {
        let RawProjectConfig {
            language,
            project_type,
            name,
            version: _,
            actor,
            provider,
            rust,
            interface,
            tinygo,
        } = raw;
        let project_type = match resolve_project_type(project_type, actor, provider, interface) {
            Ok(t) => t,
            Err(e) => return Err(e),
        };
        let language = match resolve_language(language, rust, tinygo) {
            Ok(l) => l,
            Err(e) => return Err(e),
        };
        match version {
            Ok(version) => Ok(ProjectConfig { language, project_type, name, version }),
            Err(e) => Err(e),
        }
    }

    /// Validates `raw`: resolves its project type and its language, and
    /// parses its version.
    pub fn try_from(raw: RawProjectConfig) -> (r: Result<ProjectConfig, ConfigError>)
        ensures
            match raw.spec_project_type() {
                Err(e) => r == Err::<ProjectConfig, ConfigError>(e),
                Ok(project_type) => match raw.spec_language() {
                    Err(e) => r == Err::<ProjectConfig, ConfigError>(e),
                    Ok(language) => match semver_of(raw.version@) {
                        None => r == Err::<ProjectConfig, ConfigError>(
                            ConfigError::VersionParse { value: raw.version },
                        ),
                        Some(m) => r matches Ok(c) && c.language == language && c.project_type
                            == project_type && c.name == raw.name && c.version@ == m,
                    },
                },
            },
    {
        let version = parse_version(raw.version.clone());
        ProjectConfig::project(raw, version)
    }
}

} // verus!

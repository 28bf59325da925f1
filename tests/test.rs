use wasmcloud_config::{
    parse_version, resolve_language, resolve_project_type, ActorConfig, ConfigError, ConfigField,
    InterfaceConfig, LanguageConfig, ProjectConfig, ProviderConfig, RawProjectConfig, RustConfig,
    SemVersion, TinyGoConfig, TypeConfig, Variant,
};

fn fixture_actor() -> ActorConfig {
    ActorConfig {
        claims: Some(vec!["wasmcloud:httpserver".to_string()]),
        registry: Some("localhost:8080".to_string()),
        push_insecure: false,
        key_directory: Some("./keys".to_string()),
        filename: Some("testactor.wasm".to_string()),
        wasm_type: Some("wasm32-unknown-unknown".to_string()),
    }
}

/// The manifest of the project fixture, as its sources deliver it.
fn fixture_raw() -> RawProjectConfig {
    RawProjectConfig {
        language: "rust".to_string(),
        project_type: "actor".to_string(),
        name: "testactor".to_string(),
        version: "0.1.0".to_string(),
        actor: Some(fixture_actor()),
        provider: None,
        rust: Some(RustConfig {
            cargo_path: Some("./cargo".to_string()),
            target_path: Some("./target".to_string()),
        }),
        interface: None,
        tinygo: None,
    }
}

#[test]
fn basic_test() {
    let result = ProjectConfig::try_from(fixture_raw());

    assert!(result.is_ok());

    let config = result.unwrap();

    assert_eq!(
        config.language,
        LanguageConfig::Rust(RustConfig {
            cargo_path: Some("./cargo".into()),
            target_path: Some("./target".into())
        })
    );

    assert_eq!(
        config.project_type,
        TypeConfig::Actor(ActorConfig {
            claims: Some(vec!["wasmcloud:httpserver".to_string()]),
            registry: Some("localhost:8080".to_string()),
            push_insecure: false,
            key_directory: Some("./keys".to_string()),
            filename: Some("testactor.wasm".to_string()),
            wasm_type: Some("wasm32-unknown-unknown".to_string()),
        })
    );

    assert_eq!(config.name, "testactor".to_string());
    assert_eq!(config.version, parse_version("0.1.0".to_string()).unwrap());
}

#[test]
fn actor_section_copied_verbatim() {
    let r = resolve_project_type("actor".to_string(), Some(fixture_actor()), None, None);
    assert_eq!(r, Ok(TypeConfig::Actor(fixture_actor())));
}

#[test]
fn unknown_project_type_rejected() {
    let r = resolve_project_type(
        "library".to_string(),
        Some(fixture_actor()),
        None,
        Some(InterfaceConfig {}),
    );
    assert_eq!(
        r,
        Err(ConfigError::UnknownDiscriminant {
            field: ConfigField::ProjectType,
            value: "library".to_string()
        })
    );
}

#[test]
fn project_type_tag_is_case_sensitive() {
    let mut raw = fixture_raw();
    raw.project_type = "Actor".to_string();
    assert_eq!(
        ProjectConfig::try_from(raw),
        Err(ConfigError::UnknownDiscriminant {
            field: ConfigField::ProjectType,
            value: "Actor".to_string()
        })
    );
}

#[test]
fn provider_without_section_rejected() {
    let mut raw = fixture_raw();
    raw.project_type = "provider".to_string();
    assert_eq!(
        ProjectConfig::try_from(raw),
        Err(ConfigError::MissingPayload { variant: Variant::Provider })
    );
}

#[test]
fn provider_with_section_resolves() {
    let provider = ProviderConfig {
        capability_id: "wasmcloud:keyvalue".to_string(),
        vendor: Some("acme".to_string()),
    };
    let r = resolve_project_type("provider".to_string(), None, Some(provider.clone()), None);
    assert_eq!(r, Ok(TypeConfig::Provider(provider)));
}

#[test]
fn interface_without_section_rejected() {
    let r = resolve_project_type("interface".to_string(), Some(fixture_actor()), None, None);
    assert_eq!(r, Err(ConfigError::MissingPayload { variant: Variant::Interface }));
}

#[test]
fn interface_with_section_resolves() {
    let r = resolve_project_type("interface".to_string(), None, None, Some(InterfaceConfig {}));
    assert_eq!(r, Ok(TypeConfig::Interface(InterfaceConfig {})));
}

#[test]
fn rust_section_round_trips() {
    let r = resolve_language(
        "rust".to_string(),
        Some(RustConfig {
            cargo_path: Some("./cargo".to_string()),
            target_path: Some("./target".to_string()),
        }),
        None,
    );
    assert_eq!(
        r,
        Ok(LanguageConfig::Rust(RustConfig {
            cargo_path: Some("./cargo".to_string()),
            target_path: Some("./target".to_string()),
        }))
    );
}

#[test]
fn tinygo_language_resolves() {
    let r = resolve_language("tinygo".to_string(), None, Some(TinyGoConfig {}));
    assert_eq!(r, Ok(LanguageConfig::TinyGo(TinyGoConfig {})));
}

#[test]
fn tinygo_without_section_rejected() {
    let mut raw = fixture_raw();
    raw.language = "tinygo".to_string();
    assert_eq!(
        ProjectConfig::try_from(raw),
        Err(ConfigError::MissingPayload { variant: Variant::TinyGo })
    );
}

#[test]
fn unknown_language_rejected() {
    let mut raw = fixture_raw();
    raw.language = "zig".to_string();
    assert_eq!(
        ProjectConfig::try_from(raw),
        Err(ConfigError::UnknownDiscriminant {
            field: ConfigField::Language,
            value: "zig".to_string()
        })
    );
}

#[test]
fn project_type_checked_before_language() {
    let mut raw = fixture_raw();
    raw.language = "zig".to_string();
    raw.project_type = "provider".to_string();
    assert_eq!(
        ProjectConfig::try_from(raw),
        Err(ConfigError::MissingPayload { variant: Variant::Provider })
    );
}

#[test]
fn version_components_parsed() {
    let v = parse_version("0.1.0".to_string()).unwrap();
    assert_eq!(v.major, 0);
    assert_eq!(v.minor, 1);
    assert_eq!(v.patch, 0);
    assert_eq!(v.pre, "");
    assert_eq!(v.build, "");
    assert_eq!(v, SemVersion::new(0, 1, 0));
}

#[test]
fn version_with_pre_release_and_build() {
    let v = parse_version("1.2.3-alpha.1+build.5".to_string()).unwrap();
    assert_eq!((v.major, v.minor, v.patch), (1, 2, 3));
    assert_eq!(v.pre, "alpha.1");
    assert_eq!(v.build, "build.5");
}

#[test]
fn invalid_version_rejected() {
    assert_eq!(
        parse_version("abc".to_string()),
        Err(ConfigError::VersionParse { value: "abc".to_string() })
    );
    assert_eq!(
        parse_version(String::new()),
        Err(ConfigError::VersionParse { value: String::new() })
    );
}

#[test]
fn invalid_version_fails_load() {
    let mut raw = fixture_raw();
    raw.version = "abc".to_string();
    assert_eq!(
        ProjectConfig::try_from(raw),
        Err(ConfigError::VersionParse { value: "abc".to_string() })
    );
}

#[test]
fn project_takes_version_outcome() {
    let v = SemVersion::new(2, 0, 7);
    let c = ProjectConfig::project(fixture_raw(), Ok(v.clone())).unwrap();
    assert_eq!(c.version, v);
    assert_eq!(c.name, "testactor");
    let e = ConfigError::VersionParse { value: "x".to_string() };
    assert_eq!(ProjectConfig::project(fixture_raw(), Err(e.clone())), Err(e));
}

#[test]
fn field_and_section_names() {
    assert_eq!(ConfigField::ProjectType.key(), "type");
    assert_eq!(ConfigField::Language.key(), "language");
    assert_eq!(Variant::TinyGo.section(), "tinygo");
    assert_eq!(Variant::Provider.section(), "provider");
}

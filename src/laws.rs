use vstd::prelude::*;
use crate::project::{spec_project, ProjectConfig, RawProjectConfig};
use crate::types::{ActorConfig, ConfigError, ConfigField, TypeConfig, Variant};
use crate::version::SemVersion;

verus! {

/// A manifest of type `actor` that has an `actor` section resolves to the
/// `Actor` variant holding that section's fields unchanged, and every
/// configuration projected from it has that project type.
pub proof fn actor_section_is_taken_over(
    raw: RawProjectConfig,
    actor: ActorConfig,
    version: Result<SemVersion, ConfigError>,
)
    requires
        raw.project_type@ == "actor"@,
        raw.actor == Some(actor),
    ensures
        raw.spec_project_type() == Ok::<TypeConfig, ConfigError>(TypeConfig::Actor(actor)),
        spec_project(raw, version) matches Ok(c) ==> c.project_type == TypeConfig::Actor(actor),
{
}

/// A manifest whose `type` is none of `actor`, `provider` and `interface`
/// is rejected with an unknown-discriminant error that carries the tag.
pub proof fn unknown_project_type_is_rejected(
    raw: RawProjectConfig,
    version: Result<SemVersion, ConfigError>,
)
    requires
        raw.project_type@ != "actor"@,
        raw.project_type@ != "provider"@,
        raw.project_type@ != "interface"@,
    ensures
        raw.spec_project_type() == Err::<TypeConfig, ConfigError>(
            ConfigError::UnknownDiscriminant {
                field: ConfigField::ProjectType,
                value: raw.project_type,
            },
        ),
        spec_project(raw, version) == Err::<ProjectConfig, ConfigError>(
            ConfigError::UnknownDiscriminant {
                field: ConfigField::ProjectType,
                value: raw.project_type,
            },
        ),
{
}

/// A manifest of type `provider` without a `provider` section is rejected
/// with a missing-payload error naming the provider variant.
pub proof fn provider_without_section_is_rejected(
    raw: RawProjectConfig,
    version: Result<SemVersion, ConfigError>,
)
    requires
        raw.project_type@ == "provider"@,
        raw.provider is None,
    ensures
        raw.spec_project_type() == Err::<TypeConfig, ConfigError>(
            ConfigError::MissingPayload { variant: Variant::Provider },
        ),
        spec_project(raw, version) == Err::<ProjectConfig, ConfigError>(
            ConfigError::MissingPayload { variant: Variant::Provider },
        ),
{
    reveal_strlit("actor");
    reveal_strlit("provider");
    assert("actor"@[0] != "provider"@[0]);
}

} // verus!

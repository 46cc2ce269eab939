use vstd::prelude::*;
use vstd::string::*;

verus! {

/// The federation version that composition is stamped with. An exact version
/// is held in its textual form, such as `2.3.4`.
#[derive(Debug, PartialEq, Eq)]
pub enum FederationVersion {
    LatestFedOne,
    LatestFedTwo,
    ExactFedOne(String),
    ExactFedTwo(String),
}

/// The mathematical content of a federation version.
pub enum FederationVersionView {
    LatestFedOne,
    LatestFedTwo,
    ExactFedOne(Seq<char>),
    ExactFedTwo(Seq<char>),
}

impl View for FederationVersion {
    type V = FederationVersionView;

    open spec fn view(&self) -> FederationVersionView {
        match *self {
            FederationVersion::LatestFedOne => FederationVersionView::LatestFedOne,
            FederationVersion::LatestFedTwo => FederationVersionView::LatestFedTwo,
            FederationVersion::ExactFedOne(v) => FederationVersionView::ExactFedOne(v@),
            FederationVersion::ExactFedTwo(v) => FederationVersionView::ExactFedTwo(v@),
        }
    }
}

impl Clone for FederationVersion {
    fn clone(&self) -> (copy: FederationVersion)
        ensures
            copy@ == self@,
    {
        match self {
            FederationVersion::LatestFedOne => FederationVersion::LatestFedOne,
            FederationVersion::LatestFedTwo => FederationVersion::LatestFedTwo,
            FederationVersion::ExactFedOne(v) => FederationVersion::ExactFedOne(v.clone()),
            FederationVersion::ExactFedTwo(v) => FederationVersion::ExactFedTwo(v.clone()),
        }
    }
}

#[verifier::external_type_specification]
#[verifier::external_body]
pub struct ExConfigError(apollo_federation_types::config::ConfigError);

/// What `apollo_federation_types::config::FederationVersion::from_str` makes
/// of a text: the version it accepts, or `None` where it rejects the text.
pub uninterp spec fn parsed_federation_version(input: Seq<char>) -> Option<FederationVersionView>;

/// Calls `apollo_federation_types::config::FederationVersion::from_str`.
/// Trusted: the result is the named parse of `input`, with an exact version
/// carried over in its textual form, and the crate's error where it rejects.
#[verifier::external_body]
fn parse_federation_version(input: &str) -> (parsed: Result<
    FederationVersion,
    apollo_federation_types::config::ConfigError,
>)
    ensures
        match parsed {
            Ok(version) => parsed_federation_version(input@) == Some(version@),
            Err(_) => parsed_federation_version(input@).is_none(),
        },
{
    match input.parse::<apollo_federation_types::config::FederationVersion>() {
        Ok(apollo_federation_types::config::FederationVersion::LatestFedOne) => Ok(FederationVersion::LatestFedOne),
        Ok(apollo_federation_types::config::FederationVersion::LatestFedTwo) => Ok(FederationVersion::LatestFedTwo),
        Ok(apollo_federation_types::config::FederationVersion::ExactFedOne(v)) => Ok(FederationVersion::ExactFedOne(v.to_string())),
        Ok(apollo_federation_types::config::FederationVersion::ExactFedTwo(v)) => Ok(FederationVersion::ExactFedTwo(v.to_string())),
        Err(e) => Err(e),
    }
}

/// The precedence among the sources of a federation version: the override
/// from the environment where it was accepted, else the supergraph
/// configuration's, else the latest of federation 2.
pub open spec fn resolved_version(
    from_env: Option<FederationVersionView>,
    from_config: Option<FederationVersionView>,
) -> FederationVersionView {
    match from_env {
        Some(version) => version,
        None => match from_config {
            Some(version) => version,
            None => FederationVersionView::LatestFedTwo,
        },
    }
}

/// Where the resolved federation version came from.
#[derive(Debug, Clone, Copy, PartialEq, Eq, Structural)]
pub enum VersionSource {
    Environment,
    Config,
    Fallback,
}

/// The source that `resolved_version` takes its result from.
pub open spec fn resolved_source(env_accepted: bool, config_present: bool) -> VersionSource {
    if env_accepted {
        VersionSource::Environment
    } else if config_present {
        VersionSource::Config
    } else {
        VersionSource::Fallback
    }
}

/// Applies the precedence to an already parsed environment override and the
/// configuration's version, and tells which source won. On `Fallback` the
/// caller owes the user a warning that no version was found.
pub fn resolve_federation_version(
    from_env: Option<FederationVersion>,
    from_config: Option<FederationVersion>,
) -> (resolved: (FederationVersion, VersionSource))
    ensures
        resolved.0@ == resolved_version(
            match from_env {
                Some(v) => Some(v@),
                None => None,
            },
            match from_config {
                Some(v) => Some(v@),
                None => None,
            },
        ),
        resolved.1 == resolved_source(from_env.is_some(), from_config.is_some()),
{
    match from_env {
        Some(version) => (version, VersionSource::Environment),
        None => match from_config {
            Some(version) => (version, VersionSource::Config),
            None => (FederationVersion::LatestFedTwo, VersionSource::Fallback),
        },
    }
}

/// The text that is parsed for an override `version`: the version behind an
/// equals sign, which asks for exactly that version.
pub open spec fn exact_request(version: Seq<char>) -> Seq<char> {
    "="@ + version
}

/// What the environment override contributes: its parse as an exact version,
/// or nothing where there is no override or it is rejected.
pub open spec fn env_contribution(env_var: Option<Seq<char>>) -> Option<FederationVersionView> {
    match env_var {
        Some(version) => parsed_federation_version(exact_request(version)),
        None => None,
    }
}

/// Parses the environment override as an exact version; `None` where it is
/// absent or rejected.
pub fn parse_env_override(env_var: Option<String>) -> (parsed: Option<FederationVersion>)
    ensures
        (match parsed {
            Some(v) => Some(v@),
            None => None,
        }) == env_contribution(
            match env_var {
                Some(v) => Some(v@),
                None => None,
            },
        ),
{
    match env_var {
        Some(version) => {
            let mut input = String::from_str("=");
            input.append(version.as_str());
            match parse_federation_version(input.as_str()) {
                Ok(v) => Some(v),
                Err(_) => None,
            }
        },
        None => None,
    }
}

/// What the user is warned of when the federation version is worked out.
#[derive(Debug, Clone, Copy, PartialEq, Eq, Structural)]
pub struct VersionWarnings {
    /// The environment override was there and was rejected: the
    /// configuration is looked at next.
    pub env_override_rejected: bool,
    /// Neither source gave a version: the latest of federation 2 is used.
    pub no_version_found: bool,
}

/// The warnings that go with `resolved_version`.
pub open spec fn resolution_warnings(
    env_var: Option<Seq<char>>,
    config_present: bool,
) -> VersionWarnings {
    VersionWarnings {
        env_override_rejected: env_var is Some && env_contribution(env_var) is None,
        no_version_found: env_contribution(env_var) is None && !config_present,
    }
}

/// Works out the federation version as `get_federation_version` does, and
/// tells what the user is to be warned of.
pub fn get_federation_version_with_warnings(
    sc_config_version: Option<FederationVersion>,
    env_var: Option<String>,
) -> (resolved: (FederationVersion, VersionWarnings))
    ensures
        resolved.0@ == resolved_version(
            env_contribution(
                match env_var {
                    Some(v) => Some(v@),
                    None => None,
                },
            ),
            match sc_config_version {
                Some(v) => Some(v@),
                None => None,
            },
        ),
        resolved.1 == resolution_warnings(
            match env_var {
                Some(v) => Some(v@),
                None => None,
            },
            sc_config_version.is_some(),
        ),
{
    let env_given = env_var.is_some();
    let from_env = parse_env_override(env_var);
    let env_override_rejected = env_given && from_env.is_none();
    let (version, source) = resolve_federation_version(from_env, sc_config_version);
    (
        version,
        VersionWarnings { env_override_rejected, no_version_found: source == VersionSource::Fallback },
    )
}

/// Works out the federation version from the configuration's value and the
/// environment override, the override first.
pub fn get_federation_version(
    sc_config_version: Option<FederationVersion>,
    env_var: Option<String>,
) -> (version: FederationVersion)
    ensures
        version@ == resolved_version(
            env_contribution(
                match env_var {
                    Some(v) => Some(v@),
                    None => None,
                },
            ),
            match sc_config_version {
                Some(v) => Some(v@),
                None => None,
            },
        ),
{
    get_federation_version_with_warnings(sc_config_version, env_var).0
}

} // verus!

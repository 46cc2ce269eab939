use rover_dev::version::{
    get_federation_version, get_federation_version_with_warnings, parse_env_override,
    resolve_federation_version, FederationVersion, VersionSource, VersionWarnings,
};

fn two(v: &str) -> FederationVersion {
    FederationVersion::ExactFedTwo(v.to_string())
}

fn one(v: &str) -> FederationVersion {
    FederationVersion::ExactFedOne(v.to_string())
}

#[test]
fn env_var_no_yaml_fed_two() {
    assert_eq!(get_federation_version(None, Some("2.3.4".to_string())), two("2.3.4"));
}

#[test]
fn env_var_no_yaml_fed_one() {
    assert_eq!(get_federation_version(None, Some("0.40.0".to_string())), one("0.40.0"));
}

#[test]
fn env_var_no_yaml_unsupported_fed_version() {
    assert_eq!(
        get_federation_version(None, Some("1.0.1".to_string())),
        FederationVersion::LatestFedTwo
    );
}

#[test]
fn nonsense_env_var_no_yaml() {
    assert_eq!(
        get_federation_version(None, Some("crackers".to_string())),
        FederationVersion::LatestFedTwo
    );
}

#[test]
fn env_var_with_yaml_fed_two() {
    assert_eq!(
        get_federation_version(Some(two("2.3.4")), Some("2.3.4".to_string())),
        two("2.3.4")
    );
}

#[test]
fn env_var_with_yaml_fed_one() {
    assert_eq!(
        get_federation_version(Some(two("2.3.5")), Some("0.50.0".to_string())),
        one("0.50.0")
    );
}

#[test]
fn nonsense_env_var_with_yaml() {
    assert_eq!(get_federation_version(Some(two("2.3.5")), Some("cheese".to_string())), two("2.3.5"));
}

#[test]
fn yaml_no_env_var_fed_two() {
    assert_eq!(get_federation_version(Some(two("2.3.5")), None), two("2.3.5"));
}

#[test]
fn yaml_no_env_var_fed_one() {
    assert_eq!(get_federation_version(Some(one("0.69.0")), None), one("0.69.0"));
}

#[test]
fn nothing_grabs_latest() {
    assert_eq!(get_federation_version(None, None), FederationVersion::LatestFedTwo);
}

#[test]
fn empty_env_var_is_rejected() {
    assert_eq!(parse_env_override(Some(String::new())), None);
    assert_eq!(parse_env_override(None), None);
}

#[test]
fn env_override_keeps_prerelease_text() {
    assert_eq!(
        parse_env_override(Some("2.0.0-preview.9".to_string())),
        Some(two("2.0.0-preview.9"))
    );
    assert_eq!(parse_env_override(Some("2.0.0-preview.8".to_string())), None);
    assert_eq!(parse_env_override(Some("0.35.0".to_string())), None);
}

#[test]
fn resolution_tells_its_source() {
    assert_eq!(
        resolve_federation_version(Some(two("2.1.0")), Some(one("0.36.0"))),
        (two("2.1.0"), VersionSource::Environment)
    );
    assert_eq!(
        resolve_federation_version(None, Some(FederationVersion::LatestFedOne)),
        (FederationVersion::LatestFedOne, VersionSource::Config)
    );
    assert_eq!(
        resolve_federation_version(None, None),
        (FederationVersion::LatestFedTwo, VersionSource::Fallback)
    );
}

#[test]
fn federation_version_respects_precedence_order() {
    let cases: Vec<(Option<&str>, Option<FederationVersion>, FederationVersion)> = vec![
        (Some("2.3.4"), None, two("2.3.4")),
        (Some("0.40.0"), None, one("0.40.0")),
        (Some("1.0.1"), None, FederationVersion::LatestFedTwo),
        (Some("crackers"), None, FederationVersion::LatestFedTwo),
        (Some("2.3.4"), Some(two("2.3.4")), two("2.3.4")),
        (Some("0.50.0"), Some(two("2.3.5")), one("0.50.0")),
        (Some("cheese"), Some(two("2.3.5")), two("2.3.5")),
        (None, Some(two("2.3.5")), two("2.3.5")),
        (None, Some(one("0.69.0")), one("0.69.0")),
        (None, None, FederationVersion::LatestFedTwo),
    ];
    for (env_var_value, config_value, expected_value) in cases {
        let res = get_federation_version(config_value, env_var_value.map(str::to_string));
        assert_eq!(res, expected_value);
    }
}

#[test]
fn rejected_override_and_missing_version_are_warned_of() {
    assert_eq!(
        get_federation_version_with_warnings(None, Some("crackers".to_string())),
        (
            FederationVersion::LatestFedTwo,
            VersionWarnings { env_override_rejected: true, no_version_found: true }
        )
    );
    assert_eq!(
        get_federation_version_with_warnings(Some(two("2.3.5")), Some("cheese".to_string())),
        (two("2.3.5"), VersionWarnings { env_override_rejected: true, no_version_found: false })
    );
    assert_eq!(
        get_federation_version_with_warnings(None, None),
        (
            FederationVersion::LatestFedTwo,
            VersionWarnings { env_override_rejected: false, no_version_found: true }
        )
    );
    assert_eq!(
        get_federation_version_with_warnings(None, Some("2.3.4".to_string())),
        (two("2.3.4"), VersionWarnings { env_override_rejected: false, no_version_found: false })
    );
}

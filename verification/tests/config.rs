use geocode_broker::config::{
    config_from_value, load_config_from, validate, ApiConfig, ConfigError, ProviderKind,
    DEFAULT_OPACITY,
};

fn initial() -> ApiConfig {
    ApiConfig {
        provider: ProviderKind::Custom,
        custom_url: String::new(),
        google_api_key: String::new(),
        goong_api_key: String::new(),
        confirm_results: false,
        opacity: 0.8f64.to_bits(),
    }
}

#[test]
fn the_initial_configuration_has_no_template_and_opacity_eight_tenths() {
    assert_eq!(ApiConfig::default(), initial());
    assert_eq!(DEFAULT_OPACITY, 0.8f64.to_bits());
}

#[test]
fn a_missing_file_gives_the_initial_configuration() {
    assert_eq!(load_config_from(None), initial());
}

#[test]
fn a_corrupt_file_gives_the_initial_configuration() {
    for text in [
        "",
        "not json",
        "[]",
        r#"{"custom_url":"http://x"}"#,
        r#"{"opacity":0.5}"#,
        r#"{"custom_url":5,"opacity":0.5}"#,
        r#"{"custom_url":"http://x","opacity":"0.5"}"#,
        r#"{"custom_url":"http://x","opacity":0.5,"provider":"bing"}"#,
        r#"{"custom_url":"http://x","opacity":0.5,"provider":3}"#,
        r#"{"custom_url":"http://x","opacity":0.5,"google_api_key":1}"#,
        r#"{"custom_url":"http://x","opacity":0.5,"goong_api_key":[]}"#,
        r#"{"custom_url":"http://x","opacity":0.5,"confirm_results":"yes"}"#,
    ] {
        assert_eq!(load_config_from(Some(text)), initial(), "{}", text);
    }
}

#[test]
fn a_file_with_template_and_opacity_is_enough() {
    assert_eq!(
        load_config_from(Some(r#"{"custom_url":"http://x/{lat}/{lng}","opacity":0.5}"#)),
        ApiConfig {
            custom_url: "http://x/{lat}/{lng}".to_string(),
            opacity: 0.5f64.to_bits(),
            ..initial()
        }
    );
}

#[test]
fn a_full_file_is_read_member_by_member() {
    let text = r#"{"custom_url":"","opacity":1,"provider":"goong","google_api_key":"g",
        "goong_api_key":"n","confirm_results":true,"unknown":[1,2]}"#;
    let expected = ApiConfig {
        provider: ProviderKind::Goong,
        custom_url: String::new(),
        google_api_key: "g".to_string(),
        goong_api_key: "n".to_string(),
        confirm_results: true,
        opacity: 1.0f64.to_bits(),
    };
    assert_eq!(load_config_from(Some(text)), expected);
    assert_eq!(config_from_value(&serde_json::from_str(text).unwrap()), Some(expected));
}

#[test]
fn members_that_are_null_count_as_missing() {
    let text = r#"{"custom_url":"u","opacity":0.25,"provider":null,"google_api_key":null,
        "goong_api_key":null,"confirm_results":null}"#;
    assert_eq!(
        load_config_from(Some(text)),
        ApiConfig { custom_url: "u".to_string(), opacity: 0.25f64.to_bits(), ..initial() }
    );
}

#[test]
fn provider_tags_round_trip() {
    for kind in [ProviderKind::Custom, ProviderKind::Google, ProviderKind::Goong] {
        assert_eq!(ProviderKind::from_tag(kind.tag()), Some(kind));
    }
    assert_eq!(ProviderKind::Custom.tag(), "custom");
    assert_eq!(ProviderKind::Google.tag(), "google");
    assert_eq!(ProviderKind::Goong.tag(), "goong");
    assert_eq!(ProviderKind::from_tag("Google"), None);
    assert_eq!(ProviderKind::from_tag(""), None);
}

#[test]
fn a_custom_template_must_name_latitude_and_longitude() {
    let with = |url: &str| ApiConfig { custom_url: url.to_string(), ..initial() };
    assert_eq!(validate(&with("")), Ok(()));
    assert_eq!(validate(&with("http://x?a={lat}&b={lng}")), Ok(()));
    assert_eq!(validate(&with("http://x?a={lat}&b={long}")), Ok(()));
    assert_eq!(validate(&with("{long}{lat}")), Ok(()));
    assert_eq!(validate(&with("http://x?b={lng}")), Err(ConfigError::LatitudePlaceholderMissing));
    assert_eq!(validate(&with("http://x")), Err(ConfigError::LatitudePlaceholderMissing));
    assert_eq!(validate(&with("http://x?a={lat}")), Err(ConfigError::LongitudePlaceholderMissing));
    assert_eq!(validate(&with("http://x?a={lat}&b={lon}")), Err(ConfigError::LongitudePlaceholderMissing));
}

#[test]
fn the_template_of_another_provider_is_not_checked() {
    let config = ApiConfig {
        provider: ProviderKind::Google,
        custom_url: "no placeholders".to_string(),
        ..initial()
    };
    assert_eq!(validate(&config), Ok(()));
}

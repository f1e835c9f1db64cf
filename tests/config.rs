use six_degrees_backend::six_degrees_config::{
    resolve_config, ConfigError, ConfigLayer, Setting, SixDegreesConfig, BASE_URL_V3,
};

fn given(s: &str) -> Option<Setting> {
    Some(Setting::Given(s.to_string()))
}

fn layer(base_url: Option<Setting>, api_token: Option<Setting>) -> ConfigLayer {
    ConfigLayer { base_url, api_token }
}

#[test]
fn default_config_points_at_api_root() {
    let c = SixDegreesConfig::default();
    assert_eq!(c.base_url, "https://api.themoviedb.org/3");
    assert_eq!(c.base_url, BASE_URL_V3);
    assert_eq!(c.api_token, "");
    assert!(!c.has_token());
}

#[test]
fn no_layers_leave_defaults() {
    let e = ConfigLayer::empty();
    let c = resolve_config(&e, &e, &e).unwrap();
    assert!(c == SixDegreesConfig::default());
}

#[test]
fn file_wins_over_default() {
    let file = layer(given("https://file.test/3"), given("from-file"));
    let e = ConfigLayer::empty();
    let c = resolve_config(&file, &e, &e).unwrap();
    assert_eq!(c.base_url, "https://file.test/3");
    assert_eq!(c.api_token, "from-file");
    assert!(c.has_token());
}

#[test]
fn environment_wins_over_file_field_by_field() {
    let file = layer(given("https://file.test/3"), given("from-file"));
    let token_env = layer(None, given("from-env"));
    let e = ConfigLayer::empty();
    let c = resolve_config(&file, &token_env, &e).unwrap();
    assert_eq!(c.base_url, "https://file.test/3");
    assert_eq!(c.api_token, "from-env");
}

#[test]
fn service_namespace_wins_over_token_namespace() {
    let e = ConfigLayer::empty();
    let token_env = layer(given("https://tmdb.test/3"), given("tmdb-token"));
    let service_env = layer(given("https://service.test/3"), None);
    let c = resolve_config(&e, &token_env, &service_env).unwrap();
    assert_eq!(c.base_url, "https://service.test/3");
    assert_eq!(c.api_token, "tmdb-token");
}

#[test]
fn malformed_value_that_wins_is_an_error() {
    let e = ConfigLayer::empty();
    let file = layer(Some(Setting::Malformed), given("t"));
    assert_eq!(resolve_config(&file, &e, &e).err(), Some(ConfigError::MalformedBaseUrl));
    let token_env = layer(None, Some(Setting::Malformed));
    assert_eq!(resolve_config(&e, &token_env, &e).err(), Some(ConfigError::MalformedApiToken));
}

#[test]
fn malformed_value_that_is_overridden_is_ignored() {
    let file = layer(Some(Setting::Malformed), Some(Setting::Malformed));
    let token_env = layer(None, given("env-token"));
    let service_env = layer(given("https://service.test/3"), None);
    let c = resolve_config(&file, &token_env, &service_env).unwrap();
    assert_eq!(c.base_url, "https://service.test/3");
    assert_eq!(c.api_token, "env-token");
}

#[test]
fn layer_under_keeps_lower_fields() {
    let low = layer(given("low-url"), given("low-token"));
    let high = layer(None, given("high-token"));
    let m = low.under(&high);
    assert!(matches!(m.base_url, Some(Setting::Given(ref s)) if s == "low-url"));
    assert!(matches!(m.api_token, Some(Setting::Given(ref s)) if s == "high-token"));
}

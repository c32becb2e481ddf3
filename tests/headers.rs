use plex_api::{
    base_headers, can_build_headers, configured_client_identifier, headers_with_client_identifier,
    is_header_value_text, Environment, Identification, DEFAULT_PRODUCT, DEFAULT_PROVIDES,
    DEFAULT_VERSION, SYNC_VERSION,
};
use reqwest::header::HeaderMap;

const REQUIRED: [&str; 9] = [
    "x-plex-provides",
    "x-plex-product",
    "x-plex-version",
    "x-plex-sync-version",
    "x-plex-platform",
    "x-plex-platform-version",
    "x-plex-client-identifier",
    "x-plex-device",
    "x-plex-device-name",
];

fn machine() -> Environment {
    Environment {
        package_name: Some("plex-api".to_string()),
        package_version: Some("0.1.0".to_string()),
        sysname: "Linux".to_string(),
        release: "6.1.0".to_string(),
        nodename: "media-box".to_string(),
        client_identifier: None,
    }
}

fn value(headers: &HeaderMap, key: &str) -> String {
    headers.get(key).unwrap().to_str().unwrap().to_string()
}

fn is_random_identifier(s: &str) -> bool {
    let b = s.as_bytes();
    b.len() == 36
        && b.iter().enumerate().all(|(i, c)| {
            if i == 8 || i == 13 || i == 18 || i == 23 {
                *c == b'-'
            } else {
                c.is_ascii_digit() || (b'a'..=b'f').contains(c)
            }
        })
        && b[14] == b'4'
        && matches!(b[19], b'8' | b'9' | b'a' | b'b')
}

#[test]
fn base_headers_contains_required_headers() {
    let id = Identification::new();
    let env = machine();
    assert!(can_build_headers(&id, &env));
    let (headers, _) = base_headers(&id, &env);
    assert_eq!(true, headers.contains_key("x-plex-provides"));
    assert_eq!(true, headers.contains_key("x-plex-product"));
    assert_eq!(true, headers.contains_key("x-plex-version"));
    assert_eq!(true, headers.contains_key("x-plex-sync-version"));
    assert_eq!(true, headers.contains_key("x-plex-platform"));
    assert_eq!(true, headers.contains_key("x-plex-platform-version"));
    assert_eq!(true, headers.contains_key("x-plex-client-identifier"));
    assert_eq!(true, headers.contains_key("x-plex-device"));
    assert_eq!(true, headers.contains_key("x-plex-device-name"));
}

#[test]
fn base_headers_use_provided_values() {
    let mut id = Identification::new();
    id.provides = "plex_provides".to_string();
    id.platform = "plex_platform".to_string();
    id.platform_version = "plex_platform_version".to_string();
    id.product = "plex_product".to_string();
    id.version = "plex_version".to_string();
    id.device = "plex_device".to_string();
    id.device_name = "plex_device_name".to_string();
    id.client_identifier = "plex_client_identifier".to_string();
    let env = machine();

    let (headers, generated) = base_headers(&id, &env);

    assert_eq!(generated, None);
    assert_eq!(id.provides, value(&headers, "x-plex-provides"));
    assert_eq!(id.product, value(&headers, "x-plex-product"));
    assert_eq!(id.version, value(&headers, "x-plex-version"));
    assert_eq!(SYNC_VERSION, value(&headers, "x-plex-sync-version"));
    assert_eq!(id.platform, value(&headers, "x-plex-platform"));
    assert_eq!(id.platform_version, value(&headers, "x-plex-platform-version"));
    assert_eq!(id.client_identifier, value(&headers, "x-plex-client-identifier"));
    assert_eq!(id.device, value(&headers, "x-plex-device"));
    assert_eq!(id.device_name, value(&headers, "x-plex-device-name"));
}

#[test]
fn every_configuration_yields_nine_headers() {
    let mut id = Identification::new();
    id.platform = "Plex Home Theater".to_string();
    id.device_name = "living room".to_string();
    let mut env = machine();
    env.package_name = None;
    env.client_identifier = Some("from-env".to_string());
    let (headers, _) = base_headers(&id, &env);
    assert_eq!(headers.len(), 9);
    for key in REQUIRED {
        assert!(headers.contains_key(key), "{key}");
    }
}

#[test]
fn unconfigured_values_fall_back() {
    let id = Identification::new();
    let mut env = machine();
    env.client_identifier = Some("env-client".to_string());
    let (headers, generated) = base_headers(&id, &env);
    assert_eq!(generated, None);
    assert_eq!(value(&headers, "x-plex-provides"), "controller");
    assert_eq!(value(&headers, "x-plex-product"), "plex-api");
    assert_eq!(value(&headers, "x-plex-version"), "0.1.0");
    assert_eq!(value(&headers, "x-plex-sync-version"), "2");
    assert_eq!(value(&headers, "x-plex-platform"), "Linux");
    assert_eq!(value(&headers, "x-plex-platform-version"), "6.1.0");
    assert_eq!(value(&headers, "x-plex-client-identifier"), "env-client");
    assert_eq!(value(&headers, "x-plex-device"), "Linux");
    assert_eq!(value(&headers, "x-plex-device-name"), "media-box");
}

#[test]
fn package_values_fall_back_to_literals() {
    let id = Identification::new();
    let mut env = machine();
    env.package_name = None;
    env.package_version = None;
    env.client_identifier = Some("c".to_string());
    let (headers, _) = base_headers(&id, &env);
    assert_eq!(value(&headers, "x-plex-product"), DEFAULT_PRODUCT);
    assert_eq!(value(&headers, "x-plex-product"), "plex-api");
    assert_eq!(value(&headers, "x-plex-version"), DEFAULT_VERSION);
    assert_eq!(value(&headers, "x-plex-version"), "unknown");
    assert_eq!(value(&headers, "x-plex-provides"), DEFAULT_PROVIDES);
}

#[test]
fn configured_client_identifier_wins_over_environment() {
    let mut id = Identification::new();
    id.client_identifier = "configured".to_string();
    let mut env = machine();
    env.client_identifier = Some("from-env".to_string());
    assert_eq!(configured_client_identifier(&id, &env), Some("configured".to_string()));
    let (headers, generated) = base_headers(&id, &env);
    assert_eq!(generated, None);
    assert_eq!(value(&headers, "x-plex-client-identifier"), "configured");
}

#[test]
fn empty_environment_identifier_is_taken_as_it_stands() {
    let id = Identification::new();
    let mut env = machine();
    env.client_identifier = Some(String::new());
    assert_eq!(configured_client_identifier(&id, &env), Some(String::new()));
    let (headers, generated) = base_headers(&id, &env);
    assert_eq!(generated, None);
    assert_eq!(value(&headers, "x-plex-client-identifier"), "");
}

#[test]
fn missing_client_identifier_is_generated() {
    let id = Identification::new();
    let env = machine();
    assert_eq!(configured_client_identifier(&id, &env), None);
    let (headers, generated) = base_headers(&id, &env);
    let generated = generated.expect("a generated identifier is reported");
    let header = value(&headers, "x-plex-client-identifier");
    assert_eq!(header, generated);
    assert!(is_random_identifier(&header), "{header}");
}

#[test]
fn generated_identifiers_differ_between_calls() {
    let id = Identification::new();
    let env = machine();
    let (first, _) = base_headers(&id, &env);
    let (second, _) = base_headers(&id, &env);
    assert_ne!(
        value(&first, "x-plex-client-identifier"),
        value(&second, "x-plex-client-identifier")
    );
}

#[test]
fn device_follows_reported_platform() {
    let id = Identification::new();
    let mut env = machine();
    env.sysname = "Darwin".to_string();
    let (headers, _) = base_headers(&id, &env);
    assert_eq!(value(&headers, "x-plex-device"), "Darwin");
    assert_eq!(value(&headers, "x-plex-device"), value(&headers, "x-plex-platform"));
}

#[test]
fn device_follows_configured_platform() {
    let mut id = Identification::new();
    id.platform = "Android".to_string();
    let env = machine();
    let (headers, _) = base_headers(&id, &env);
    assert_eq!(value(&headers, "x-plex-device"), "Android");
    assert_eq!(value(&headers, "x-plex-platform"), "Android");
}

#[test]
fn headers_with_given_identifier() {
    let mut id = Identification::new();
    id.version = "9.9".to_string();
    let env = machine();
    let headers = headers_with_client_identifier(&id, &env, "abc-123");
    assert_eq!(headers.len(), 9);
    assert_eq!(value(&headers, "x-plex-client-identifier"), "abc-123");
    assert_eq!(value(&headers, "x-plex-version"), "9.9");
    assert_eq!(value(&headers, "x-plex-device-name"), "media-box");
}

#[test]
fn header_names_are_held_in_lower_case() {
    let id = Identification::new();
    let env = machine();
    let headers = headers_with_client_identifier(&id, &env, "c");
    let mut keys: Vec<String> = headers.keys().map(|k| k.as_str().to_string()).collect();
    keys.sort();
    let mut expected: Vec<String> = REQUIRED.iter().map(|k| k.to_string()).collect();
    expected.sort();
    assert_eq!(keys, expected);
    assert!(headers.contains_key("X-Plex-Provides"));
}

#[test]
fn control_characters_cannot_be_built() {
    let mut id = Identification::new();
    id.device_name = "bad\nname".to_string();
    assert!(!can_build_headers(&id, &machine()));

    let mut env = machine();
    env.client_identifier = Some("bad\u{7f}".to_string());
    assert!(!can_build_headers(&Identification::new(), &env));
}

#[test]
fn unused_fallbacks_are_not_checked() {
    let mut id = Identification::new();
    id.platform = "Linux".to_string();
    id.client_identifier = "c".to_string();
    let mut env = machine();
    env.sysname = "bad\u{1}".to_string();
    env.client_identifier = Some("bad\r".to_string());
    assert!(can_build_headers(&id, &env));
    let (headers, _) = base_headers(&id, &env);
    assert_eq!(value(&headers, "x-plex-platform"), "Linux");
}

#[test]
fn header_value_text_rules() {
    assert!(is_header_value_text(""));
    assert!(is_header_value_text("plain text ~"));
    assert!(is_header_value_text("tab\tinside"));
    assert!(is_header_value_text("caf\u{e9}"));
    assert!(!is_header_value_text("line\nbreak"));
    assert!(!is_header_value_text("nul\u{0}"));
    assert!(!is_header_value_text("\u{7f}"));
}

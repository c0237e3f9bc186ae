use api_deprecation::config::{
    DeprecatedEndpoint, DeprecationAction, DeprecationStatus, GlobalSettings, ReplacementInfo,
};
use api_deprecation::headers::{
    deprecation_response_body, gone_response_body, parse_http_date, DeprecationHeaders,
};

fn get<'a>(headers: &'a [(String, String)], name: &str) -> Option<&'a str> {
    headers
        .iter()
        .find(|(n, _)| n == name)
        .map(|(_, v)| v.as_str())
}

fn test_endpoint() -> DeprecatedEndpoint {
    DeprecatedEndpoint {
        id: "test".to_string(),
        path: "/api/v1/users".to_string(),
        methods: vec![],
        status: DeprecationStatus::Deprecated,
        deprecated_at: Some(parse_http_date("2024-01-01T00:00:00Z").unwrap()),
        sunset_at: Some(parse_http_date("2025-06-01T00:00:00Z").unwrap()),
        replacement: Some(ReplacementInfo {
            path: "/api/v2/users".to_string(),
            preserve_query: true,
            param_mappings: vec![],
            method: None,
        }),
        documentation_url: Some("https://docs.example.com/migration".to_string()),
        message: None,
        action: DeprecationAction::Warn,
        headers: vec![],
        track_usage: true,
    }
}

fn test_settings() -> GlobalSettings {
    GlobalSettings::default()
}

#[test]
fn test_deprecation_header() {
    let endpoint = test_endpoint();
    let settings = test_settings();
    let headers = DeprecationHeaders::for_endpoint(&endpoint, &settings).build();

    let value = get(&headers, "Deprecation").unwrap();
    assert!(value.starts_with('@'));
    assert_eq!(value, "@1704067200");
}

#[test]
fn test_sunset_header() {
    let endpoint = test_endpoint();
    let settings = test_settings();
    let headers = DeprecationHeaders::for_endpoint(&endpoint, &settings).build();

    let value = get(&headers, "Sunset").unwrap();
    assert!(value.contains("2025"));
    assert!(value.contains("Jun"));
    assert!(value.ends_with("GMT"));
}

#[test]
fn test_link_header() {
    let endpoint = test_endpoint();
    let settings = test_settings();
    let headers = DeprecationHeaders::for_endpoint(&endpoint, &settings).build();

    let link = get(&headers, "Link").unwrap();
    assert!(link.contains("rel=\"deprecation\""));
    assert!(link.contains("rel=\"successor-version\""));
    assert!(link.contains("docs.example.com"));
    assert!(link.contains("/api/v2/users"));
}

#[test]
fn test_notice_header() {
    let endpoint = test_endpoint();
    let settings = test_settings();
    let headers = DeprecationHeaders::for_endpoint(&endpoint, &settings).build();

    let notice = get(&headers, "X-Deprecation-Notice").unwrap();
    assert!(notice.contains("deprecated"));
}

#[test]
fn test_format_http_date() {
    let mut endpoint = test_endpoint();
    endpoint.sunset_at = Some(parse_http_date("2025-06-01T12:00:00Z").unwrap());
    let settings = test_settings();
    let headers = DeprecationHeaders::for_endpoint(&endpoint, &settings).build();

    let formatted = get(&headers, "Sunset").unwrap();
    assert!(formatted.contains("Jun"));
    assert!(formatted.contains("2025"));
    assert!(formatted.ends_with("GMT"));
    assert_eq!(formatted, "Sun, 01 Jun 2025 12:00:00 GMT");
}

#[test]
fn test_parse_http_date() {
    let date_str = "Sun, 01 Jun 2025 12:00:00 GMT";
    let parsed = parse_http_date(date_str);
    assert!(parsed.is_some());
    assert_eq!(parsed.unwrap(), 1748779200);

    let iso_str = "2025-06-01T12:00:00Z";
    let parsed_iso = parse_http_date(iso_str);
    assert!(parsed_iso.is_some());
    assert_eq!(parsed_iso, parsed);

    assert!(parse_http_date("not a date").is_none());
}

#[test]
fn test_deprecation_response_body() {
    let endpoint = test_endpoint();
    let body = deprecation_response_body(&endpoint);

    assert!(body.contains("deprecated_endpoint"));
    assert!(body.contains("/api/v1/users"));
    assert!(body.contains("/api/v2/users"));
    assert!(body.contains("2025-06-01T00:00:00+00:00"));
    assert!(body.contains("https://docs.example.com/migration"));
}

#[test]
fn test_gone_response_body() {
    let endpoint = test_endpoint();
    let body = gone_response_body(&endpoint);

    assert!(body.contains("endpoint_removed"));
    assert!(body.contains("has been removed"));
    assert!(body.contains("Please use /api/v2/users instead"));
    assert_eq!(
        body,
        "{\"error\":\"endpoint_removed\",\
         \"message\":\"The endpoint /api/v1/users has been removed. \
         Please use /api/v2/users instead\",\
         \"replacement\":\"/api/v2/users\",\
         \"documentation\":\"https://docs.example.com/migration\"}"
    );
}

#[test]
fn test_with_header_overwrites_by_name() {
    let headers = DeprecationHeaders::new()
        .with_header("X-One".to_string(), "first".to_string())
        .with_header("X-Two".to_string(), "second".to_string())
        .with_header("X-One".to_string(), "third".to_string())
        .build();

    assert_eq!(headers.len(), 2);
    assert_eq!(get(&headers, "X-One"), Some("third"));
    assert_eq!(get(&headers, "X-Two"), Some("second"));
}

#[test]
fn test_extra_headers_overwrite_composed_ones() {
    let mut endpoint = test_endpoint();
    endpoint.headers = vec![
        ("Deprecation".to_string(), "overridden".to_string()),
        ("X-Extra".to_string(), "extra-value".to_string()),
    ];
    let settings = test_settings();
    let headers = DeprecationHeaders::for_endpoint(&endpoint, &settings).build();

    assert_eq!(get(&headers, "Deprecation"), Some("overridden"));
    assert_eq!(get(&headers, "X-Extra"), Some("extra-value"));
}

#[test]
fn test_renamed_header_names_are_used() {
    let endpoint = test_endpoint();
    let mut settings = test_settings();
    settings.deprecation_header = "X-Will-Retire".to_string();
    settings.sunset_header = "X-Retire-Date".to_string();
    let headers = DeprecationHeaders::for_endpoint(&endpoint, &settings).build();

    assert!(get(&headers, "Deprecation").is_none());
    assert!(get(&headers, "X-Will-Retire").is_some());
    assert!(get(&headers, "X-Retire-Date").unwrap().ends_with("GMT"));
}

#[test]
fn test_marker_without_timestamp_is_true() {
    let mut endpoint = test_endpoint();
    endpoint.deprecated_at = None;
    let settings = test_settings();
    let headers = DeprecationHeaders::for_endpoint(&endpoint, &settings).build();

    assert_eq!(get(&headers, "Deprecation"), Some("true"));
}

#[test]
fn test_body_escapes_embedded_quotes() {
    let mut endpoint = test_endpoint();
    endpoint.message = Some("say \"goodbye\" to v1\\".to_string());
    let body = deprecation_response_body(&endpoint);

    assert!(body.contains("say \\\"goodbye\\\" to v1\\\\"));
}

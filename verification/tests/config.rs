use api_deprecation::config::{
    ApiDeprecationConfig, ConfigError, DeprecatedEndpoint, DeprecationAction, DeprecationStatus,
    GlobalSettings, MetricsConfig, ReplacementInfo,
};
use api_deprecation::headers::parse_http_date;

fn base_endpoint() -> DeprecatedEndpoint {
    DeprecatedEndpoint {
        id: "test".to_string(),
        path: "/api/v1/users".to_string(),
        methods: vec![],
        status: DeprecationStatus::Deprecated,
        deprecated_at: None,
        sunset_at: None,
        replacement: None,
        documentation_url: None,
        message: None,
        action: DeprecationAction::Warn,
        headers: vec![],
        track_usage: true,
    }
}

#[test]
fn test_endpoint_matching() {
    let mut endpoint = base_endpoint();
    endpoint.methods = vec!["GET".to_string()];

    assert!(endpoint.matches("/api/v1/users", "GET"));
    assert!(endpoint.matches("/api/v1/users", "get"));
    assert!(!endpoint.matches("/api/v1/users", "POST"));
    assert!(!endpoint.matches("/api/v2/users", "GET"));
}

#[test]
fn test_glob_pattern_matching() {
    let mut endpoint = base_endpoint();
    endpoint.path = "/api/v1/*".to_string();

    assert!(endpoint.matches("/api/v1/users", "GET"));
    assert!(endpoint.matches("/api/v1/posts", "POST"));
    assert!(!endpoint.matches("/api/v2/users", "GET"));
}

#[test]
fn test_deprecation_message() {
    let mut endpoint = base_endpoint();
    endpoint.sunset_at = Some(parse_http_date("2025-06-01T00:00:00Z").unwrap());
    endpoint.replacement = Some(ReplacementInfo {
        path: "/api/v2/users".to_string(),
        preserve_query: true,
        param_mappings: vec![],
        method: None,
    });
    endpoint.documentation_url = Some("https://docs.example.com".to_string());

    let msg = endpoint.deprecation_message();
    assert!(msg.contains("/api/v1/users"));
    assert!(msg.contains("2025-06-01"));
    assert!(msg.contains("/api/v2/users"));
    assert!(msg.contains("docs.example.com"));
    assert_eq!(
        msg,
        "This endpoint (/api/v1/users) is deprecated and will be removed on 2025-06-01. \
         Please migrate to /api/v2/users. See https://docs.example.com for migration guide."
    );
}

#[test]
fn test_custom_message() {
    let mut endpoint = base_endpoint();
    endpoint.message = Some("Custom deprecation message".to_string());

    assert_eq!(endpoint.deprecation_message(), "Custom deprecation message");
}

#[test]
fn test_exact_path_matches_subpaths() {
    let endpoint = base_endpoint();

    assert!(endpoint.matches("/api/v1/users", "GET"));
    assert!(endpoint.matches("/api/v1/users/123", "GET"));
    assert!(!endpoint.matches("/api/v2/users", "GET"));
    assert!(!endpoint.matches("/api/v1/users2", "GET"));
}

#[test]
fn test_trailing_slash_pattern_is_prefix() {
    let mut endpoint = base_endpoint();
    endpoint.path = "/api/v1/".to_string();

    assert!(endpoint.matches("/api/v1/", "GET"));
    assert!(endpoint.matches("/api/v1/anything", "GET"));
    assert!(!endpoint.matches("/api/v2/anything", "GET"));
}

#[test]
fn test_empty_methods_match_every_method() {
    let endpoint = base_endpoint();

    for method in ["GET", "POST", "DELETE", "PATCH", "options", "HeAd"] {
        assert!(endpoint.matches("/api/v1/users", method));
    }
}

#[test]
fn test_method_comparison_is_case_insensitive() {
    let mut endpoint = base_endpoint();
    endpoint.methods = vec!["get".to_string(), "Post".to_string()];

    assert!(endpoint.matches("/api/v1/users", "GET"));
    assert!(endpoint.matches("/api/v1/users", "gEt"));
    assert!(endpoint.matches("/api/v1/users", "POST"));
    assert!(!endpoint.matches("/api/v1/users", "DELETE"));
}

#[test]
fn test_validate_rejects_empty_id() {
    let mut endpoint = base_endpoint();
    endpoint.id = String::new();

    let err = endpoint.validate().unwrap_err();
    assert!(matches!(err, ConfigError::EmptyEndpointId));
    assert_eq!(err.message(), "Endpoint id cannot be empty");
}

#[test]
fn test_validate_rejects_empty_path() {
    let mut endpoint = base_endpoint();
    endpoint.path = String::new();

    let err = endpoint.validate().unwrap_err();
    match err {
        ConfigError::EmptyEndpointPath { ref id } => assert_eq!(id, "test"),
        _ => panic!("expected EmptyEndpointPath"),
    }
}

#[test]
fn test_validate_rejects_redirect_without_replacement() {
    let mut endpoint = base_endpoint();
    endpoint.action = DeprecationAction::Redirect { status_code: 308 };

    let err = endpoint.validate().unwrap_err();
    match err {
        ConfigError::RedirectWithoutReplacement { ref id } => assert_eq!(id, "test"),
        _ => panic!("expected RedirectWithoutReplacement"),
    }
    assert!(err
        .message()
        .contains("Redirect action requires replacement info"));
}

#[test]
fn test_validate_accepts_valid_endpoint() {
    let mut endpoint = base_endpoint();
    endpoint.action = DeprecationAction::Redirect { status_code: 308 };
    endpoint.replacement = Some(ReplacementInfo {
        path: "/api/v2/users".to_string(),
        preserve_query: true,
        param_mappings: vec![],
        method: None,
    });

    assert!(endpoint.validate().is_ok());
}

#[test]
fn test_config_validate_reports_first_error() {
    let mut bad = base_endpoint();
    bad.id = String::new();
    let config = ApiDeprecationConfig {
        endpoints: vec![base_endpoint(), bad],
        settings: GlobalSettings::default(),
        metrics: MetricsConfig::default(),
    };

    let err = config.validate().unwrap_err();
    assert!(matches!(err, ConfigError::EmptyEndpointId));

    let good = ApiDeprecationConfig {
        endpoints: vec![base_endpoint()],
        settings: GlobalSettings::default(),
        metrics: MetricsConfig::default(),
    };
    assert!(good.validate().is_ok());
}

#[test]
fn test_find_endpoint_first_match_wins() {
    let mut wide = base_endpoint();
    wide.id = "wide".to_string();
    wide.path = "/api/v1/*".to_string();
    let mut narrow = base_endpoint();
    narrow.id = "narrow".to_string();
    narrow.path = "/api/v1/users".to_string();
    let config = ApiDeprecationConfig {
        endpoints: vec![wide, narrow],
        settings: GlobalSettings::default(),
        metrics: MetricsConfig::default(),
    };

    let found = config.find_endpoint("/api/v1/users", "GET").unwrap();
    assert_eq!(found.id, "wide");
    assert!(config.find_endpoint("/api/v2/users", "GET").is_none());
}

#[test]
fn test_sunset_warnings_list_past_deprecated_rules() {
    let now: i64 = 1_750_000_000;
    let mut stale = base_endpoint();
    stale.id = "stale".to_string();
    stale.sunset_at = Some(now - 86_400);
    let mut fresh = base_endpoint();
    fresh.id = "fresh".to_string();
    fresh.sunset_at = Some(now + 86_400);
    let mut gone = base_endpoint();
    gone.id = "gone".to_string();
    gone.status = DeprecationStatus::Removed;
    gone.sunset_at = Some(now - 86_400);
    let config = ApiDeprecationConfig {
        endpoints: vec![stale, fresh, gone],
        settings: GlobalSettings::default(),
        metrics: MetricsConfig::default(),
    };

    assert_eq!(config.sunset_warnings(now), vec!["stale".to_string()]);
}

#[test]
fn test_default_settings() {
    let settings = GlobalSettings::default();
    assert_eq!(settings.deprecation_header, "Deprecation");
    assert_eq!(settings.sunset_header, "Sunset");
    assert_eq!(settings.link_header, "Link");
    assert_eq!(settings.notice_header, "X-Deprecation-Notice");
    assert!(settings.include_headers);
    assert!(settings.log_access);

    let metrics = MetricsConfig::default();
    assert!(metrics.enabled);
    assert_eq!(metrics.prefix, "zentinel_api_deprecation");
    assert_eq!(metrics.port, 0);
}

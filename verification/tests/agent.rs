use api_deprecation::agent::{
    days_until_sunset, redirect_target, ApiDeprecationAgent, DeprecationActionResult,
    GatewayDecision,
};
use api_deprecation::config::{
    ApiDeprecationConfig, DeprecatedEndpoint, DeprecationAction, DeprecationStatus,
    GlobalSettings, MetricsConfig, PastSunsetAction, ReplacementInfo,
};

// 2025-07-15T00:00:00Z, well before the 2030 sunset used below.
const NOW: i64 = 1752537600;

// 2030-06-01T00:00:00Z.
const SUNSET_2030: i64 = 1906502400;

fn get<'a>(headers: &'a [(String, String)], name: &str) -> Option<&'a str> {
    headers
        .iter()
        .find(|(n, _)| n == name)
        .map(|(_, v)| v.as_str())
}

fn endpoint(id: &str, path: &str) -> DeprecatedEndpoint {
    DeprecatedEndpoint {
        id: id.to_string(),
        path: path.to_string(),
        methods: vec![],
        status: DeprecationStatus::Deprecated,
        deprecated_at: None,
        sunset_at: None,
        replacement: None,
        documentation_url: None,
        message: None,
        action: DeprecationAction::Warn,
        headers: vec![],
        track_usage: true,
    }
}

fn test_config() -> ApiDeprecationConfig {
    let mut legacy_users = endpoint("legacy-users", "/api/v1/users");
    legacy_users.methods = vec!["GET".to_string(), "POST".to_string()];
    legacy_users.sunset_at = Some(SUNSET_2030);
    legacy_users.replacement = Some(ReplacementInfo {
        path: "/api/v2/users".to_string(),
        preserve_query: true,
        param_mappings: vec![],
        method: None,
    });
    legacy_users.documentation_url = Some("https://docs.example.com/migration".to_string());

    let mut removed_posts = endpoint("removed-posts", "/api/v1/posts");
    removed_posts.status = DeprecationStatus::Removed;
    removed_posts.action = DeprecationAction::Block { status_code: 410 };

    let mut redirect_orders = endpoint("redirect-orders", "/api/v1/orders");
    redirect_orders.replacement = Some(ReplacementInfo {
        path: "/api/v2/orders".to_string(),
        preserve_query: true,
        param_mappings: vec![],
        method: None,
    });
    redirect_orders.action = DeprecationAction::Redirect { status_code: 308 };

    ApiDeprecationConfig {
        endpoints: vec![legacy_users, removed_posts, redirect_orders],
        settings: GlobalSettings::default(),
        metrics: MetricsConfig::default(),
    }
}

#[test]
fn test_agent_creation() {
    let agent = ApiDeprecationAgent::new(test_config());
    assert_eq!(agent.config.endpoints.len(), 3);
}

#[test]
fn test_process_deprecated_endpoint() {
    let agent = ApiDeprecationAgent::new(test_config());

    let decision = agent.process_request("/api/v1/users", "GET", None, NOW);
    assert!(decision.is_some());

    let d = decision.unwrap();
    assert_eq!(d.endpoint_id, "legacy-users");
    assert!(matches!(d.action, DeprecationActionResult::Warn));
}

#[test]
fn test_process_removed_endpoint() {
    let agent = ApiDeprecationAgent::new(test_config());

    let decision = agent.process_request("/api/v1/posts", "GET", None, NOW);
    assert!(decision.is_some());

    let d = decision.unwrap();
    assert_eq!(d.endpoint_id, "removed-posts");
    assert!(matches!(
        d.action,
        DeprecationActionResult::Block { status_code: 410 }
    ));
}

#[test]
fn test_process_redirect_endpoint() {
    let agent = ApiDeprecationAgent::new(test_config());

    let decision = agent.process_request("/api/v1/orders", "GET", Some("page=1"), NOW);
    assert!(decision.is_some());

    let d = decision.unwrap();
    assert_eq!(d.endpoint_id, "redirect-orders");
    assert!(matches!(
        d.action,
        DeprecationActionResult::Redirect { status_code: 308 }
    ));
    assert_eq!(d.redirect_url, Some("/api/v2/orders?page=1".to_string()));
}

#[test]
fn test_non_deprecated_endpoint() {
    let agent = ApiDeprecationAgent::new(test_config());

    let decision = agent.process_request("/api/v2/users", "GET", None, NOW);
    assert!(decision.is_none());
}

#[test]
fn test_method_filtering() {
    let agent = ApiDeprecationAgent::new(test_config());

    let decision = agent.process_request("/api/v1/users", "GET", None, NOW);
    assert!(decision.is_some());

    let decision = agent.process_request("/api/v1/users", "DELETE", None, NOW);
    assert!(decision.is_none());
}

#[test]
fn test_deprecation_headers() {
    let agent = ApiDeprecationAgent::new(test_config());

    let decision = agent
        .process_request("/api/v1/users", "GET", None, NOW)
        .unwrap();

    assert!(get(&decision.headers, "Deprecation").is_some());
    assert!(get(&decision.headers, "Sunset").is_some());
    assert!(get(&decision.headers, "Link").is_some());
    assert!(get(&decision.headers, "X-Deprecation-Notice").is_some());
}

#[test]
fn test_usage_event_follows_track_usage() {
    let mut config = test_config();
    config.endpoints[0].track_usage = false;
    let agent = ApiDeprecationAgent::new(config);

    let d = agent
        .process_request("/api/v1/users", "GET", None, NOW)
        .unwrap();
    assert!(d.usage.is_none());

    let d = agent
        .process_request("/api/v1/posts", "DELETE", None, NOW)
        .unwrap();
    let usage = d.usage.unwrap();
    assert_eq!(usage.endpoint_id, "removed-posts");
    assert_eq!(usage.path, "/api/v1/posts");
    assert_eq!(usage.method, "DELETE");
    assert_eq!(usage.status, "removed");
}

#[test]
fn test_warn_verdict_allows_with_headers() {
    let agent = ApiDeprecationAgent::new(test_config());

    let verdict = agent.on_request("/api/v1/users", "GET", None, NOW);
    assert!(verdict.deprecated);
    assert!(!verdict.redirected);
    assert!(!verdict.blocked);
    assert_eq!(verdict.endpoint_id.as_deref(), Some("legacy-users"));
    let usage = verdict.usage.unwrap();
    assert_eq!(usage.status, "deprecated");
    match verdict.decision {
        GatewayDecision::AllowWithHeaders { ref headers } => {
            assert!(get(headers, "Deprecation").is_some());
            assert!(get(headers, "Sunset").is_some());
            assert!(get(headers, "Link").is_some());
            assert!(get(headers, "X-Deprecation-Notice").is_some());
        }
        _ => panic!("expected an allow decision"),
    }

    let pass = agent.on_request("/api/v1/users", "DELETE", None, NOW);
    assert!(matches!(pass.decision, GatewayDecision::PassThrough));
    assert!(!pass.deprecated);
    assert!(pass.usage.is_none());
}

#[test]
fn test_removed_verdict_blocks_with_gone_body() {
    let agent = ApiDeprecationAgent::new(test_config());

    let verdict = agent.on_request("/api/v1/posts", "PUT", None, NOW);
    assert!(verdict.deprecated);
    assert!(verdict.blocked);
    match verdict.decision {
        GatewayDecision::Block {
            status_code,
            ref body,
            ref content_type,
            ..
        } => {
            assert_eq!(status_code, 410);
            assert!(body.contains("endpoint_removed"));
            assert_eq!(content_type, "application/json");
        }
        _ => panic!("expected a block decision"),
    }
    let blocked = verdict.blocked_event.unwrap();
    assert_eq!(blocked.endpoint_id, "removed-posts");
    assert_eq!(blocked.reason, "removed");
}

#[test]
fn test_redirect_verdict_carries_target() {
    let agent = ApiDeprecationAgent::new(test_config());

    let verdict = agent.on_request("/api/v1/orders", "GET", Some("page=1"), NOW);
    assert!(verdict.deprecated);
    assert!(verdict.redirected);
    assert!(!verdict.blocked);
    match verdict.decision {
        GatewayDecision::Redirect {
            status_code,
            ref location,
            ..
        } => {
            assert_eq!(status_code, 308);
            assert_eq!(location, "/api/v2/orders?page=1");
        }
        _ => panic!("expected a redirect decision"),
    }
    let redirect = verdict.redirect_event.unwrap();
    assert_eq!(redirect.endpoint_id, "redirect-orders");
    assert_eq!(redirect.from_path, "/api/v1/orders");
    assert_eq!(redirect.to_path, "/api/v2/orders?page=1");
}

#[test]
fn test_removed_beats_configured_action() {
    let mut config = test_config();
    config.endpoints[1].action = DeprecationAction::Warn;
    config.endpoints[1].replacement = Some(ReplacementInfo {
        path: "/api/v2/posts".to_string(),
        preserve_query: true,
        param_mappings: vec![],
        method: None,
    });
    let agent = ApiDeprecationAgent::new(config);

    let d = agent
        .process_request("/api/v1/posts", "GET", None, NOW)
        .unwrap();
    assert!(matches!(
        d.action,
        DeprecationActionResult::Block { status_code: 410 }
    ));
}

#[test]
fn test_past_sunset_redirect_without_replacement_blocks() {
    let mut config = test_config();
    config.settings.past_sunset_action = PastSunsetAction::Redirect;
    // Sunset already behind NOW, no replacement configured.
    config.endpoints[0].sunset_at = Some(NOW - 86400);
    config.endpoints[0].replacement = None;
    let agent = ApiDeprecationAgent::new(config);

    let d = agent
        .process_request("/api/v1/users", "GET", None, NOW)
        .unwrap();
    assert!(matches!(
        d.action,
        DeprecationActionResult::Block { status_code: 410 }
    ));
}

#[test]
fn test_past_sunset_redirect_with_replacement_uses_301() {
    let mut config = test_config();
    config.settings.past_sunset_action = PastSunsetAction::Redirect;
    config.endpoints[0].sunset_at = Some(NOW - 86400);
    let agent = ApiDeprecationAgent::new(config);

    let d = agent
        .process_request("/api/v1/users", "GET", None, NOW)
        .unwrap();
    assert!(matches!(
        d.action,
        DeprecationActionResult::Redirect { status_code: 301 }
    ));
}

#[test]
fn test_past_sunset_block_policy() {
    let mut config = test_config();
    config.settings.past_sunset_action = PastSunsetAction::Block;
    config.endpoints[0].sunset_at = Some(NOW - 1);
    let agent = ApiDeprecationAgent::new(config);

    let d = agent
        .process_request("/api/v1/users", "GET", None, NOW)
        .unwrap();
    assert!(matches!(
        d.action,
        DeprecationActionResult::Block { status_code: 410 }
    ));
}

#[test]
fn test_custom_action_served_verbatim() {
    let mut config = test_config();
    config.endpoints[0].action = DeprecationAction::Custom {
        status_code: 418,
        body: "try v2".to_string(),
        content_type: "text/plain".to_string(),
    };
    let agent = ApiDeprecationAgent::new(config);

    let verdict = agent.on_request("/api/v1/users", "GET", None, NOW);
    assert!(verdict.custom_response);
    assert!(!verdict.blocked);
    match verdict.decision {
        GatewayDecision::CustomResponse {
            status_code,
            ref body,
            ref content_type,
        } => {
            assert_eq!(status_code, 418);
            assert_eq!(body, "try v2");
            assert_eq!(content_type, "text/plain");
        }
        _ => panic!("expected a custom response"),
    }
}

#[test]
fn test_redirect_target_query_handling() {
    let replacement = ReplacementInfo {
        path: "/api/v2/orders".to_string(),
        preserve_query: true,
        param_mappings: vec![],
        method: None,
    };

    assert_eq!(
        redirect_target(&replacement, Some("page=1")),
        "/api/v2/orders?page=1"
    );
    assert_eq!(redirect_target(&replacement, Some("")), "/api/v2/orders");
    assert_eq!(redirect_target(&replacement, None), "/api/v2/orders");

    let no_preserve = ReplacementInfo {
        preserve_query: false,
        ..replacement
    };
    assert_eq!(redirect_target(&no_preserve, Some("page=1")), "/api/v2/orders");
}

#[test]
fn test_days_until_sunset_values() {
    assert_eq!(days_until_sunset(NOW + 30 * 86400, NOW), 30);
    assert_eq!(days_until_sunset(NOW + 86399, NOW), 0);
    assert_eq!(days_until_sunset(NOW - 86400, NOW), -1);
    assert_eq!(days_until_sunset(NOW, NOW), 0);
}

#[test]
fn test_sunset_gauges() {
    let agent = ApiDeprecationAgent::new(test_config());

    let gauges = agent.sunset_gauges(NOW);
    assert_eq!(gauges.len(), 1);
    assert_eq!(gauges[0].endpoint_id, "legacy-users");
    assert_eq!(gauges[0].path, "/api/v1/users");
    assert_eq!(gauges[0].days, (SUNSET_2030 - NOW) / 86400);
}

#[test]
fn test_on_request_now_matches_exact_engine() {
    let agent = ApiDeprecationAgent::new(test_config());

    let verdict = agent.on_request_now("/api/v1/posts", "GET", None);
    assert!(verdict.blocked);
    let exact = agent.on_request("/api/v1/posts", "GET", None, NOW);
    assert!(exact.blocked);
}

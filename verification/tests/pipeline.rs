use hypergate::kv::{find_entry, Entry};
use hypergate::logger::{
    auth_unreachable_log, backend_unreachable_log, connection_closed_log, connection_log,
    not_found_log, LogLevel, Logger,
};
use hypergate::config::{advertised_url, LoggerConfig};
use hypergate::pipeline::{
    auth_cookie_value, build_downstream_request, evaluate_auth, forwarded_for_value, plan_request,
    AuthDecision, AuthOutcome, RequestAction,
};
use hypergate::response::{
    not_found, openapi_spec_response, preflight_response, service_unavailable, swagger_ui_response,
    CorsResponse,
};
use hypergate::routes::{get_service_config, needs_auth, NoAuthEndpoints, ServiceConfig};
use hypergate::text::{is_spec_file, service_key_of, str_eq};

fn routes() -> Vec<ServiceConfig> {
    vec![
        ServiceConfig {
            path: "/api".to_string(),
            target_service: "api-svc".to_string(),
            target_port: "3000".to_string(),
        },
        ServiceConfig {
            path: "/a".to_string(),
            target_service: "a-svc".to_string(),
            target_port: "4000".to_string(),
        },
    ]
}

fn exemptions() -> Vec<NoAuthEndpoints> {
    vec![NoAuthEndpoints {
        endpoint: "/api/login".to_string(),
        method: "POST".to_string(),
    }]
}

#[test]
fn resolve_returns_first_match_in_order() {
    let services = routes();
    // "/api" and "/a" both prefix "/api/users"; the first configured wins.
    let r = get_service_config("/api/users", &services).unwrap();
    assert_eq!(r.target_service, "api-svc");
    // Only "/a" prefixes "/ap".
    let r = get_service_config("/ap", &services).unwrap();
    assert_eq!(r.target_service, "a-svc");
}

#[test]
fn resolve_misses_when_no_prefix_matches() {
    let services = routes();
    assert!(get_service_config("/zzz", &services).is_none());
    // Matching is not longest-prefix and not normalizing: an empty path
    // matches nothing here.
    assert!(get_service_config("", &services).is_none());
}

#[test]
fn exemption_requires_exact_equality_on_both_fields() {
    let ex = exemptions();
    assert!(!needs_auth("/api/login", "POST", &ex));
    // A prefix of the exempt endpoint never exempts.
    assert!(needs_auth("/api/login/extra", "POST", &ex));
    assert!(needs_auth("/api/log", "POST", &ex));
    // The method must be equal too.
    assert!(needs_auth("/api/login", "GET", &ex));
    assert!(needs_auth("/api/login", "post", &ex));
}

#[test]
fn forwarded_for_keeps_valid_inbound_header() {
    let header = "10.0.0.5".to_string();
    let out = forwarded_for_value(Some(&header), "203.0.113.9");
    assert_eq!(out, "10.0.0.5");
}

#[test]
fn forwarded_for_overwrites_invalid_inbound_header() {
    let header = "not-an-ip".to_string();
    let out = forwarded_for_value(Some(&header), "203.0.113.9");
    assert_eq!(out, "203.0.113.9");
    let out = forwarded_for_value(None, "203.0.113.9");
    assert_eq!(out, "203.0.113.9");
}

#[test]
fn forwarded_for_accepts_ipv6() {
    let header = "1080:0:0:0:8:800:200c:417a".to_string();
    let out = forwarded_for_value(Some(&header), "203.0.113.9");
    assert_eq!(out, "1080:0:0:0:8:800:200c:417a");
}

#[test]
fn downstream_request_rewrites_uri_and_headers() {
    let services = routes();
    let header = "10.0.0.5".to_string();
    let r = build_downstream_request(
        "/api/users",
        "page=2",
        Some(&header),
        "203.0.113.9",
        "req-123",
        &services[0],
    );
    assert_eq!(r.uri, "api-svc:3000/api/users?page=2");
    assert_eq!(r.forwarded_for, "10.0.0.5");
    assert_eq!(r.request_id, "req-123");
}

#[test]
fn downstream_request_appends_question_mark_without_query() {
    let services = routes();
    let r = build_downstream_request("/a/x", "", None, "203.0.113.9", "rid", &services[1]);
    assert_eq!(r.uri, "a-svc:4000/a/x?");
    assert_eq!(r.forwarded_for, "203.0.113.9");
}

#[test]
fn options_request_plans_preflight_regardless_of_route() {
    let services = routes();
    let ex = exemptions();
    let plan = plan_request("OPTIONS", "/anything", "/docs/spec", "/docs", &services, &ex);
    assert!(matches!(plan, RequestAction::Preflight));
    let plan = plan_request("OPTIONS", "/api/users", "/docs/spec", "/docs", &services, &ex);
    assert!(matches!(plan, RequestAction::Preflight));
}

#[test]
fn preflight_response_has_no_content_and_cors_headers() {
    let resp = CorsResponse::from_parts(preflight_response());
    assert_eq!(resp.status, 204);
    assert_eq!(resp.body, "");
    assert_eq!(
        find_entry(&resp.headers, "Access-Control-Allow-Origin"),
        Some(&"*".to_string())
    );
    assert_eq!(
        find_entry(&resp.headers, "Access-Control-Allow-Methods"),
        Some(&"GET, POST, OPTIONS, PUT, DELETE".to_string())
    );
    assert_eq!(
        find_entry(&resp.headers, "Access-Control-Allow-Headers"),
        Some(&"Content-Type".to_string())
    );
}

#[test]
fn cors_decoration_overwrites_and_preserves_headers() {
    let mut base = not_found();
    base.headers.push(Entry {
        key: "Access-Control-Allow-Origin".to_string(),
        value: "https://old.example".to_string(),
    });
    base.headers.push(Entry {
        key: "X-Custom".to_string(),
        value: "kept".to_string(),
    });
    let resp = CorsResponse::from_parts(base);
    assert_eq!(
        find_entry(&resp.headers, "Access-Control-Allow-Origin"),
        Some(&"*".to_string())
    );
    assert_eq!(find_entry(&resp.headers, "X-Custom"), Some(&"kept".to_string()));
    assert_eq!(resp.status, 404);
}

#[test]
fn unconfigured_path_plans_not_found_with_one_warn_log() {
    let services = routes();
    let ex = exemptions();
    let plan = plan_request("GET", "/nowhere", "/docs/spec", "/docs", &services, &ex);
    assert!(matches!(plan, RequestAction::NotFound));
    let resp = not_found();
    assert_eq!(resp.status, 404);
    assert_eq!(resp.body, "Not Found");
    let log = not_found_log("rid", "203.0.113.9", "GET", "/nowhere", "");
    assert!(matches!(log.level, LogLevel::Warn));
    assert_eq!(log.message, "Path not found: /nowhere");
    assert!(log.message.contains("/nowhere"));
    assert_eq!(log.fields.len(), 5);
}

#[test]
fn documentation_routes_are_planned_before_resolution() {
    let services = routes();
    let ex = exemptions();
    let plan = plan_request("GET", "/docs/spec", "/docs/spec", "/docs", &services, &ex);
    assert!(matches!(plan, RequestAction::ServeSpec));
    let plan = plan_request("GET", "/docs", "/docs/spec", "/docs", &services, &ex);
    assert!(matches!(plan, RequestAction::ServeDocs));
}

#[test]
fn routed_requests_plan_authorization_unless_exempt() {
    let services = routes();
    let ex = exemptions();
    match plan_request("GET", "/api/users", "/docs/spec", "/docs", &services, &ex) {
        RequestAction::Authorize { route } => assert_eq!(route.target_service, "api-svc"),
        _ => panic!("expected an authorization round trip"),
    }
    match plan_request("POST", "/api/login", "/docs/spec", "/docs", &services, &ex) {
        RequestAction::Forward { route } => assert_eq!(route.target_service, "api-svc"),
        _ => panic!("expected a direct forward"),
    }
}

#[test]
fn auth_outcomes_decide_the_three_ways() {
    assert!(matches!(
        evaluate_auth(&AuthOutcome::Answered { status: 200 }),
        AuthDecision::Granted
    ));
    assert!(matches!(
        evaluate_auth(&AuthOutcome::Answered { status: 299 }),
        AuthDecision::Granted
    ));
    assert!(matches!(
        evaluate_auth(&AuthOutcome::Answered { status: 300 }),
        AuthDecision::Relay
    ));
    assert!(matches!(
        evaluate_auth(&AuthOutcome::Answered { status: 401 }),
        AuthDecision::Relay
    ));
    assert!(matches!(
        evaluate_auth(&AuthOutcome::Unreachable),
        AuthDecision::Unavailable
    ));
}

#[test]
fn auth_request_carries_inbound_cookie_or_empty() {
    let cookie = "session=abc".to_string();
    assert_eq!(auth_cookie_value(Some(&cookie)), "session=abc");
    assert_eq!(auth_cookie_value(None), "");
}

#[test]
fn service_unavailable_carries_reason() {
    let resp = service_unavailable("Failed to connect to Authorization API");
    assert_eq!(resp.status, 503);
    assert_eq!(resp.body, "Failed to connect to Authorization API");
}

#[test]
fn documentation_responses_serve_content_or_not_found() {
    let ok = openapi_spec_response(Some("openapi: 3.0.0".to_string()));
    assert_eq!(ok.status, 200);
    assert_eq!(find_entry(&ok.headers, "Content-Type"), Some(&"application/yaml".to_string()));
    assert_eq!(ok.body, "openapi: 3.0.0");
    let missing = openapi_spec_response(None);
    assert_eq!(missing.status, 404);
    assert_eq!(missing.body, "OpenAPI Specification Not Found");

    let ok = swagger_ui_response(Some("<html></html>".to_string()));
    assert_eq!(ok.status, 200);
    assert_eq!(find_entry(&ok.headers, "Content-Type"), Some(&"text/html".to_string()));
    let missing = swagger_ui_response(None);
    assert_eq!(missing.status, 404);
    assert_eq!(missing.body, "Swagger UI Not Found");
}

#[test]
fn logger_from_config_keeps_bus_fields_only_when_enabled() {
    let on = LoggerConfig {
        use_kafka: true,
        kafka_host: Some("broker:9092".to_string()),
        kafka_topic: None,
        out_file: "logs/out.log".to_string(),
        err_file: "logs/err.log".to_string(),
        debug_file: "logs/debug.log".to_string(),
    };
    let l = Logger::from_config(&on);
    assert!(l.use_kafka);
    assert_eq!(l.kafka_host, Some("broker:9092".to_string()));
    assert_eq!(l.kafka_topic, "");
    assert_eq!(l.out_file, "logs/out.log");

    let off = LoggerConfig { use_kafka: false, ..on };
    let l = Logger::from_config(&off);
    assert!(!l.use_kafka);
    assert_eq!(l.kafka_host, None);
    assert_eq!(l.kafka_topic, "");
    assert_eq!(l.err_file, "logs/err.log");
}

#[test]
fn log_levels_pick_their_sink_file() {
    let l = Logger {
        use_kafka: false,
        kafka_host: None,
        kafka_topic: String::new(),
        out_file: "out.log".to_string(),
        err_file: "err.log".to_string(),
    };
    assert_eq!(l.target_file(LogLevel::Info), &"out.log".to_string());
    assert_eq!(l.target_file(LogLevel::Warn), &"out.log".to_string());
    assert_eq!(l.target_file(LogLevel::Error), &"err.log".to_string());
}

#[test]
fn terminal_log_entries_carry_the_request_identity() {
    let log = connection_log("rid", "1.2.3.4");
    assert!(matches!(log.level, LogLevel::Info));
    assert_eq!(log.message, "New connection");
    assert_eq!(log.fields.len(), 2);

    let log = connection_closed_log("rid", "1.2.3.4", "401");
    assert!(matches!(log.level, LogLevel::Info));
    assert_eq!(log.message, "Connection closed");
    assert_eq!(log.fields[2].key, "status");
    assert_eq!(log.fields[2].value, "401");

    let log = auth_unreachable_log("http://auth:9", "rid", "1.2.3.4", "GET", "/p", "q=1");
    assert!(matches!(log.level, LogLevel::Error));
    assert_eq!(log.message, "Failed to connect to Authorization API: http://auth:9");

    let log = backend_unreachable_log("api-svc", "rid", "1.2.3.4", "GET", "/p", "");
    assert!(matches!(log.level, LogLevel::Error));
    assert_eq!(log.message, "Failed to connect to downstream service api-svc");
    assert_eq!(log.fields[3].key, "url");
    assert_eq!(log.fields[3].value, "/p");
}

#[test]
fn advertised_url_follows_the_https_flag() {
    assert_eq!(advertised_url(false, "gw.example:8080"), "http://gw.example:8080");
    assert_eq!(advertised_url(true, "gw.example:8080"), "https://gw.example:8080");
}

#[test]
fn file_names_classify_and_key_documents() {
    assert!(is_spec_file("users.yaml"));
    assert!(is_spec_file("users.yml"));
    assert!(!is_spec_file("users.json"));
    assert!(!is_spec_file("users.yaml.txt"));
    assert!(!is_spec_file(".yaml"));
    assert!(!is_spec_file("noext"));
    assert_eq!(service_key_of("users.yaml"), "users");
    assert_eq!(service_key_of("a.b.yaml"), "a.b");
    assert_eq!(service_key_of(".yaml"), ".yaml");
    assert_eq!(service_key_of("noext"), "noext");
}

#[test]
fn string_equality_is_exact() {
    assert!(str_eq("abc", "abc"));
    assert!(!str_eq("abc", "abd"));
    assert!(!str_eq("abc", "ab"));
    assert!(str_eq("", ""));
}

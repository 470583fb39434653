use api_gateway::router::find_service;
use api_gateway::text::{bytes_start_with, is_concat, starts_with};
use api_gateway::{
    get_service_config, route as route_path, GatewayConfig, GatewayError, ServiceConfig, ServiceType,
};

fn route(path: &str, ty: ServiceType) -> ServiceConfig {
    ServiceConfig { path: path.to_string(), ty, target_service: String::new() }
}

#[test]
fn overlapping_prefixes_general_listed_first() {
    let services = vec![route("/a", ServiceType::Test), route("/a/b", ServiceType::Llama2)];
    let found = get_service_config("/a/b/x", &services).unwrap();
    assert_eq!(found.path, "/a");
    assert_eq!(found.ty, ServiceType::Test);
    assert_eq!(find_service("/a/b/x", &services), Some(0));
}

#[test]
fn overlapping_prefixes_specific_listed_first() {
    let services = vec![route("/a/b", ServiceType::Llama2), route("/a", ServiceType::Test)];
    let found = get_service_config("/a/b/x", &services).unwrap();
    assert_eq!(found.path, "/a/b");
    assert_eq!(found.ty, ServiceType::Llama2);
    assert_eq!(find_service("/a/b/x", &services), Some(0));
    assert_eq!(find_service("/a/c", &services), Some(1));
}

#[test]
fn specific_route_ahead_of_general_one() {
    let services = vec![
        route("/llama/v1/chat/completions", ServiceType::Llama2),
        route("/llama", ServiceType::Test),
    ];
    assert_eq!(
        get_service_config("/llama/v1/chat/completions", &services).unwrap().ty,
        ServiceType::Llama2
    );
    assert_eq!(get_service_config("/llama/other", &services).unwrap().ty, ServiceType::Test);
}

#[test]
fn unclaimed_path_finds_nothing() {
    let services = vec![route("/openai", ServiceType::Openai), route("/echo", ServiceType::Test)];
    assert!(get_service_config("/nothing", &services).is_none());
    assert_eq!(find_service("/nothing", &services), None);
    assert!(get_service_config("", &services).is_none());
}

#[test]
fn empty_registry_finds_nothing() {
    let services: Vec<ServiceConfig> = Vec::new();
    assert!(get_service_config("/a", &services).is_none());
    assert_eq!(find_service("/a", &services), None);
}

#[test]
fn path_equal_to_prefix_is_claimed() {
    let services = vec![route("/echo", ServiceType::Test)];
    assert_eq!(find_service("/echo", &services), Some(0));
}

#[test]
fn path_shorter_than_prefix_is_not_claimed() {
    let services = vec![route("/echo/deep", ServiceType::Test)];
    assert_eq!(find_service("/echo", &services), None);
}

#[test]
fn prefix_need_not_end_at_a_segment() {
    let services = vec![route("/a", ServiceType::Test)];
    assert_eq!(find_service("/ab", &services), Some(0));
}

#[test]
fn matching_is_exact_in_case() {
    let services = vec![route("/Echo", ServiceType::Test)];
    assert_eq!(find_service("/echo", &services), None);
    assert_eq!(find_service("/Echo/x", &services), Some(0));
}

#[test]
fn matching_is_exact_beyond_ascii() {
    let services = vec![route("/caf\u{e9}", ServiceType::Test), route("/caf", ServiceType::Llama2)];
    assert_eq!(find_service("/caf\u{e9}/x", &services), Some(0));
    assert_eq!(find_service("/cafe", &services), Some(1));
    assert_eq!(find_service("/ca", &services), None);
}

#[test]
fn later_route_is_found_when_earlier_ones_miss() {
    let services = vec![
        route("/x", ServiceType::Test),
        route("/y", ServiceType::Test),
        route("/z", ServiceType::Openai),
    ];
    assert_eq!(find_service("/z/1", &services), Some(2));
    assert_eq!(get_service_config("/z/1", &services).unwrap().ty, ServiceType::Openai);
}

#[test]
fn empty_prefix_claims_every_path() {
    let services = vec![route("", ServiceType::Test)];
    assert_eq!(find_service("/anything", &services), Some(0));
    assert_eq!(find_service("", &services), Some(0));
}

#[test]
fn starts_with_compares_bytes() {
    assert!(starts_with("/a/b", "/a"));
    assert!(starts_with("/a", "/a"));
    assert!(starts_with("/a", ""));
    assert!(!starts_with("/a", "/a/b"));
    assert!(!starts_with("/b/a", "/a"));
    assert!(bytes_start_with(b"abc", b"ab"));
    assert!(!bytes_start_with(b"abc", b"ac"));
    assert!(!bytes_start_with(b"ab", b"abc"));
    assert!(bytes_start_with(b"", b""));
}

#[test]
fn is_concat_wants_the_whole_text() {
    assert!(is_concat("/v1/models", "/v1", "/models"));
    assert!(!is_concat("/v1/models/x", "/v1", "/models"));
    assert!(!is_concat("/v1/model", "/v1", "/models"));
    assert!(!is_concat("/v2/models", "/v1", "/models"));
    assert!(!is_concat("/v1", "/v1/models", ""));
    assert!(is_concat("/v1", "/v1", ""));
    assert!(is_concat("", "", ""));
}

#[test]
fn registry_well_formedness() {
    let good = GatewayConfig {
        services: vec![route("/a", ServiceType::Test), route("/b", ServiceType::Openai)],
    };
    assert!(good.is_well_formed());
    let bad = GatewayConfig {
        services: vec![route("/a", ServiceType::Test), route("", ServiceType::Openai)],
    };
    assert!(!bad.is_well_formed());
    assert!(!bad.services[1].is_well_formed());
    assert!(bad.services[0].is_well_formed());
    assert!(GatewayConfig { services: Vec::new() }.is_well_formed());
}

#[test]
fn routing_miss_is_a_typed_error() {
    let services = vec![route("/a", ServiceType::Test)];
    assert_eq!(route_path("/b", &services), Err(GatewayError::RoutingMiss));
    assert_eq!(route_path("/b", &[]), Err(GatewayError::RoutingMiss));
}

#[test]
fn routing_hit_is_the_first_listed_claim() {
    let services = vec![route("/a/b", ServiceType::Llama2), route("/a", ServiceType::Test)];
    assert_eq!(route_path("/a/b/x", &services), Ok(&services[0]));
    assert_eq!(route_path("/a/x", &services), Ok(&services[1]));
}

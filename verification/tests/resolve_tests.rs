use gateway_unlock::resolve::{list_possible_gateways, resolve_candidates, RouteInfo};

fn default_route(gateway: &str) -> RouteInfo {
    RouteInfo { is_ipv4: true, prefix_len: 0, gateway: Some(gateway.to_string()) }
}

fn hosts(list: &[&str]) -> Vec<String> {
    list.iter().map(|s| s.to_string()).collect()
}

#[test]
fn explicit_hosts_bypass_discovery() {
    let routes = vec![default_route("192.168.1.1")];
    let explicit = hosts(&["10.0.0.1", "10.0.0.2"]);
    let resolved = resolve_candidates(explicit.clone(), &routes);
    assert_eq!(resolved, explicit);
}

#[test]
fn gateways_collected_in_order_without_duplicates() {
    let routes = vec![
        default_route("192.168.1.1"),
        RouteInfo { is_ipv4: false, prefix_len: 0, gateway: Some("fe80::1".to_string()) },
        RouteInfo { is_ipv4: true, prefix_len: 24, gateway: Some("10.9.9.9".to_string()) },
        RouteInfo { is_ipv4: true, prefix_len: 0, gateway: None },
        default_route("10.0.0.1"),
        default_route("192.168.1.1"),
    ];
    let resolved = resolve_candidates(Vec::new(), &routes);
    assert_eq!(
        resolved,
        hosts(&["192.168.1.1", "10.0.0.1", "192.168.124.1", "moshujia.cn"])
    );
}

#[test]
fn fallbacks_not_duplicated_first_order() {
    let routes = vec![default_route("192.168.124.1")];
    let resolved = resolve_candidates(Vec::new(), &routes);
    assert_eq!(resolved, hosts(&["192.168.124.1", "moshujia.cn"]));
}

#[test]
fn fallbacks_not_duplicated_second_order() {
    let routes = vec![default_route("moshujia.cn"), default_route("192.168.124.1")];
    let resolved = resolve_candidates(Vec::new(), &routes);
    assert_eq!(resolved, hosts(&["moshujia.cn", "192.168.124.1"]));
}

#[test]
fn empty_routing_table_leaves_fallbacks() {
    let resolved = resolve_candidates(Vec::new(), &Vec::new());
    assert_eq!(resolved, hosts(&["192.168.124.1", "moshujia.cn"]));
}

#[test]
fn resolution_is_idempotent() {
    let routes = vec![default_route("192.168.1.1"), default_route("10.0.0.1")];
    let first = resolve_candidates(Vec::new(), &routes);
    let second = resolve_candidates(Vec::new(), &routes);
    assert_eq!(first, second);
}

#[test]
fn live_discovery_holds_fallbacks_without_duplicates() {
    let discovered = list_possible_gateways();
    assert!(discovered.iter().any(|h| h == "192.168.124.1"));
    assert!(discovered.iter().any(|h| h == "moshujia.cn"));
    for i in 0..discovered.len() {
        for j in (i + 1)..discovered.len() {
            assert_ne!(discovered[i], discovered[j]);
        }
    }
}

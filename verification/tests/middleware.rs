//! Limits, quotas, keys, origins, audit records and metrics.

use nexus_node::rpc::json::JsonValue;
use nexus_node::rpc::metrics::{
    ace_a2a_negotiation_settled, ace_a2a_negotiation_started, ace_capability_denied,
    ace_plan_executed, ace_provenance_recorded, ace_session_created, proof_batch_size,
    proof_commitment_queried, proof_request_duration, proof_request_err, proof_request_ok,
    rate_limited, request_metrics, ws_connection_closed, ws_connection_opened, MetricChange,
};
use nexus_node::rpc::middleware::{
    api_key_decision, audit_record, constant_time_eq, cors_origins, quota_decision,
    rate_limit_decision, CorsOrigins, EndpointClass, FaucetAddressLimiter, IpAddress,
    LimitDecision, QuotaManager, QuotaTier, RateLimiter,
};

const NOW: u128 = 7_777_777_777_777;

const MILLISECOND: u128 = 1_000_000;

const SECOND: u128 = 1_000_000_000;

fn v4(a: u8, b: u8, c: u8, d: u8) -> IpAddress {
    IpAddress::V4([a, b, c, d])
}

#[test]
fn rate_limiter_allows_within_limit() {
    let mut limiter = RateLimiter::new(3, 60 * SECOND);
    let ip = v4(10, 0, 0, 1);

    assert_eq!(limiter.check(ip, NOW), Ok(2));
    assert_eq!(limiter.check(ip, NOW), Ok(1));
    assert_eq!(limiter.check(ip, NOW), Ok(0));
    assert!(limiter.check(ip, NOW).is_err());
}

#[test]
fn rate_limiter_isolates_ips() {
    let mut limiter = RateLimiter::new(1, 60 * SECOND);
    let ip1 = v4(10, 0, 0, 1);
    let ip2 = v4(10, 0, 0, 2);

    assert!(limiter.check(ip1, NOW).is_ok());
    assert!(limiter.check(ip1, NOW).is_err());
    assert!(limiter.check(ip2, NOW).is_ok());
}

#[test]
fn cors_layer_blocks_when_empty() {
    assert!(matches!(cors_origins(&vec![]), CorsOrigins::Closed));
}

#[test]
fn cors_layer_allows_all_with_star() {
    assert!(matches!(cors_origins(&vec!["*".to_string()]), CorsOrigins::Any));
}

#[test]
fn cors_layer_with_specific_origins() {
    match cors_origins(&vec!["https://example.com".to_string()]) {
        CorsOrigins::Listed(list) => assert_eq!(list, vec!["https://example.com".to_string()]),
        _ => panic!("expected a list"),
    }
}

#[test]
fn constant_time_eq_matches_equal() {
    assert!(constant_time_eq(b"secret-key-123", b"secret-key-123"));
}

#[test]
fn constant_time_eq_rejects_different() {
    assert!(!constant_time_eq(b"secret-key-123", b"secret-key-124"));
}

#[test]
fn constant_time_eq_rejects_different_length() {
    assert!(!constant_time_eq(b"short", b"longer-key"));
}

#[test]
fn faucet_limiter_enforces_per_address() {
    let mut limiter = FaucetAddressLimiter::new(2);
    let addr = [0xAAu8; 32];

    assert_eq!(limiter.check(&addr, NOW), Ok(1));
    assert_eq!(limiter.check(&addr, NOW), Ok(0));
    assert!(limiter.check(&addr, NOW).is_err());

    let addr2 = [0xBBu8; 32];
    assert!(limiter.check(&addr2, NOW).is_ok());
}

#[test]
fn rate_limiter_should_fail_closed_when_bucket_table_is_full() {
    let mut limiter = RateLimiter::with_max_entries(100, 3600 * SECOND, 3);

    let ip1 = v4(10, 0, 0, 1);
    let ip2 = v4(10, 0, 0, 2);
    let ip3 = v4(10, 0, 0, 3);

    assert!(limiter.check(ip1, NOW).is_ok());
    assert!(limiter.check(ip2, NOW).is_ok());
    assert!(limiter.check(ip3, NOW).is_ok());

    let ip4 = v4(10, 0, 0, 4);
    assert!(
        limiter.check(ip4, NOW).is_err(),
        "should fail-closed when bucket table is full"
    );
}

#[test]
fn faucet_limiter_should_fail_closed_when_address_table_is_full() {
    let mut limiter = FaucetAddressLimiter::with_max_entries(100, 3);

    let a1 = [0x01u8; 32];
    let a2 = [0x02u8; 32];
    let a3 = [0x03u8; 32];

    assert!(limiter.check(&a1, NOW).is_ok());
    assert!(limiter.check(&a2, NOW).is_ok());
    assert!(limiter.check(&a3, NOW).is_ok());

    let a4 = [0x04u8; 32];
    assert!(
        limiter.check(&a4, NOW).is_err(),
        "should fail-closed when address table is full"
    );
}

#[test]
fn quota_manager_resolves_tiers_from_api_key() {
    let mgr = QuotaManager::new(10, 20, 30, vec!["wl-key-1234567890abcd".into()]);

    assert_eq!(mgr.resolve_tier(None), QuotaTier::Anonymous);
    assert_eq!(
        mgr.resolve_tier(Some("ordinary-key-1234567890")),
        QuotaTier::Authenticated
    );
    assert_eq!(
        mgr.resolve_tier(Some("wl-key-1234567890abcd")),
        QuotaTier::Whitelisted
    );
}

#[test]
fn quota_manager_tracks_limits_per_tier() {
    let mut mgr = QuotaManager::new(1, 2, 3, vec!["wl-key-1234567890abcd".into()]);
    let ip = v4(10, 0, 0, 9);

    assert_eq!(
        mgr.check(ip, QuotaTier::Anonymous, EndpointClass::Query, NOW),
        Ok((0, QuotaTier::Anonymous))
    );
    assert!(mgr
        .check(ip, QuotaTier::Anonymous, EndpointClass::Query, NOW)
        .is_err());

    assert_eq!(
        mgr.check(ip, QuotaTier::Authenticated, EndpointClass::Query, NOW),
        Ok((1, QuotaTier::Authenticated))
    );
    assert_eq!(
        mgr.check(ip, QuotaTier::Authenticated, EndpointClass::Query, NOW),
        Ok((0, QuotaTier::Authenticated))
    );
    assert!(mgr
        .check(ip, QuotaTier::Authenticated, EndpointClass::Query, NOW)
        .is_err());

    assert_eq!(
        mgr.check(ip, QuotaTier::Whitelisted, EndpointClass::Query, NOW),
        Ok((2, QuotaTier::Whitelisted))
    );
}

#[test]
fn quota_manager_isolates_endpoint_classes() {
    let mut mgr = QuotaManager::new_per_class([2, 10, 10], [1, 10, 10], [3, 10, 10], vec![]);
    let ip = v4(10, 0, 0, 10);

    assert!(mgr
        .check(ip, QuotaTier::Anonymous, EndpointClass::Query, NOW)
        .is_ok());
    assert!(mgr
        .check(ip, QuotaTier::Anonymous, EndpointClass::Query, NOW)
        .is_ok());
    assert!(mgr
        .check(ip, QuotaTier::Anonymous, EndpointClass::Query, NOW)
        .is_err());

    assert!(mgr
        .check(ip, QuotaTier::Anonymous, EndpointClass::Intent, NOW)
        .is_ok());
    assert!(mgr
        .check(ip, QuotaTier::Anonymous, EndpointClass::Intent, NOW)
        .is_err());

    assert!(mgr
        .check(ip, QuotaTier::Anonymous, EndpointClass::Mcp, NOW)
        .is_ok());
    assert!(mgr
        .check(ip, QuotaTier::Anonymous, EndpointClass::Mcp, NOW)
        .is_ok());
    assert!(mgr
        .check(ip, QuotaTier::Anonymous, EndpointClass::Mcp, NOW)
        .is_ok());
    assert!(mgr
        .check(ip, QuotaTier::Anonymous, EndpointClass::Mcp, NOW)
        .is_err());
}

#[test]
fn resolve_class_maps_paths_correctly() {
    assert_eq!(
        QuotaManager::resolve_class("/v2/contract/query"),
        Some(EndpointClass::Query)
    );
    assert_eq!(
        QuotaManager::resolve_class("/v2/intent/submit"),
        Some(EndpointClass::Intent)
    );
    assert_eq!(
        QuotaManager::resolve_class("/v2/intent/estimate-gas"),
        Some(EndpointClass::Intent)
    );
    assert_eq!(
        QuotaManager::resolve_class("/v2/mcp/call"),
        Some(EndpointClass::Mcp)
    );
    assert_eq!(QuotaManager::resolve_class("/v2/health"), None);
    assert_eq!(QuotaManager::resolve_class("/v2/faucet/mint"), None);
}

#[test]
fn capacity_curve_exact_boundary_all_nine_combinations() {
    let query_rpms = [3u32, 6, 9];
    let intent_rpms = [2u32, 5, 8];
    let mcp_rpms = [4u32, 7, 10];
    let mut mgr = QuotaManager::new_per_class(query_rpms, intent_rpms, mcp_rpms, vec![]);

    let classes = [
        EndpointClass::Query,
        EndpointClass::Intent,
        EndpointClass::Mcp,
    ];
    let tiers = [
        QuotaTier::Anonymous,
        QuotaTier::Authenticated,
        QuotaTier::Whitelisted,
    ];
    let limits = [query_rpms, intent_rpms, mcp_rpms];

    for (ci, class) in classes.iter().enumerate() {
        for (ti, tier) in tiers.iter().enumerate() {
            let limit = limits[ci][ti];
            let ip = v4(10, ci as u8, ti as u8, 1);

            for req in 0..limit {
                let result = mgr.check(ip, *tier, *class, NOW);
                assert!(
                    result.is_ok(),
                    "request {req} of {limit} should be accepted"
                );
                let (remaining, resolved) = result.unwrap();
                assert_eq!(remaining, limit - req - 1);
                assert_eq!(resolved, *tier);
            }

            let result = mgr.check(ip, *tier, *class, NOW);
            assert!(
                result.is_err(),
                "request at limit should be rejected"
            );
        }
    }
}

#[test]
fn higher_tiers_have_headroom_when_lower_exhausted() {
    let mut mgr = QuotaManager::new_per_class([2, 5, 10], [2, 5, 10], [2, 5, 10], vec![]);
    let ip = v4(10, 0, 0, 1);

    assert!(mgr
        .check(ip, QuotaTier::Anonymous, EndpointClass::Query, NOW)
        .is_ok());
    assert!(mgr
        .check(ip, QuotaTier::Anonymous, EndpointClass::Query, NOW)
        .is_ok());
    assert!(mgr
        .check(ip, QuotaTier::Anonymous, EndpointClass::Query, NOW)
        .is_err());

    for _ in 0..5 {
        assert!(mgr
            .check(ip, QuotaTier::Authenticated, EndpointClass::Query, NOW)
            .is_ok());
    }
    assert!(mgr
        .check(ip, QuotaTier::Authenticated, EndpointClass::Query, NOW)
        .is_err());

    for _ in 0..10 {
        assert!(mgr
            .check(ip, QuotaTier::Whitelisted, EndpointClass::Query, NOW)
            .is_ok());
    }
    assert!(mgr
        .check(ip, QuotaTier::Whitelisted, EndpointClass::Query, NOW)
        .is_err());
}

#[test]
fn cross_class_independence_under_sustained_load() {
    let mut mgr = QuotaManager::new_per_class([3, 6, 9], [3, 6, 9], [3, 6, 9], vec![]);
    let ip = v4(10, 0, 0, 1);

    for tier in [
        QuotaTier::Anonymous,
        QuotaTier::Authenticated,
        QuotaTier::Whitelisted,
    ] {
        let limit = match tier {
            QuotaTier::Anonymous => 3,
            QuotaTier::Authenticated => 6,
            QuotaTier::Whitelisted => 9,
        };
        for _ in 0..limit {
            assert!(mgr.check(ip, tier, EndpointClass::Query, NOW).is_ok());
        }
        assert!(mgr.check(ip, tier, EndpointClass::Query, NOW).is_err());
    }

    for class in [EndpointClass::Intent, EndpointClass::Mcp] {
        for tier in [
            QuotaTier::Anonymous,
            QuotaTier::Authenticated,
            QuotaTier::Whitelisted,
        ] {
            let limit = match tier {
                QuotaTier::Anonymous => 3,
                QuotaTier::Authenticated => 6,
                QuotaTier::Whitelisted => 9,
            };
            for _ in 0..limit {
                assert!(
                    mgr.check(ip, tier, class, NOW).is_ok(),
                    "should be unaffected by Query exhaustion"
                );
            }
        }
    }
}

#[test]
fn multi_ip_capacity_curve() {
    let mut mgr = QuotaManager::new(5, 10, 20, vec![]);

    for i in 1..=10u8 {
        let ip = v4(10, 0, 0, i);
        for req in 0..5 {
            let result = mgr.check(ip, QuotaTier::Anonymous, EndpointClass::Query, NOW);
            assert!(result.is_ok(), "IP {ip:?} request {req} should pass");
            let (remaining, _) = result.unwrap();
            assert_eq!(remaining, 4 - req);
        }
        assert!(
            mgr.check(ip, QuotaTier::Anonymous, EndpointClass::Query, NOW)
                .is_err(),
            "IP {ip:?} should be throttled after 5 requests"
        );
    }
}

#[test]
fn rate_limiter_resets_after_window() {
    let mut limiter = RateLimiter::new(1, 50 * MILLISECOND);
    let ip = v4(10, 0, 0, 1);

    assert!(limiter.check(ip, NOW).is_ok());
    assert!(limiter.check(ip, NOW).is_err());
    assert_eq!(limiter.check(ip, NOW + 50 * MILLISECOND - 1), Err(1));
    assert!(limiter.check(ip, NOW + 120 * MILLISECOND).is_ok());
}

#[test]
fn quota_manager_fail_closed_at_capacity() {
    let mut mgr =
        QuotaManager::with_max_entries([100; 3], [100; 3], [100; 3], vec![], 3600 * SECOND, 3);
    for d in 1..=3 {
        assert!(mgr
            .check(v4(10, 0, 0, d), QuotaTier::Anonymous, EndpointClass::Query, NOW)
            .is_ok());
    }
    assert!(
        mgr.check(v4(10, 0, 0, 4), QuotaTier::Anonymous, EndpointClass::Query, NOW).is_err(),
        "should reject new IP when bucket table is full"
    );
}

const QUERY_RPMS: [u32; 3] = [60, 600, 3_000];
const INTENT_RPMS: [u32; 3] = [30, 300, 1_500];
const MCP_RPMS: [u32; 3] = [30, 300, 1_500];

#[test]
fn tier_matrix_enumerates_all_combinations() {
    let expected = [QUERY_RPMS, INTENT_RPMS, MCP_RPMS];
    let mut mgr = QuotaManager::new_per_class(expected[0], expected[1], expected[2], vec![]);
    let classes = [
        EndpointClass::Query,
        EndpointClass::Intent,
        EndpointClass::Mcp,
    ];
    let tiers = [
        QuotaTier::Anonymous,
        QuotaTier::Authenticated,
        QuotaTier::Whitelisted,
    ];
    for (ci, class) in classes.iter().enumerate() {
        for (ti, tier) in tiers.iter().enumerate() {
            let ip = v4(10, ci as u8 + 10, ti as u8 + 10, 1);
            let (remaining, _) = mgr.check(ip, *tier, *class, NOW).unwrap();
            assert_eq!(remaining, expected[ci][ti] - 1);
        }
    }
}

#[test]
fn config_driven_tier_resolution() {
    let mgr = QuotaManager::new_per_class(
        QUERY_RPMS,
        INTENT_RPMS,
        MCP_RPMS,
        vec!["wl-key-9876543210cd".into()],
    );

    assert_eq!(mgr.resolve_tier(None), QuotaTier::Anonymous);
    assert_eq!(
        mgr.resolve_tier(Some("auth-key-0123456789ab")),
        QuotaTier::Authenticated
    );
    assert_eq!(
        mgr.resolve_tier(Some("wl-key-9876543210cd")),
        QuotaTier::Whitelisted
    );
    assert_eq!(
        mgr.resolve_tier(Some("unknown-key-abcdef1234")),
        QuotaTier::Authenticated
    );
}

#[test]
fn a_full_table_makes_room_for_expired_entries() {
    let mut limiter = RateLimiter::with_max_entries(5, SECOND, 2);
    assert!(limiter.check(v4(1, 0, 0, 1), NOW).is_ok());
    assert!(limiter.check(v4(1, 0, 0, 2), NOW).is_ok());
    assert_eq!(limiter.check(v4(1, 0, 0, 3), NOW + SECOND - 1), Err(60 * SECOND));
    assert_eq!(limiter.check(v4(1, 0, 0, 3), NOW + SECOND), Ok(4));
}

#[test]
fn addresses_of_both_versions_are_apart() {
    let mut limiter = RateLimiter::new(1, 60 * SECOND);
    let mut six = [0u8; 16];
    six[..4].copy_from_slice(&[127, 0, 0, 1]);
    assert!(limiter.check(IpAddress::localhost(), NOW).is_ok());
    assert!(limiter.check(IpAddress::V6(six), NOW).is_ok());
    assert!(limiter.check(IpAddress::localhost(), NOW).is_err());
}

fn header(decision: &LimitDecision, name: &str) -> Option<String> {
    match decision {
        LimitDecision::PassWithHeaders(headers) => headers
            .iter()
            .find(|(k, _)| k.eq_ignore_ascii_case(name))
            .map(|(_, v)| v.clone()),
        _ => None,
    }
}

#[test]
fn requests_beyond_the_rate_are_refused() {
    let mut limiter = Some(RateLimiter::new(1, 60 * SECOND));
    let first = rate_limit_decision(&mut limiter, None, NOW);
    assert!(!matches!(first, LimitDecision::Refuse(_)));
    match rate_limit_decision(&mut limiter, None, NOW) {
        LimitDecision::Refuse(refusal) => {
            assert_eq!(refusal.status, 429);
            assert_eq!(refusal.retry_after_secs, Some(60));
        }
        _ => panic!("expected a refusal"),
    }
    match rate_limit_decision(&mut limiter, None, NOW + MILLISECOND / 2) {
        LimitDecision::Refuse(refusal) => assert_eq!(refusal.retry_after_secs, Some(59)),
        _ => panic!("expected a refusal"),
    }
    assert!(matches!(
        rate_limit_decision(&mut limiter, None, NOW + 60 * SECOND - 1),
        LimitDecision::Refuse(_)
    ));
    assert!(matches!(
        rate_limit_decision(&mut None, None, NOW),
        LimitDecision::Pass
    ));
}

#[test]
fn quotas_apply_to_writes_of_a_class() {
    let mut manager = Some(QuotaManager::new(1, 2, 3, vec![]));
    let peer = Some(v4(9, 9, 9, 9));
    let mut ask = |method: &str, path: &str, key: Option<&str>| {
        quota_decision(&mut manager, method, path, peer, key, NOW)
    };
    let passed = ask("POST", "/v2/contract/query", None);
    assert_eq!(header(&passed, "x-quota-remaining"), Some("0".to_owned()));
    assert_eq!(header(&passed, "x-quota-tier"), Some("anonymous".to_owned()));
    match ask("POST", "/v2/contract/query", None) {
        LimitDecision::Refuse(refusal) => assert_eq!(refusal.status, 429),
        _ => panic!("expected a refusal"),
    }
    assert!(matches!(ask("GET", "/v2/contract/query", None), LimitDecision::Pass));
    assert!(matches!(ask("POST", "/v2/health", None), LimitDecision::Pass));
    let keyed = ask("POST", "/v2/contract/query", Some("key"));
    assert_eq!(header(&keyed, "x-quota-remaining"), Some("1".to_owned()));
}

#[test]
fn writes_need_a_key_where_keys_are_configured() {
    let keys = vec!["secret-key".to_owned()];
    assert!(api_key_decision(&vec![], "POST", None).is_none());
    assert!(api_key_decision(&keys, "GET", None).is_none());
    assert!(api_key_decision(&keys, "POST", Some("secret-key")).is_none());
    let refusal = api_key_decision(&keys, "POST", Some("wrong")).unwrap();
    assert_eq!(refusal.status, 401);
    assert!(matches!(refusal.body, JsonValue::Object(_)));
    assert!(api_key_decision(&keys, "POST", None).is_some());
}

#[test]
fn origins_that_are_no_header_values_are_dropped() {
    let origins = vec!["https://a.example".to_owned(), "bad\norigin".to_owned()];
    match cors_origins(&origins) {
        CorsOrigins::Listed(list) => assert_eq!(list, vec!["https://a.example".to_owned()]),
        _ => panic!("expected a list"),
    }
}

#[test]
fn audit_records_fill_in_what_is_unknown() {
    let record = audit_record("POST", "/v2/tx", 200, 12, None, None, None, None);
    assert_eq!(record.ip, IpAddress::localhost());
    assert_eq!(record.method, "POST");
    assert_eq!(record.status, 200);
    assert_eq!(record.latency_ms, 12);
    let record =
        audit_record("GET", "/", 404, 1, Some(v4(1, 2, 3, 4)), Some("id-1"), Some("t"), Some("c"));
    assert_eq!(record.request_id, "id-1");
    assert_eq!(record.tier, "t");
    assert_eq!(record.endpoint_class, "c");
}

// ── metrics ──

#[test]
fn ws_gauge_operations_do_not_panic() {
    let opened = ws_connection_opened();
    assert_eq!(opened.name, "rpc_active_connections");
    assert_eq!(opened.change, MetricChange::Up);
    let closed = ws_connection_closed();
    assert_eq!(closed.name, opened.name);
    assert_eq!(closed.change, MetricChange::Down);
}

#[test]
fn rate_limited_counter_does_not_panic() {
    assert_eq!(rate_limited().name, "rpc_rate_limited_total");
    assert_eq!(rate_limited().change, MetricChange::Count);
}

#[test]
fn ace_counters_do_not_panic() {
    let names: Vec<&str> = [
        ace_session_created(),
        ace_capability_denied(),
        ace_a2a_negotiation_started(),
        ace_a2a_negotiation_settled(),
        ace_plan_executed(),
        ace_provenance_recorded(),
    ]
    .iter()
    .map(|u| u.name)
    .collect();
    assert_eq!(
        names,
        [
            "ace_sessions_created_total",
            "ace_capability_denied_total",
            "ace_a2a_negotiations_started_total",
            "ace_a2a_negotiations_settled_total",
            "ace_plans_executed_total",
            "ace_provenance_records_total",
        ]
    );
}

#[test]
fn proof_counters_do_not_panic() {
    for endpoint in ["commitment", "proof", "proofs"] {
        let update = proof_request_ok(endpoint);
        assert_eq!(update.labels[0], ("endpoint", endpoint.to_owned()));
        assert_eq!(update.labels[1], ("status", "ok".to_owned()));
    }
    assert_eq!(proof_request_err("proof").labels[1].1, "error");
    let duration = proof_request_duration("proof", 42_000);
    assert_eq!(duration.change, MetricChange::SampleNanos(42_000));
    assert_eq!(proof_batch_size(5).change, MetricChange::Sample(5));
    assert_eq!(proof_commitment_queried().name, "proof_commitment_queries_total");
}

#[test]
fn requests_are_counted_by_route() {
    let (counted, measured) = request_metrics("GET", Some("/v2/tx"), 200, 5);
    assert_eq!(counted.labels[2], ("status", "200".to_owned()));
    assert_eq!(measured.labels[1], ("path", "/v2/tx".to_owned()));
    assert_eq!(request_metrics("GET", None, 404, 5).0.labels[1].1, "unknown");
}

use block_server::resolver::{
    check_archive_redirects, check_block_height_limits, pre_block_checks, render_block_response,
    resolve_cache_observation, BlockOrResponse, ResolveStep,
};
use block_server::types::{AppState, ArchiveConfig, ChainId, Finality, ReadConfig, ServiceError};

fn fresh_latest() -> AppState {
    AppState {
        read_config: Some(ReadConfig {
            path: "./data".to_string(),
            save_every_n: 1000,
        }),
        chain_id: ChainId::Mainnet,
        genesis_block_height: 9_820_210,
        is_latest: true,
        is_fresh: true,
        archive_config: None,
        max_healthy_latency_ms: 1000,
    }
}

fn archive_node(index: usize, boundaries: Vec<u64>) -> AppState {
    AppState {
        read_config: Some(ReadConfig {
            path: "./data".to_string(),
            save_every_n: 1000,
        }),
        chain_id: ChainId::Mainnet,
        genesis_block_height: 100,
        is_latest: false,
        is_fresh: false,
        archive_config: Some(ArchiveConfig {
            archive_boundaries: boundaries,
            domain_name: "example.com".to_string(),
            archive_index: index,
        }),
        max_healthy_latency_ms: 1000,
    }
}

#[test]
fn height_below_genesis_is_typed_404() {
    let st = fresh_latest();
    let a = check_block_height_limits(9_820_209, &st).unwrap();
    assert_eq!(a.status, 404);
    assert_eq!(
        a.body,
        "{\"error\":\"Block height is before the genesis\",\"type\":\"BLOCK_HEIGHT_TOO_LOW\"}"
    );
    assert_eq!(a.cache_control.as_deref(), Some("public, max-age=86400"));
}

#[test]
fn height_too_high_is_typed_404() {
    let st = fresh_latest();
    let a = check_block_height_limits(1_000_000_000_000_001, &st).unwrap();
    assert_eq!(a.status, 404);
    assert_eq!(
        a.body,
        "{\"error\":\"Block height is too high\",\"type\":\"BLOCK_HEIGHT_TOO_HIGH\"}"
    );
    assert_eq!(a.cache_control.as_deref(), Some("public, max-age=86400"));
}

#[test]
fn height_in_range_passes() {
    let st = fresh_latest();
    assert!(check_block_height_limits(100_000_000, &st).is_none());
    assert!(check_block_height_limits(9_820_210, &st).is_none());
    assert!(check_block_height_limits(1_000_000_000_000_000, &st).is_none());
}

#[test]
fn optimistic_on_non_fresh_redirects_to_fresh_host() {
    let st = archive_node(0, vec![]);
    let a = check_archive_redirects(500, Finality::Optimistic, &st).unwrap();
    assert_eq!(a.status, 302);
    assert_eq!(
        a.location.as_deref(),
        Some("https://example.com/v0/block_opt/500")
    );
    assert_eq!(a.cache_control.as_deref(), Some("public, max-age=86400"));
}

#[test]
fn foreign_slice_redirects_to_its_archive_node() {
    let st = archive_node(1, vec![1_000, 10_000]);
    let a = check_archive_redirects(500, Finality::Final, &st).unwrap();
    assert_eq!(a.status, 302);
    assert_eq!(a.location.as_deref(), Some("https://a0.example.com/v0/block/500"));

    let a = check_archive_redirects(50_000, Finality::Final, &st).unwrap();
    assert_eq!(a.location.as_deref(), Some("https://a2.example.com/v0/block/50000"));
}

#[test]
fn owned_slice_is_served_locally() {
    let st = archive_node(1, vec![1_000, 10_000]);
    assert!(check_archive_redirects(5_000, Finality::Final, &st).is_none());
    let no_archive = fresh_latest();
    assert!(check_archive_redirects(5_000_000_000, Finality::Final, &no_archive).is_none());
}

#[test]
fn pre_checks_order_bounds_before_routing() {
    let st = archive_node(1, vec![1_000, 10_000]);
    let a = pre_block_checks(50, Finality::Final, &st).unwrap();
    assert_eq!(a.status, 404);
    let a = pre_block_checks(500, Finality::Final, &st).unwrap();
    assert_eq!(a.status, 302);
    assert!(pre_block_checks(5_000, Finality::Final, &st).is_none());
}

#[test]
fn pre_checks_route_optimistic_away_from_non_fresh() {
    let st = archive_node(0, vec![]);
    let a = pre_block_checks(500, Finality::Optimistic, &st).unwrap();
    assert_eq!(a.status, 302);
    assert_eq!(
        a.location.as_deref(),
        Some("https://example.com/v0/block_opt/500")
    );
}

#[test]
fn cached_block_resolves_done() {
    let st = fresh_latest();
    let step = resolve_cache_observation(
        &st,
        100_000_000,
        Finality::Final,
        Some("{\"block\":{\"x\":1}}".to_string()),
        Some(100_000_005),
    );
    match step {
        ResolveStep::Done(BlockOrResponse::Block(b)) => assert_eq!(b, "{\"block\":{\"x\":1}}"),
        other => panic!("unexpected step: {:?}", other),
    }
}

#[test]
fn cached_block_served_byte_for_byte() {
    let body = "{\"block\":{\"header\":{\"height\":100000000}}}".to_string();
    let a = render_block_response(body.clone());
    assert_eq!(a.status, 200);
    assert_eq!(a.body, body);
    assert_eq!(a.cache_control.as_deref(), Some("public, max-age=31536000"));
    assert_eq!(
        a.content_type.as_deref(),
        Some("application/json; charset=utf-8")
    );
}

#[test]
fn empty_block_served_as_null() {
    let a = render_block_response(String::new());
    assert_eq!(a.status, 200);
    assert_eq!(a.body, "null");
    assert_eq!(a.body.len(), 4);
    assert_eq!(a.cache_control.as_deref(), Some("public, max-age=86400"));
}

#[test]
fn missing_head_pointer_is_fatal() {
    let st = fresh_latest();
    let step = resolve_cache_observation(&st, 100_000_000, Finality::Final, None, None);
    match step {
        ResolveStep::Fail(ServiceError::CacheError(m)) => {
            assert_eq!(m, "The last block height is missing from the cache")
        }
        other => panic!("unexpected step: {:?}", other),
    }
}

#[test]
fn far_future_block_does_not_exist() {
    let st = fresh_latest();
    let step =
        resolve_cache_observation(&st, 100_000_011, Finality::Final, None, Some(100_000_000));
    match step {
        ResolveStep::Done(BlockOrResponse::Response(a)) => {
            assert_eq!(a.status, 404);
            assert_eq!(
                a.body,
                "{\"error\":\"The block is too far in the future\",\"type\":\"BLOCK_DOES_NOT_EXIST\"}"
            );
            assert!(a.cache_control.is_none());
        }
        other => panic!("unexpected step: {:?}", other),
    }
}

#[test]
fn near_future_waits_linearly_with_lag() {
    let st = fresh_latest();
    let step =
        resolve_cache_observation(&st, 100_000_003, Finality::Final, None, Some(100_000_000));
    assert_eq!(step, ResolveStep::Wait { timeout_ms: 4000 });
    let step =
        resolve_cache_observation(&st, 100_000_010, Finality::Final, None, Some(100_000_000));
    assert_eq!(step, ResolveStep::Wait { timeout_ms: 11000 });
}

#[test]
fn recent_uncached_block_is_a_cache_fault() {
    let st = fresh_latest();
    let step =
        resolve_cache_observation(&st, 99_999_995, Finality::Final, None, Some(100_000_000));
    match step {
        ResolveStep::Fail(ServiceError::CacheError(m)) => {
            assert_eq!(m, "The block is not cached")
        }
        other => panic!("unexpected step: {:?}", other),
    }
}

#[test]
fn deep_optimistic_redirects_to_final_view() {
    let st = archive_node(0, vec![]);
    let step = resolve_cache_observation(&st, 5_000, Finality::Optimistic, None, Some(9_000_000));
    match step {
        ResolveStep::Done(BlockOrResponse::Response(a)) => {
            assert_eq!(a.status, 302);
            assert_eq!(a.location.as_deref(), Some("/v0/block/5000"));
            assert_eq!(a.cache_control.as_deref(), Some("public, max-age=86400"));
        }
        other => panic!("unexpected step: {:?}", other),
    }
}

#[test]
fn node_without_files_redirects_to_furthest_slice() {
    let mut st = archive_node(1, vec![1_000, 10_000]);
    st.read_config = None;
    let step = resolve_cache_observation(&st, 5_000, Finality::Final, None, Some(9_000_000));
    match step {
        ResolveStep::Done(BlockOrResponse::Response(a)) => {
            assert_eq!(a.status, 302);
            assert_eq!(a.location.as_deref(), Some("https://a2.example.com/v0/block/5000"));
        }
        other => panic!("unexpected step: {:?}", other),
    }
}

#[test]
fn deep_final_on_reader_tries_the_archive() {
    let st = archive_node(1, vec![1_000, 10_000]);
    let step = resolve_cache_observation(&st, 5_432, Finality::Final, None, Some(9_000_000));
    match step {
        ResolveStep::TryArchive { filename } => {
            assert_eq!(filename, "./data/mainnet/000000/005/000000005000.tgz")
        }
        other => panic!("unexpected step: {:?}", other),
    }
}

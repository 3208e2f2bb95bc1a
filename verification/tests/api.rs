use block_server::api::{
    first_block_response, health_decision, health_ok_response, last_block_response,
};
use block_server::response::error_response;
use block_server::types::{
    AppState, ArchiveConfig, ChainId, Finality, ReadConfig, ServiceError,
};

fn fresh_latest() -> AppState {
    AppState {
        read_config: Some(ReadConfig {
            path: "./data".to_string(),
            save_every_n: 1000,
        }),
        chain_id: ChainId::Mainnet,
        genesis_block_height: 9_820_210,
        is_latest: true,
        is_fresh: true,
        archive_config: None,
        max_healthy_latency_ms: 1000,
    }
}

fn non_fresh() -> AppState {
    AppState {
        read_config: Some(ReadConfig {
            path: "./data".to_string(),
            save_every_n: 1000,
        }),
        chain_id: ChainId::Mainnet,
        genesis_block_height: 100,
        is_latest: false,
        is_fresh: false,
        archive_config: Some(ArchiveConfig {
            archive_boundaries: vec![1_000],
            domain_name: "example.com".to_string(),
            archive_index: 0,
        }),
        max_healthy_latency_ms: 1000,
    }
}

#[test]
fn last_block_redirects_to_current_height() {
    let st = fresh_latest();
    let a = last_block_response(&st, Finality::Final, "", Some(123_456_789)).unwrap();
    assert_eq!(a.status, 302);
    assert_eq!(a.location.as_deref(), Some("/v0/block/123456789"));
}

#[test]
fn last_block_keeps_suffix_and_finality() {
    let st = fresh_latest();
    let a = last_block_response(&st, Finality::Optimistic, "/headers", Some(42)).unwrap();
    assert_eq!(a.location.as_deref(), Some("/v0/block_opt/42/headers"));
}

#[test]
fn last_block_on_non_fresh_redirects_to_fresh_host() {
    let st = non_fresh();
    let a = last_block_response(&st, Finality::Final, "", None).unwrap();
    assert_eq!(a.status, 302);
    assert_eq!(
        a.location.as_deref(),
        Some("https://example.com/v0/last_block/final")
    );
}

#[test]
fn last_block_without_pointer_is_cache_error() {
    let st = fresh_latest();
    match last_block_response(&st, Finality::Final, "", None) {
        Err(ServiceError::CacheError(m)) => {
            assert_eq!(m, "The last block height is missing from the cache")
        }
        other => panic!("unexpected answer: {:?}", other),
    }
}

#[test]
fn first_block_local() {
    let st = fresh_latest();
    let a = first_block_response(&st);
    assert_eq!(a.status, 302);
    assert_eq!(a.location.as_deref(), Some("/v0/block/9820210"));
    assert_eq!(a.cache_control.as_deref(), Some("public, max-age=86400"));
}

#[test]
fn first_block_on_later_slice_redirects_to_slice_zero() {
    let mut st = non_fresh();
    st.archive_config.as_mut().unwrap().archive_index = 1;
    let a = first_block_response(&st);
    assert_eq!(a.location.as_deref(), Some("https://a0.example.com/v0/block/100"));
}

#[test]
fn health_not_latest_is_ok() {
    let a = health_ok_response();
    assert_eq!(a.status, 200);
    assert_eq!(a.body, "{\"status\":\"ok\"}");
}

#[test]
fn health_within_latency_is_ok() {
    let st = fresh_latest();
    let block = "{\"block\":{\"header\":{\"timestamp_nanosec\":\"1000000000\"}}}";
    // 500 ms behind the clock, bound is 1000 ms.
    let now = 1_000_000_000u128 + 500_000_000;
    let a = health_decision(&st, Some(block.to_string()), now).unwrap();
    assert_eq!(a.body, "{\"status\":\"ok\"}");
}

#[test]
fn health_beyond_latency_is_unhealthy() {
    let st = fresh_latest();
    let block = "{\"block\":{\"header\":{\"timestamp_nanosec\":\"1000000000\"}}}";
    // 1500 ms behind the clock, bound is 1000 ms.
    let now = 1_000_000_000u128 + 1_500_000_000;
    let a = health_decision(&st, Some(block.to_string()), now).unwrap();
    assert_eq!(a.status, 200);
    assert_eq!(a.body, "{\"status\":\"unhealthy\"}");
}

#[test]
fn health_missing_block_is_cache_error() {
    let st = fresh_latest();
    match health_decision(&st, None, 0) {
        Err(ServiceError::CacheError(m)) => assert_eq!(m, "The block is not cached"),
        other => panic!("unexpected answer: {:?}", other),
    }
}

#[test]
fn health_unparsable_block_is_cache_error() {
    let st = fresh_latest();
    match health_decision(&st, Some("{oops".to_string()), 0) {
        Err(ServiceError::CacheError(m)) => assert_eq!(m, "Failed to parse the block"),
        other => panic!("unexpected answer: {:?}", other),
    }
}

#[test]
fn health_missing_timestamp_is_cache_error() {
    let st = fresh_latest();
    match health_decision(&st, Some("{\"block\":{\"header\":{}}}".to_string()), 0) {
        Err(ServiceError::CacheError(m)) => assert_eq!(m, "The block is missing a timestamp"),
        other => panic!("unexpected answer: {:?}", other),
    }
}

#[test]
fn health_unreadable_timestamp_counts_as_unbounded_lag() {
    let st = fresh_latest();
    let block = "{\"block\":{\"header\":{\"timestamp_nanosec\":\"not-a-number\"}}}";
    let now = 10_000_000_000u128;
    let a = health_decision(&st, Some(block.to_string()), now).unwrap();
    assert_eq!(a.body, "{\"status\":\"unhealthy\"}");
}

#[test]
fn error_bodies() {
    let a = error_response(&ServiceError::ArgumentError);
    assert_eq!(a.status, 400);
    assert_eq!(a.body, "\"Invalid argument\"");

    let a = error_response(&ServiceError::CacheError("The block is not cached".to_string()));
    assert_eq!(a.status, 500);
    assert_eq!(a.body, "\"Cache error: The block is not cached\"");

    let a = error_response(&ServiceError::InternalDataError);
    assert_eq!(a.status, 500);
    assert_eq!(a.body, "\"Internal data error\"");
}

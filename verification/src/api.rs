//! The remaining endpoint decisions: the `last_block` and `first_block`
//! redirects and the health probe. Each one computes the full answer from
//! plain values; fetching those values is the caller's business.

use crate::cache::{finality_suffix, spec_finality_suffix};
use crate::jsonval::{
    json_as_str, json_get, json_parse, spec_json_get, spec_json_parse, spec_json_str,
};
use crate::response::{found, found_cached, ApiResponse};
use crate::text::{all_digits, parse_u128_dec, spec_dec, spec_dec_val, u64_to_dec};
use crate::types::{spec_finality_name, AppState, BlockHeight, Finality, ServiceError};
use vstd::prelude::*;
use vstd::string::StringExecFns;

verus! {

/// Answers `/v0/last_block/{finality}`: a non-fresh node sends the caller to
/// the fresh host; a fresh node that knows the head redirects to that
/// block's URL, keeping any trailing path; a fresh node with no head pointer
/// reports the cache broken.
pub fn last_block_response(
    app_state: &AppState,
    finality: Finality,
    trailing: &str,
    last_block_height: Option<BlockHeight>,
) -> (r: Result<ApiResponse, ServiceError>)
    requires
        app_state.wf(),
    ensures
        !app_state.is_fresh ==> (r matches Ok(a) && a.status == 302 && a.cache_control is None && (
        match (a.location, app_state.archive_config) {
            (Some(l), Some(ac)) => l@ == "https://"@ + ac.domain_name@ + "/v0/last_block/"@
                + spec_finality_name(finality) + trailing@,
            _ => false,
        }) && a.wf()),
        app_state.is_fresh && last_block_height is None ==> (r matches Err(
            ServiceError::CacheError(m),
        ) && m@ == "The last block height is missing from the cache"@),
        app_state.is_fresh ==> (last_block_height matches Some(h) ==> (r matches Ok(a) && a.status
            == 302 && a.cache_control is None && (a.location matches Some(l) && l@ == "/v0/block"@
            + spec_finality_suffix(finality) + "/"@ + spec_dec(h as nat) + trailing@) && a.wf())),
{
    if !app_state.is_fresh {
        let archive_config = match &app_state.archive_config {
            Some(ac) => ac,
            None => vstd::pervasive::unreached(),
        };
        let mut loc = String::from_str("https://");
        loc.append(archive_config.domain_name.as_str());
        loc.append("/v0/last_block/");
        loc.append(finality.name());
        loc.append(trailing);
        proof {
            assert(loc@ =~= "https://"@ + archive_config.domain_name@ + "/v0/last_block/"@
                + spec_finality_name(finality) + trailing@);
        }
        return Ok(found(loc));
    }
    match last_block_height {
        None => Err(
            ServiceError::CacheError(
                String::from_str("The last block height is missing from the cache"),
            ),
        ),
        Some(h) => {
            let mut loc = String::from_str("/v0/block");
            loc.append(finality_suffix(finality));
            loc.append("/");
            let d = u64_to_dec(h);
            loc.append(d.as_str());
            loc.append(trailing);
            proof {
                assert(loc@ =~= "/v0/block"@ + spec_finality_suffix(finality) + "/"@ + spec_dec(
                    h as nat,
                ) + trailing@);
            }
            Ok(found(loc))
        },
    }
}

/// Answers `/v0/first_block`: a redirect to the genesis block, cacheable for
/// a day — straight to the path on this host, unless the archive topology
/// says slice zero owns it.
pub fn first_block_response(app_state: &AppState) -> (r: ApiResponse)
    ensures
        r.status == 302,
        r.cache_control matches Some(cc) && cc@ == crate::response::spec_cache_control(
            crate::response::DAY_SECS,
        ),
        (match app_state.archive_config {
            Some(ac) => ac.archive_index != 0,
            None => false,
        }) ==> (match (r.location, app_state.archive_config) {
            (Some(l), Some(ac)) => l@ == "https://a0."@ + ac.domain_name@ + "/v0/block/"@
                + spec_dec(app_state.genesis_block_height as nat),
            _ => false,
        }),
        (match app_state.archive_config {
            Some(ac) => ac.archive_index == 0,
            None => true,
        }) ==> (r.location matches Some(l) && l@ == "/v0/block/"@ + spec_dec(
            app_state.genesis_block_height as nat,
        )),
        r.wf(),
{
    let redirect_to_first_slice = match &app_state.archive_config {
        Some(ac) => ac.archive_index != 0,
        None => false,
    };
    if redirect_to_first_slice {
        let archive_config = match &app_state.archive_config {
            Some(ac) => ac,
            None => vstd::pervasive::unreached(),
        };
        let mut loc = String::from_str("https://a0.");
        loc.append(archive_config.domain_name.as_str());
        loc.append("/v0/block/");
        let d = u64_to_dec(app_state.genesis_block_height);
        loc.append(d.as_str());
        proof {
            assert(loc@ =~= "https://a0."@ + archive_config.domain_name@ + "/v0/block/"@
                + spec_dec(app_state.genesis_block_height as nat));
        }
        found_cached(loc)
    } else {
        let mut loc = String::from_str("/v0/block/");
        let d = u64_to_dec(app_state.genesis_block_height);
        loc.append(d.as_str());
        found_cached(loc)
    }
}

/// The health answer of a node that is not serving the chain head: always
/// well.
pub fn health_ok_response() -> (r: ApiResponse)
    ensures
        r.status == 200,
        r.body@ == "{\"status\":\"ok\"}"@,
        r.content_type matches Some(ct) && ct@ == "application/json"@,
        r.cache_control is None,
        r.location is None,
        r.wf(),
{
    ApiResponse {
        status: 200,
        cache_control: None,
        content_type: Some(String::from_str("application/json")),
        location: None,
        body: String::from_str("{\"status\":\"ok\"}"),
    }
}

/// The timestamp text of a block body: the string at
/// `block.header.timestamp_nanosec`.
pub open spec fn spec_timestamp_of(v: serde_json::Value) -> Option<Seq<char>> {
    match spec_json_get(v, "block"@) {
        Some(b) => match spec_json_get(b, "header"@) {
            Some(hd) => match spec_json_get(hd, "timestamp_nanosec"@) {
                Some(ts) => spec_json_str(ts),
                None => None,
            },
            None => None,
        },
        None => None,
    }
}

/// The nanosecond reading of a timestamp text; anything unreadable counts as
/// zero, which reads as an unbounded lag.
pub open spec fn spec_timestamp_value(ts: Seq<char>) -> nat {
    if ts.len() >= 1 && all_digits(ts) && spec_dec_val(ts) <= u128::MAX {
        spec_dec_val(ts)
    } else {
        0
    }
}

/// How many milliseconds the head block lags the clock.
pub open spec fn spec_latency_ms(now_nanos: u128, t_nanos: nat) -> int {
    (if now_nanos >= t_nanos {
        now_nanos - t_nanos
    } else {
        0
    }) / 1_000_000
}

/// Decides the health answer of a latest node from the cached head block and
/// the clock: a missing or unreadable block is a cache fault; otherwise the
/// node is well exactly when the head's timestamp lags the clock by no more
/// than the configured bound.
pub fn health_decision(app_state: &AppState, block: Option<String>, now_nanos: u128) -> (r: Result<
    ApiResponse,
    ServiceError,
>)
    ensures
        block is None ==> (r matches Err(ServiceError::CacheError(m)) && m@
            == "The block is not cached"@),
        block matches Some(b) ==> match spec_json_parse(b@) {
            None => r matches Err(ServiceError::CacheError(m)) && m@
                == "Failed to parse the block"@,
            Some(v) => match spec_timestamp_of(v) {
                None => r matches Err(ServiceError::CacheError(m)) && m@
                    == "The block is missing a timestamp"@,
                Some(ts) => r matches Ok(a) && a.status == 200 && (a.content_type matches Some(ct)
                    && ct@ == "application/json"@) && a.location is None && a.body@ == (
                if spec_latency_ms(now_nanos, spec_timestamp_value(ts))
                    > app_state.max_healthy_latency_ms {
                    "{\"status\":\"unhealthy\"}"@
                } else {
                    "{\"status\":\"ok\"}"@
                }),
            },
        },
{
    let b = match block {
        Some(b) => b,
        None => {
            return Err(ServiceError::CacheError(String::from_str("The block is not cached")));
        },
    };
    let parsed = match json_parse(b.as_str()) {
        Some(v) => v,
        None => {
            return Err(ServiceError::CacheError(String::from_str("Failed to parse the block")));
        },
    };
    let ts: &str = {
        let step = match json_get(&parsed, "block") {
            Some(inner) => match json_get(inner, "header") {
                Some(hd) => match json_get(hd, "timestamp_nanosec") {
                    Some(t) => json_as_str(t),
                    None => None,
                },
                None => None,
            },
            None => None,
        };
        match step {
            Some(s) => s,
            None => {
                return Err(
                    ServiceError::CacheError(
                        String::from_str("The block is missing a timestamp"),
                    ),
                );
            },
        }
    };
    let t_nanos: u128 = match parse_u128_dec(ts) {
        Some(v) => v,
        None => 0,
    };
    let lag_nanos: u128 = if now_nanos >= t_nanos {
        now_nanos - t_nanos
    } else {
        0
    };
    let latency_ms = lag_nanos / 1_000_000;
    let body = if latency_ms > app_state.max_healthy_latency_ms {
        String::from_str("{\"status\":\"unhealthy\"}")
    } else {
        String::from_str("{\"status\":\"ok\"}")
    };
    Ok(
        ApiResponse {
            status: 200,
            cache_control: None,
            content_type: Some(String::from_str("application/json")),
            location: None,
            body,
        },
    )
}

} // verus!

//! The derived views of a block: `/headers`, `/shard/{s}` and `/chunk/{s}`
//! are rewrites of the parent block answer — a redirect grows a path segment,
//! a body is parsed and projected onto the relevant subtree.

use crate::jsonval::{
    json_as_array, json_as_u64, json_get, json_parse, json_to_text, spec_json_get, spec_json_items,
    spec_json_parse, spec_json_text, spec_json_u64,
};
use crate::response::ApiResponse;
use crate::text::{spec_dec, u64_to_dec};
use crate::types::ServiceError;
use vstd::prelude::*;
use vstd::string::StringExecFns;

verus! {

/// Whether `v` is the shard with the given id: its `shard_id` member reads
/// as that number.
pub open spec fn spec_is_shard(v: serde_json::Value, shard_id: u64) -> bool {
    spec_json_get(v, "shard_id"@) matches Some(s) && spec_json_u64(s) == Some(shard_id)
}

/// The first element carrying the given shard id, if any.
pub open spec fn spec_find_shard(items: Seq<serde_json::Value>, shard_id: u64) -> Option<
    serde_json::Value,
>
    decreases items.len(),
{
    if items.len() == 0 {
        None
    } else if spec_is_shard(items.first(), shard_id) {
        Some(items.first())
    } else {
        spec_find_shard(items.drop_first(), shard_id)
    }
}

/// The shard view of a block value: the first entry of its `shards` array
/// whose `shard_id` reads as the given id.
pub open spec fn spec_shard_of(b: serde_json::Value, shard_id: u64) -> Option<serde_json::Value> {
    match spec_json_get(b, "shards"@) {
        Some(arr) => match spec_json_items(arr) {
            Some(items) => spec_find_shard(items, shard_id),
            None => None,
        },
        None => None,
    }
}

/// The chunk view of a block value: the `chunk` member of its shard view.
pub open spec fn spec_chunk_of(b: serde_json::Value, shard_id: u64) -> Option<serde_json::Value> {
    match spec_shard_of(b, shard_id) {
        Some(sh) => spec_json_get(sh, "chunk"@),
        None => None,
    }
}

/// The headers view of a block value: its `block` member.
pub open spec fn spec_headers_of(b: serde_json::Value) -> Option<serde_json::Value> {
    spec_json_get(b, "block"@)
}

/// Finds the first element carrying the given shard id.
fn find_shard<'a>(items: &'a Vec<serde_json::Value>, shard_id: u64) -> (r: Option<
    &'a serde_json::Value,
>)
    ensures
        match r {
            Some(v) => spec_find_shard(items@, shard_id) == Some(*v),
            None => spec_find_shard(items@, shard_id) is None,
        },
{
    proof {
        assert(items@.skip(0) =~= items@);
    }
    let n = items.len();
    let mut i: usize = 0;
    while i < n
        invariant
            i <= n,
            n == items@.len(),
            spec_find_shard(items@, shard_id) == spec_find_shard(items@.skip(i as int), shard_id),
        decreases n - i,
    {
        proof {
            assert(items@.skip(i as int).first() == items@[i as int]);
            assert(items@.skip(i as int).drop_first() =~= items@.skip(i as int + 1));
        }
        let is_match = match json_get(&items[i], "shard_id") {
            Some(sid) => {
                match json_as_u64(sid) {
                    Some(id) => id == shard_id,
                    None => false,
                }
            },
            None => false,
        };
        if is_match {
            return Some(&items[i]);
        }
        i = i + 1;
    }
    None
}

/// Which derived view a request asks for.
#[derive(Debug, Clone, Copy, PartialEq, Eq, Structural)]
pub enum ViewSelector {
    Headers,
    Shard(u64),
    Chunk(u64),
}

impl ViewSelector {
    /// The path segment this view appends to a redirect target.
    pub open spec fn spec_suffix(&self) -> Seq<char> {
        match self {
            ViewSelector::Headers => "/headers"@,
            ViewSelector::Shard(s) => "/shard/"@ + spec_dec(*s as nat),
            ViewSelector::Chunk(s) => "/chunk/"@ + spec_dec(*s as nat),
        }
    }

    /// What this view projects out of a parent block value.
    pub open spec fn spec_project(&self, b: serde_json::Value) -> Option<serde_json::Value> {
        match self {
            ViewSelector::Headers => spec_headers_of(b),
            ViewSelector::Shard(s) => spec_shard_of(b, *s),
            ViewSelector::Chunk(s) => spec_chunk_of(b, *s),
        }
    }

    fn suffix(&self) -> (r: String)
        ensures
            r@ == self.spec_suffix(),
    {
        match self {
            ViewSelector::Headers => String::from_str("/headers"),
            ViewSelector::Shard(s) => {
                let mut r = String::from_str("/shard/");
                let d = u64_to_dec(*s);
                r.append(d.as_str());
                r
            },
            ViewSelector::Chunk(s) => {
                let mut r = String::from_str("/chunk/");
                let d = u64_to_dec(*s);
                r.append(d.as_str());
                r
            },
        }
    }
}

/// What the body of a projected answer reads: the compact text of the
/// projected subtree, or `null` when the subtree is absent.
pub open spec fn spec_projected_body(selector: ViewSelector, b: serde_json::Value) -> Seq<char> {
    match selector.spec_project(b) {
        Some(v) => spec_json_text(v),
        None => "null"@,
    }
}

/// Rewrites the parent block answer into a derived view: a redirect gains the
/// view's path segment, a fetched block is parsed and projected, everything
/// else passes through. An unparsable body is an internal fault.
pub fn project_view(response: ApiResponse, selector: ViewSelector) -> (r: Result<
    ApiResponse,
    ServiceError,
>)
    requires
        response.wf(),
    ensures
        response.status == 302 ==> (r matches Ok(a) && a.status == 302 && (
        match (a.location, response.location) {
            (Some(l), Some(p)) => l@ == p@ + selector.spec_suffix(),
            _ => false,
        }) && a.cache_control == response.cache_control && a.content_type == response.content_type
            && a.body == response.body && a.wf()),
        response.status == 200 ==> match spec_json_parse(response.body@) {
            Some(b) => r matches Ok(a) && a.status == 200 && a.body@ == spec_projected_body(
                selector,
                b,
            ) && a.cache_control == response.cache_control && (a.content_type matches Some(ct)
                && ct@ == "application/json"@) && a.location is None && a.wf(),
            None => r == Err::<ApiResponse, ServiceError>(ServiceError::InternalDataError),
        },
        response.status != 302 && response.status != 200 ==> r == Ok::<ApiResponse, ServiceError>(
            response,
        ),
{
    if response.status == 302 {
        let ApiResponse { status, cache_control, content_type, location, body } = response;
        let mut loc = match location {
            Some(l) => l,
            None => vstd::pervasive::unreached(),
        };
        let seg = selector.suffix();
        loc.append(seg.as_str());
        Ok(
            ApiResponse {
                status,
                cache_control,
                content_type,
                location: Some(loc),
                body,
            },
        )
    } else if response.status == 200 {
        let parsed = match json_parse(response.body.as_str()) {
            Some(b) => b,
            None => {
                return Err(ServiceError::InternalDataError);
            },
        };
        let projected: Option<&serde_json::Value> = match &selector {
            ViewSelector::Headers => json_get(&parsed, "block"),
            ViewSelector::Shard(s) => {
                match json_get(&parsed, "shards") {
                    Some(arr) => match json_as_array(arr) {
                        Some(items) => find_shard(items, *s),
                        None => None,
                    },
                    None => None,
                }
            },
            ViewSelector::Chunk(s) => {
                let shard = match json_get(&parsed, "shards") {
                    Some(arr) => match json_as_array(arr) {
                        Some(items) => find_shard(items, *s),
                        None => None,
                    },
                    None => None,
                };
                match shard {
                    Some(sh) => json_get(sh, "chunk"),
                    None => None,
                }
            },
        };
        let body = match projected {
            Some(v) => json_to_text(v),
            None => String::from_str("null"),
        };
        Ok(
            ApiResponse {
                status: 200,
                cache_control: response.cache_control,
                content_type: Some(String::from_str("application/json")),
                location: None,
                body,
            },
        )
    } else {
        Ok(response)
    }
}

} // verus!

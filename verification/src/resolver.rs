//! The block-retrieval pipeline: height bounds, archive-slice routing, and
//! the state machine that decides — from one pipelined cache observation —
//! whether a request is answered, waits, fails, or elects itself to read an
//! archive bundle.

use crate::cache::spec_finality_suffix;
use crate::reader::{archive_filename, spec_archive_filename};
use crate::response::{
    cache_control_value, found_cached, spec_cache_control, ApiResponse, DAY_SECS, YEAR_SECS,
};
use crate::text::{spec_dec, u64_to_dec};
use crate::types::{AppState, BlockHeight, Finality, ServiceError};
use vstd::prelude::*;
use vstd::string::StringExecFns;

verus! {

/// No height above this is ever served; far beyond any chain's head.
pub const MAX_BLOCK_HEIGHT: BlockHeight = 1_000_000_000_000_000;

/// How many heights below the head are expected to still sit in the cache.
pub const EXPECTED_CACHED_BLOCKS: BlockHeight = 10;

/// How far above the head a request may wait for its block instead of being
/// told the block does not exist.
pub const MAX_WAIT_BLOCKS: BlockHeight = 10;

/// How many cache observations one request may make before its driver gives
/// up: a guard against pathological wait and lock-loss loops.
pub const MAX_RESOLVE_ITERATIONS: u64 = 50;

/// Either a block body to render, or a finished answer to pass through.
#[derive(Debug, PartialEq, Eq)]
pub enum BlockOrResponse {
    Block(String),
    Response(ApiResponse),
}

/// What one cache observation tells the resolver to do next.
#[derive(Debug, PartialEq, Eq)]
pub enum ResolveStep {
    /// The request is decided.
    Done(BlockOrResponse),
    /// A fatal cache condition; surfaces as an error.
    Fail(ServiceError),
    /// Wait up to `timeout_ms` for the block to be published, then query the
    /// cache again.
    Wait { timeout_ms: u64 },
    /// Try to win the read attempt on the named archive file: the winner
    /// extracts it, a loser backs off briefly and queries the cache again.
    TryArchive { filename: String },
}

/// The path of the primary block view on the same host.
pub open spec fn spec_block_url(h: BlockHeight) -> Seq<char> {
    "/v0/block/"@ + spec_dec(h as nat)
}

fn block_url(block_height: BlockHeight) -> (r: String)
    ensures
        r@ == spec_block_url(block_height),
{
    let mut r = String::from_str("/v0/block/");
    let d = u64_to_dec(block_height);
    r.append(d.as_str());
    r
}

/// The address of the block view on the archive node of the given slice.
pub open spec fn spec_archive_node_url(index: nat, domain: Seq<char>, h: BlockHeight) -> Seq<
    char,
> {
    "https://a"@ + spec_dec(index) + "."@ + domain + "/v0/block/"@ + spec_dec(h as nat)
}

fn archive_node_url(index: u64, domain: &str, block_height: BlockHeight) -> (r: String)
    ensures
        r@ == spec_archive_node_url(index as nat, domain@, block_height),
{
    let mut r = String::from_str("https://a");
    let i = u64_to_dec(index);
    r.append(i.as_str());
    r.append(".");
    r.append(domain);
    r.append("/v0/block/");
    let d = u64_to_dec(block_height);
    r.append(d.as_str());
    proof {
        assert(r@ =~= spec_archive_node_url(index as nat, domain@, block_height));
    }
    r
}

/// A 404 answer with a typed JSON body, cacheable for a day.
fn not_found_cached(body: &'static str) -> (r: ApiResponse)
    ensures
        r.status == 404,
        r.body@ == body@,
        r.cache_control matches Some(cc) && cc@ == spec_cache_control(DAY_SECS),
        r.content_type matches Some(ct) && ct@ == "application/json"@,
        r.location is None,
        r.wf(),
{
    ApiResponse {
        status: 404,
        cache_control: Some(cache_control_value(DAY_SECS)),
        content_type: Some(String::from_str("application/json")),
        location: None,
        body: String::from_str(body),
    }
}

/// What the height-bounds check answers: a typed, day-cacheable 404 outside
/// the bounds, nothing within them.
pub open spec fn spec_height_limit_answer(
    block_height: BlockHeight,
    app_state: &AppState,
    r: Option<ApiResponse>,
) -> bool {
    if block_height > MAX_BLOCK_HEIGHT {
        r matches Some(a) && a.status == 404 && a.body@
            == "{\"error\":\"Block height is too high\",\"type\":\"BLOCK_HEIGHT_TOO_HIGH\"}"@ && (
        a.cache_control matches Some(cc) && cc@ == spec_cache_control(DAY_SECS)) && (
        a.content_type matches Some(ct) && ct@ == "application/json"@) && a.wf()
    } else if block_height < app_state.genesis_block_height {
        r matches Some(a) && a.status == 404 && a.body@
            == "{\"error\":\"Block height is before the genesis\",\"type\":\"BLOCK_HEIGHT_TOO_LOW\"}"@
            && (a.cache_control matches Some(cc) && cc@ == spec_cache_control(DAY_SECS)) && (
        a.content_type matches Some(ct) && ct@ == "application/json"@) && a.wf()
    } else {
        r is None
    }
}

/// Checks the height against the service bounds: above the absolute maximum
/// or below genesis, the request is answered at once with a typed 404,
/// cacheable for a day.
pub fn check_block_height_limits(block_height: BlockHeight, app_state: &AppState) -> (r: Option<
    ApiResponse,
>)
    ensures
        spec_height_limit_answer(block_height, app_state, r),
{
    if block_height > MAX_BLOCK_HEIGHT {
        Some(
            not_found_cached(
                "{\"error\":\"Block height is too high\",\"type\":\"BLOCK_HEIGHT_TOO_HIGH\"}",
            ),
        )
    } else if block_height < app_state.genesis_block_height {
        Some(
            not_found_cached(
                "{\"error\":\"Block height is before the genesis\",\"type\":\"BLOCK_HEIGHT_TOO_LOW\"}",
            ),
        )
    } else {
        None
    }
}

/// The slice a height belongs to: the position of the first boundary above
/// it, or the number of boundaries when none is.
pub open spec fn spec_boundary_index(boundaries: Seq<BlockHeight>, h: BlockHeight) -> int
    decreases boundaries.len(),
{
    if boundaries.len() == 0 {
        0
    } else if h < boundaries.first() {
        0
    } else {
        1 + spec_boundary_index(boundaries.drop_first(), h)
    }
}

/// A slice index is never negative and never beyond the boundary count.
pub proof fn lemma_boundary_index_range(boundaries: Seq<BlockHeight>, h: BlockHeight)
    ensures
        0 <= spec_boundary_index(boundaries, h) <= boundaries.len(),
    decreases boundaries.len(),
{
    if boundaries.len() > 0 && h >= boundaries.first() {
        lemma_boundary_index_range(boundaries.drop_first(), h);
    }
}

fn boundary_index(boundaries: &Vec<BlockHeight>, block_height: BlockHeight) -> (r: usize)
    ensures
        r == spec_boundary_index(boundaries@, block_height),
{
    proof {
        assert(boundaries@.skip(0) =~= boundaries@);
    }
    let n = boundaries.len();
    let mut i: usize = 0;
    while i < n
        invariant
            i <= n,
            n == boundaries@.len(),
            spec_boundary_index(boundaries@, block_height) == i + spec_boundary_index(
                boundaries@.skip(i as int),
                block_height,
            ),
        decreases n - i,
    {
        proof {
            assert(boundaries@.skip(i as int).first() == boundaries@[i as int]);
            assert(boundaries@.skip(i as int).drop_first() =~= boundaries@.skip(i as int + 1));
            lemma_boundary_index_range(boundaries@, block_height);
        }
        if block_height < boundaries[i] {
            return i;
        }
        i = i + 1;
    }
    i
}

/// What the slice-routing check answers: an optimistic request on a
/// non-fresh node goes to the fresh host, a height of a foreign slice goes
/// to that slice's archive node, both cacheable for a day; everything else,
/// and any node with no archive topology, passes.
pub open spec fn spec_archive_redirect_answer(
    block_height: BlockHeight,
    finality: Finality,
    app_state: &AppState,
    r: Option<ApiResponse>,
) -> bool {
    match app_state.archive_config {
        None => r is None,
        Some(ac) => {
            if !app_state.is_fresh && finality == Finality::Optimistic {
                r matches Some(a) && a.status == 302 && (a.cache_control matches Some(cc) && cc@
                    == spec_cache_control(DAY_SECS)) && (a.location matches Some(l) && l@
                    == "https://"@ + ac.domain_name@ + "/v0/block"@ + spec_finality_suffix(finality)
                    + "/"@ + spec_dec(block_height as nat)) && a.wf()
            } else if spec_boundary_index(ac.archive_boundaries@, block_height)
                != ac.archive_index as int {
                r matches Some(a) && a.status == 302 && (a.cache_control matches Some(cc) && cc@
                    == spec_cache_control(DAY_SECS)) && (a.location matches Some(l) && l@
                    == spec_archive_node_url(
                    spec_boundary_index(ac.archive_boundaries@, block_height) as nat,
                    ac.domain_name@,
                    block_height,
                )) && a.wf()
            } else {
                r is None
            }
        },
    }
}

/// Routes a request away from this node when another owes the answer: an
/// optimistic request on a non-fresh node goes to the fresh host, and a
/// height of a foreign slice goes to that slice's archive node. Both
/// redirects are cacheable for a day. A node with no archive topology never
/// redirects here.
pub fn check_archive_redirects(
    block_height: BlockHeight,
    finality: Finality,
    app_state: &AppState,
) -> (r: Option<ApiResponse>)
    ensures
        spec_archive_redirect_answer(block_height, finality, app_state, r),
{
    match &app_state.archive_config {
        None => None,
        Some(archive_config) => {
            if !app_state.is_fresh && finality == Finality::Optimistic {
                let mut loc = String::from_str("https://");
                loc.append(archive_config.domain_name.as_str());
                loc.append("/v0/block");
                loc.append(crate::cache::finality_suffix(finality));
                loc.append("/");
                let d = u64_to_dec(block_height);
                loc.append(d.as_str());
                proof {
                    assert(loc@ =~= "https://"@ + archive_config.domain_name@ + "/v0/block"@
                        + spec_finality_suffix(finality) + "/"@ + spec_dec(block_height as nat));
                }
                return Some(found_cached(loc));
            }
            proof {
                lemma_boundary_index_range(archive_config.archive_boundaries@, block_height);
            }
            let index = boundary_index(&archive_config.archive_boundaries, block_height);
            if index != archive_config.archive_index {
                let loc = archive_node_url(
                    index as u64,
                    archive_config.domain_name.as_str(),
                    block_height,
                );
                Some(found_cached(loc))
            } else {
                None
            }
        },
    }
}

/// The answer owed before any cache traffic, if the request never reaches
/// the cache: the height bounds answer first, the slice routing answer
/// second, nothing when the request is this node's to resolve.
pub fn pre_block_checks(
    block_height: BlockHeight,
    finality: Finality,
    app_state: &AppState,
) -> (r: Option<ApiResponse>)
    ensures
        block_height > MAX_BLOCK_HEIGHT || block_height < app_state.genesis_block_height
            ==> spec_height_limit_answer(block_height, app_state, r),
        app_state.genesis_block_height <= block_height <= MAX_BLOCK_HEIGHT
            ==> spec_archive_redirect_answer(block_height, finality, app_state, r),
        r is None ==> app_state.genesis_block_height <= block_height <= MAX_BLOCK_HEIGHT,
{
    match check_block_height_limits(block_height, app_state) {
        Some(a) => Some(a),
        None => check_archive_redirects(block_height, finality, app_state),
    }
}

/// What the resolver does when the block is missing but the head of the
/// cache is known.
pub open spec fn spec_not_cached_step(
    app_state: &AppState,
    h: BlockHeight,
    finality: Finality,
    last: BlockHeight,
    r: ResolveStep,
) -> bool {
    if app_state.is_latest && h > last + MAX_WAIT_BLOCKS {
        // Far future: the block cannot exist yet; not cacheable.
        r matches ResolveStep::Done(BlockOrResponse::Response(a)) && a.status == 404 && a.body@
            == "{\"error\":\"The block is too far in the future\",\"type\":\"BLOCK_DOES_NOT_EXIST\"}"@
            && a.cache_control is None && (a.content_type matches Some(ct) && ct@
            == "application/json"@) && a.wf()
    } else if app_state.is_latest && h > last {
        // Near future: wait for the publish signal, growing with the lag.
        r == (ResolveStep::Wait { timeout_ms: (1000 * (h - last + 1)) as u64 })
    } else if app_state.is_latest && h + EXPECTED_CACHED_BLOCKS > last {
        // Should be cached but is not: skew with the writer.
        r matches ResolveStep::Fail(ServiceError::CacheError(m)) && m@ == "The block is not cached"@
    } else if finality == Finality::Optimistic {
        // Optimistic history is never read from disk: point at the final view.
        r matches ResolveStep::Done(BlockOrResponse::Response(a)) && a.status == 302 && (
        a.cache_control matches Some(cc) && cc@ == spec_cache_control(DAY_SECS)) && (
        a.location matches Some(l) && l@ == spec_block_url(h)) && a.wf()
    } else if app_state.read_config is None {
        // This node cannot read files: point at the furthest archive slice.
        r matches ResolveStep::Done(BlockOrResponse::Response(a)) && a.status == 302 && (
        a.cache_control matches Some(cc) && cc@ == spec_cache_control(DAY_SECS)) && (match (
        a.location,
        app_state.archive_config,
        ) {
            (Some(l), Some(ac)) => l@ == spec_archive_node_url(
                ac.archive_boundaries@.len(),
                ac.domain_name@,
                h,
            ),
            _ => false,
        }) && a.wf()
    } else {
        // Deep history on a reader node: elect a reader for the bundle.
        r matches ResolveStep::TryArchive { filename } && (
        match app_state.read_config {
            Some(rc) => filename@ == spec_archive_filename(&rc, app_state.chain_id, h),
            None => false,
        })
    }
}

/// Decides the next step from one pipelined cache observation: a cached
/// block answers the request; a cache with no head pointer is broken; and a
/// missing block branches on how far the height lies from the head and on
/// what this node is allowed to do.
pub fn resolve_cache_observation(
    app_state: &AppState,
    block_height: BlockHeight,
    finality: Finality,
    block: Option<String>,
    last_block_height: Option<BlockHeight>,
) -> (r: ResolveStep)
    requires
        app_state.wf(),
        block_height <= MAX_BLOCK_HEIGHT,
    ensures
        block matches Some(b) ==> r == ResolveStep::Done(BlockOrResponse::Block(b)),
        block is None && last_block_height is None ==> (r matches ResolveStep::Fail(
            ServiceError::CacheError(m),
        ) && m@ == "The last block height is missing from the cache"@),
        block is None ==> (last_block_height matches Some(last) ==> spec_not_cached_step(
            app_state,
            block_height,
            finality,
            last,
            r,
        )),
{
    match (block, last_block_height) {
        (Some(b), _) => ResolveStep::Done(BlockOrResponse::Block(b)),
        (None, None) => ResolveStep::Fail(
            ServiceError::CacheError(
                String::from_str("The last block height is missing from the cache"),
            ),
        ),
        (None, Some(last)) => {
            if app_state.is_latest {
                if last < block_height && block_height - last > MAX_WAIT_BLOCKS {
                    return ResolveStep::Done(
                        BlockOrResponse::Response(
                            ApiResponse {
                                status: 404,
                                cache_control: None,
                                content_type: Some(String::from_str("application/json")),
                                location: None,
                                body: String::from_str(
                                    "{\"error\":\"The block is too far in the future\",\"type\":\"BLOCK_DOES_NOT_EXIST\"}",
                                ),
                            },
                        ),
                    );
                }
                if block_height > last {
                    return ResolveStep::Wait {
                        timeout_ms: 1000 * (block_height - last + 1),
                    };
                }
                if block_height + EXPECTED_CACHED_BLOCKS > last {
                    return ResolveStep::Fail(
                        ServiceError::CacheError(String::from_str("The block is not cached")),
                    );
                }
            }
            if finality == Finality::Optimistic {
                return ResolveStep::Done(
                    BlockOrResponse::Response(found_cached(block_url(block_height))),
                );
            }
            match &app_state.read_config {
                None => {
                    let archive_config = match &app_state.archive_config {
                        Some(ac) => ac,
                        None => vstd::pervasive::unreached(),
                    };
                    let loc = archive_node_url(
                        archive_config.archive_boundaries.len() as u64,
                        archive_config.domain_name.as_str(),
                        block_height,
                    );
                    ResolveStep::Done(BlockOrResponse::Response(found_cached(loc)))
                },
                Some(read_config) => {
                    let filename = archive_filename(read_config, app_state.chain_id, block_height);
                    ResolveStep::TryArchive { filename }
                },
            }
        },
    }
}

/// The content filed under one height of a dense bundle run: the first entry
/// at that height, if the run has one.
pub open spec fn spec_block_at_height(
    blocks: Seq<(BlockHeight, Option<String>)>,
    h: BlockHeight,
) -> Option<Option<String>>
    decreases blocks.len(),
{
    if blocks.len() == 0 {
        None
    } else if blocks.first().0 == h {
        Some(blocks.first().1)
    } else {
        spec_block_at_height(blocks.drop_first(), h)
    }
}

/// Picks the block body for one height out of a bundle run; a height the
/// bundle knows nothing at yields the empty tombstone body.
pub fn block_from_bundle(
    blocks: &Vec<(BlockHeight, Option<String>)>,
    block_height: BlockHeight,
) -> (r: Option<String>)
    ensures
        match spec_block_at_height(blocks@, block_height) {
            Some(Some(c)) => r == Some(c),
            Some(None) => r matches Some(e) && e@.len() == 0,
            None => r is None,
        },
{
    proof {
        assert(blocks@.skip(0) =~= blocks@);
    }
    let n = blocks.len();
    let mut i: usize = 0;
    while i < n
        invariant
            i <= n,
            n == blocks@.len(),
            spec_block_at_height(blocks@, block_height) == spec_block_at_height(
                blocks@.skip(i as int),
                block_height,
            ),
        decreases n - i,
    {
        proof {
            assert(blocks@.skip(i as int).first() == blocks@[i as int]);
            assert(blocks@.skip(i as int).drop_first() =~= blocks@.skip(i as int + 1));
        }
        if blocks[i].0 == block_height {
            let r = match &blocks[i].1 {
                Some(c) => c.clone(),
                None => String::new(),
            };
            return Some(r);
        }
        i = i + 1;
    }
    None
}

/// Renders a resolved block body: a non-empty body is served as it was
/// cached, cacheable for a year; the empty tombstone is served as the JSON
/// `null`, cacheable for a day.
pub fn render_block_response(block: String) -> (r: ApiResponse)
    ensures
        r.status == 200,
        r.content_type matches Some(ct) && ct@ == "application/json; charset=utf-8"@,
        r.location is None,
        r.wf(),
        block@.len() > 0 ==> r.body == block && (r.cache_control matches Some(cc) && cc@
            == spec_cache_control(YEAR_SECS)),
        block@.len() == 0 ==> r.body@ == "null"@ && (r.cache_control matches Some(cc) && cc@
            == spec_cache_control(DAY_SECS)),
{
    let empty = block.as_str().is_empty();
    let (body, secs): (String, u64) = if empty {
        (String::from_str("null"), DAY_SECS)
    } else {
        (block, YEAR_SECS)
    };
    ApiResponse {
        status: 200,
        cache_control: Some(cache_control_value(secs)),
        content_type: Some(String::from_str("application/json; charset=utf-8")),
        location: None,
        body,
    }
}

} // verus!

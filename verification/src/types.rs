//! Core data model: chains, finality views, node configuration, and the
//! service-level error taxonomy.

use vstd::prelude::*;

verus! {

/// Height of a block on the chain.
pub type BlockHeight = u64;

/// The chain this node serves. Rendered as the lower-case tag in cache keys
/// and file paths.
#[derive(Debug, Clone, Copy, PartialEq, Eq, Structural)]
pub enum ChainId {
    Mainnet,
    Testnet,
}

/// How the name of a chain reads in keys, paths and URLs.
pub open spec fn spec_chain_name(c: ChainId) -> Seq<char> {
    match c {
        ChainId::Mainnet => "mainnet"@,
        ChainId::Testnet => "testnet"@,
    }
}

impl ChainId {
    /// The lower-case tag of the chain.
    pub fn name(&self) -> (r: &'static str)
        ensures
            r@ == spec_chain_name(*self),
    {
        match self {
            ChainId::Mainnet => "mainnet",
            ChainId::Testnet => "testnet",
        }
    }

    /// Parses the lower-case tag; any other text is rejected.
    pub fn try_from_str(value: &str) -> (r: Option<ChainId>)
        ensures
            value@ == spec_chain_name(ChainId::Mainnet) ==> r == Some(ChainId::Mainnet),
            value@ == spec_chain_name(ChainId::Testnet) ==> r == Some(ChainId::Testnet),
            value@ != spec_chain_name(ChainId::Mainnet) && value@ != spec_chain_name(
                ChainId::Testnet,
            ) ==> r is None,
    {
        let v = value.to_owned();
        if v.eq(&String::from_str("mainnet")) {
            proof {
                mainnet_testnet_distinct();
            }
            Some(ChainId::Mainnet)
        } else if v.eq(&String::from_str("testnet")) {
            Some(ChainId::Testnet)
        } else {
            None
        }
    }
}

/// The two tags cannot name the same chain.
proof fn mainnet_testnet_distinct()
    ensures
        "mainnet"@ != "testnet"@,
{
    reveal_strlit("mainnet");
    reveal_strlit("testnet");
    assert("mainnet"@[0] == 'm' && "testnet"@[0] == 't');
}

/// Whether a block is canonical (`Final`) or tentative (`Optimistic`).
#[derive(Debug, Clone, Copy, PartialEq, Eq, Structural)]
pub enum Finality {
    Final,
    Optimistic,
}

/// How a finality reads as a URL path segment: `final` or `optimistic`.
pub open spec fn spec_finality_name(f: Finality) -> Seq<char> {
    match f {
        Finality::Final => "final"@,
        Finality::Optimistic => "optimistic"@,
    }
}

impl Finality {
    /// The URL path segment of the finality.
    pub fn name(&self) -> (r: &'static str)
        ensures
            r@ == spec_finality_name(*self),
    {
        match self {
            Finality::Final => "final",
            Finality::Optimistic => "optimistic",
        }
    }

    /// Parses the URL path segment; any other text is rejected.
    pub fn try_from_str(value: &str) -> (r: Option<Finality>)
        ensures
            value@ == spec_finality_name(Finality::Final) ==> r == Some(Finality::Final),
            value@ == spec_finality_name(Finality::Optimistic) ==> r == Some(
                Finality::Optimistic,
            ),
            value@ != spec_finality_name(Finality::Final) && value@ != spec_finality_name(
                Finality::Optimistic,
            ) ==> r is None,
    {
        let v = value.to_owned();
        if v.eq(&String::from_str("final")) {
            proof {
                final_optimistic_distinct();
            }
            Some(Finality::Final)
        } else if v.eq(&String::from_str("optimistic")) {
            Some(Finality::Optimistic)
        } else {
            None
        }
    }
}

/// The two segments cannot name the same finality.
proof fn final_optimistic_distinct()
    ensures
        "final"@ != "optimistic"@,
{
    reveal_strlit("final");
    reveal_strlit("optimistic");
    assert("final"@.len() == 5 && "optimistic"@.len() == 10);
}

/// Where archive bundles live on disk and how many consecutive heights one
/// bundle covers.
#[derive(Debug, Clone)]
pub struct ReadConfig {
    pub path: String,
    pub save_every_n: u64,
}

/// The slice of history this node owns and how to address its siblings.
#[derive(Debug, Clone)]
pub struct ArchiveConfig {
    /// Ascending heights splitting history into slices.
    pub archive_boundaries: Vec<BlockHeight>,
    pub domain_name: String,
    /// Index of the slice this node serves: slice `i` covers heights from
    /// boundary `i - 1` (or genesis) up to boundary `i` (exclusive); index
    /// `len` covers everything from the last boundary to the chain head.
    pub archive_index: usize,
}

/// Immutable per-process configuration of the node.
#[derive(Debug, Clone)]
pub struct AppState {
    pub read_config: Option<ReadConfig>,
    pub chain_id: ChainId,
    pub genesis_block_height: BlockHeight,
    /// Whether this node has the latest blocks and uses archive files.
    pub is_latest: bool,
    /// Whether this node has the freshest blocks, but doesn't use archive files.
    pub is_fresh: bool,
    pub archive_config: Option<ArchiveConfig>,
    pub max_healthy_latency_ms: u128,
}

impl AppState {
    /// What a deployable configuration guarantees: a reader knows its bundle
    /// size, and a node that cannot answer locally knows where to send the
    /// caller instead.
    pub open spec fn wf(&self) -> bool {
        &&& (self.read_config matches Some(rc) ==> rc.save_every_n > 0)
        &&& (self.read_config is None ==> self.archive_config is Some)
        &&& (!self.is_fresh ==> self.archive_config is Some)
    }
}

/// The closed set of failures a request can surface.
#[derive(Debug, Clone, PartialEq, Eq)]
pub enum ServiceError {
    /// Malformed path parameter.
    ArgumentError,
    /// Cache failures after retries, missing pointer, pipeline failures.
    CacheError(String),
    /// JSON parse failure on a cached block.
    InternalDataError,
}

} // verus!

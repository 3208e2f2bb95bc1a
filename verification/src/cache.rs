//! The cache protocol: key schema, TTLs, and the retry schedule. The network
//! round trips themselves happen outside the library; every key they use is
//! built here.

use crate::text::{spec_dec, u64_to_dec};
use crate::types::{spec_chain_name, BlockHeight, ChainId, Finality};
use vstd::prelude::*;
use vstd::string::StringExecFns;

verus! {

/// Seconds a backfilled block entry stays in the cache.
pub const CACHE_EXPIRATION_SECS: u64 = 60;

/// Hard timeout of a single cache attempt, in milliseconds.
pub const REDIS_TIMEOUT_MS: u64 = 5000;

/// Seconds an archive read-attempt lock lives: long enough to cover one
/// extraction, short enough to recover from a crashed winner.
pub const ARCHIVE_LOCK_TTL_SECS: u64 = 3;

/// Most attempts a retried cache operation makes before surfacing its error.
pub const MAX_RETRY_ATTEMPTS: u64 = 7;

/// Delay before the second cache attempt, in milliseconds; it doubles on each
/// further attempt.
pub const INITIAL_RETRY_DELAY_MS: u64 = 100;

/// Milliseconds a loser of the archive-lock race sleeps before re-querying.
pub const ARCHIVE_BACKOFF_MS: u64 = 100;

/// The key suffix of a finality: empty for `Final`, `_opt` for `Optimistic`.
pub open spec fn spec_finality_suffix(f: Finality) -> Seq<char> {
    match f {
        Finality::Final => ""@,
        Finality::Optimistic => "_opt"@,
    }
}

/// The suffix a finality contributes to cache keys and URL paths.
pub fn finality_suffix(finality: Finality) -> (r: &'static str)
    ensures
        r@ == spec_finality_suffix(finality),
{
    match finality {
        Finality::Final => "",
        Finality::Optimistic => "_opt",
    }
}

/// The key under which the body of one block is cached.
pub open spec fn spec_block_key(chain_id: ChainId, block_height: BlockHeight, f: Finality) -> Seq<
    char,
> {
    "b:"@ + spec_chain_name(chain_id) + spec_finality_suffix(f) + ":"@ + spec_dec(
        block_height as nat,
    )
}

/// Builds the cache key of one block body.
pub fn block_key(chain_id: ChainId, block_height: BlockHeight, finality: Finality) -> (r: String)
    ensures
        r@ == spec_block_key(chain_id, block_height, finality),
{
    let mut r = String::from_str("b:");
    r.append(chain_id.name());
    r.append(finality_suffix(finality));
    r.append(":");
    let h = u64_to_dec(block_height);
    r.append(h.as_str());
    proof {
        assert(r@ =~= spec_block_key(chain_id, block_height, finality));
    }
    r
}

/// Appending to a common front leaves equal sequences exactly when the
/// appended parts are equal.
proof fn lemma_append_cancel_left(a: Seq<char>, b: Seq<char>, c: Seq<char>)
    requires
        a + b == a + c,
    ensures
        b == c,
{
    assert((a + b).len() == a.len() + b.len());
    assert((a + c).len() == a.len() + c.len());
    assert(b.len() == c.len());
    assert forall|i: int| 0 <= i < b.len() implies b[i] == c[i] by {
        assert((a + b)[a.len() + i] == b[i]);
        assert((a + c)[a.len() + i] == c[i]);
    }
    assert(b =~= c);
}

/// One block key per (chain, finality, height): two different triples never
/// collide in the cache.
pub proof fn lemma_block_key_unique(
    c1: ChainId,
    f1: Finality,
    h1: BlockHeight,
    c2: ChainId,
    f2: Finality,
    h2: BlockHeight,
)
    requires
        c1 != c2 || f1 != f2 || h1 != h2,
    ensures
        spec_block_key(c1, h1, f1) != spec_block_key(c2, h2, f2),
{
    reveal_strlit("b:");
    reveal_strlit("mainnet");
    reveal_strlit("testnet");
    reveal_strlit("");
    reveal_strlit("_opt");
    reveal_strlit(":");
    let k1 = spec_block_key(c1, h1, f1);
    let k2 = spec_block_key(c2, h2, f2);
    if c1 != c2 {
        // The chains differ in their very first character.
        assert(k1[2] == spec_chain_name(c1)[0]);
        assert(k2[2] == spec_chain_name(c2)[0]);
        assert(k1 != k2);
    } else if f1 != f2 {
        // Behind the chain tag, one key reads the colon where the other
        // reads the underscore of `_opt`.
        assert(spec_chain_name(c1).len() == 7);
        assert(spec_finality_suffix(f1).len() == 0 || spec_finality_suffix(f1).len() == 4);
        assert(k1.len() >= 10 && k2.len() >= 10);
        if f1 == Finality::Final {
            assert(k1[9] == ':');
            assert(k2[9] == '_');
        } else {
            assert(k1[9] == '_');
            assert(k2[9] == ':');
        }
        assert(k1 != k2);
    } else {
        // Same chain and finality: the rendered heights must differ.
        crate::text::lemma_dec_injective(h1 as nat, h2 as nat);
        let prefix = "b:"@ + spec_chain_name(c1) + spec_finality_suffix(f1) + ":"@;
        if k1 == k2 {
            lemma_append_cancel_left(prefix, spec_dec(h1 as nat), spec_dec(h2 as nat));
        }
        assert(k1 != k2);
    }
}

/// The key of the greatest height the upstream indexer has published.
pub open spec fn spec_last_block_key(chain_id: ChainId, f: Finality) -> Seq<char> {
    "meta:"@ + spec_chain_name(chain_id) + spec_finality_suffix(f) + ":last_block"@
}

/// Builds the key of the last-published-height pointer.
pub fn last_block_key(chain_id: ChainId, finality: Finality) -> (r: String)
    ensures
        r@ == spec_last_block_key(chain_id, finality),
{
    let mut r = String::from_str("meta:");
    r.append(chain_id.name());
    r.append(finality_suffix(finality));
    r.append(":last_block");
    proof {
        assert(r@ =~= spec_last_block_key(chain_id, finality));
    }
    r
}

/// The publish/subscribe channel announcing the arrival of one block.
pub open spec fn spec_notify_key(chain_id: ChainId, block_height: BlockHeight, f: Finality) -> Seq<
    char,
> {
    "notify:"@ + spec_chain_name(chain_id) + spec_finality_suffix(f) + ":"@ + spec_dec(
        block_height as nat,
    )
}

/// Builds the per-height notification channel name.
pub fn notify_key(chain_id: ChainId, block_height: BlockHeight, finality: Finality) -> (r: String)
    ensures
        r@ == spec_notify_key(chain_id, block_height, finality),
{
    let mut r = String::from_str("notify:");
    r.append(chain_id.name());
    r.append(finality_suffix(finality));
    r.append(":");
    let h = u64_to_dec(block_height);
    r.append(h.as_str());
    proof {
        assert(r@ =~= spec_notify_key(chain_id, block_height, finality));
    }
    r
}

/// The key of the attempt lock electing one reader per archive file.
pub open spec fn spec_archive_lock_key(filename: Seq<char>) -> Seq<char> {
    "lock:archive:"@ + filename
}

/// Builds the attempt-lock key for one archive file.
pub fn archive_lock_key(filename: &str) -> (r: String)
    ensures
        r@ == spec_archive_lock_key(filename@),
{
    let mut r = String::from_str("lock:archive:");
    r.append(filename);
    r
}

/// Doubles the back-off delay between two cache attempts.
pub fn next_retry_delay_ms(delay_ms: u64) -> (r: u64)
    requires
        delay_ms <= u64::MAX / 2,
    ensures
        r == 2 * delay_ms,
{
    delay_ms * 2
}

} // verus!

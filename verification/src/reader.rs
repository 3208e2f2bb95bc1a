//! The archive reader: the path formula for bundle files, and the projection
//! of one unpacked bundle onto the dense run of heights it covers.

use crate::text::{
    lemma_dec_pad_ascii, spec_dec_pad, u64_to_dec_pad,
};
use crate::types::{spec_chain_name, BlockHeight, ChainId, ReadConfig};
use vstd::prelude::*;
use vstd::string::StrSliceExecFns;
use vstd::string::StringExecFns;

verus! {

/// The first height of the bundle that covers `h`.
pub open spec fn spec_bundle_start(save_every_n: u64, h: BlockHeight) -> int {
    (h as int / save_every_n as int) * save_every_n as int
}

/// The path of the bundle covering `h`:
/// `<path>/<chain>/<AAAAAA>/<BBB>/<AAAAAABBBCCC>.tgz`, where `AAAAAABBBCCC`
/// is the first height of the bundle zero-padded to twelve digits.
pub open spec fn spec_archive_filename(
    config: &ReadConfig,
    chain_id: ChainId,
    h: BlockHeight,
) -> Seq<char> {
    let p = spec_dec_pad(spec_bundle_start(config.save_every_n, h) as nat, 12);
    config.path@ + "/"@ + spec_chain_name(chain_id) + "/"@ + p.subrange(0, 6) + "/"@ + p.subrange(
        6,
        9,
    ) + "/"@ + p + ".tgz"@
}

/// Builds the path of the bundle file covering `block_height`.
pub fn archive_filename(config: &ReadConfig, chain_id: ChainId, block_height: BlockHeight) -> (r:
    String)
    requires
        config.save_every_n > 0,
    ensures
        r@ == spec_archive_filename(config, chain_id, block_height),
{
    proof {
        lemma_bundle_start_le(config.save_every_n, block_height);
    }
    let starting_block = block_height / config.save_every_n * config.save_every_n;
    let padded = u64_to_dec_pad(starting_block, 12);
    proof {
        lemma_dec_pad_ascii(starting_block as nat, 12);
    }
    let mut r = config.path.clone();
    r.append("/");
    r.append(chain_id.name());
    r.append("/");
    r.append(padded.as_str().substring_ascii(0, 6));
    r.append("/");
    r.append(padded.as_str().substring_ascii(6, 9));
    r.append("/");
    r.append(padded.as_str());
    r.append(".tgz");
    proof {
        assert(r@ =~= spec_archive_filename(config, chain_id, block_height));
    }
    r
}

/// A bundle starts at or below every height it covers.
pub proof fn lemma_bundle_start_le(save_every_n: u64, h: BlockHeight)
    requires
        save_every_n > 0,
    ensures
        0 <= spec_bundle_start(save_every_n, h) <= h,
{
    assert(0 <= (h as int / save_every_n as int) * save_every_n as int <= h as int)
        by (nonlinear_arith)
        requires
            save_every_n > 0,
            h >= 0,
    ;
}

/// All requests for heights of one bundle name the identical archive path.
pub proof fn lemma_archive_filename_idempotent(
    config: &ReadConfig,
    chain_id: ChainId,
    h1: BlockHeight,
    h2: BlockHeight,
)
    requires
        config.save_every_n > 0,
        h1 as int / config.save_every_n as int == h2 as int / config.save_every_n as int,
    ensures
        spec_archive_filename(config, chain_id, h1) == spec_archive_filename(config, chain_id, h2),
{
}

/// What one `.tgz` bundle unpacks to: the entry names and contents in archive
/// order, or nothing when the bytes are not a well-formed gzipped tar of
/// UTF-8 files. Determined by the bytes alone.
pub uninterp spec fn spec_archive_entries(bytes: Seq<u8>) -> Option<Seq<(Seq<char>, Seq<char>)>>;

/// Relies on `flate2::read::GzDecoder` and `tar::Archive`: streams the
/// gzipped tar and collects each entry's path and contents, in archive order;
/// any decode, path or read error rejects the whole bundle.
#[verifier::external_body]
fn unpack_tgz(bytes: &[u8]) -> (r: Option<Vec<(String, String)>>)
    ensures
        r is Some <==> spec_archive_entries(bytes@) is Some,
        r matches Some(v) ==> v.deep_view() == spec_archive_entries(bytes@).unwrap(),
{
    let mut out = Vec::new();
    for e in tar::Archive::new(flate2::read::GzDecoder::new(bytes)).entries().ok()? {
        let mut e = e.ok()?;
        let name = e.path().ok()?.to_string_lossy().to_string();
        let mut content = String::new();
        std::io::Read::read_to_string(&mut e, &mut content).ok()?;
        out.push((name, content));
    }
    Some(out)
}

/// The content of the last entry named `name`, if any.
pub open spec fn spec_entry_lookup(
    entries: Seq<(Seq<char>, Seq<char>)>,
    name: Seq<char>,
) -> Option<Seq<char>>
    decreases entries.len(),
{
    if entries.len() == 0 {
        None
    } else if entries.last().0 == name {
        Some(entries.last().1)
    } else {
        spec_entry_lookup(entries.drop_last(), name)
    }
}

/// Finds the content filed under `name` in an unpacked bundle; when a name
/// repeats, the entry unpacked last wins.
fn bundle_entry(entries: &Vec<(String, String)>, name: &String) -> (r: Option<String>)
    ensures
        match r {
            Some(c) => spec_entry_lookup(entries.deep_view(), name@) == Some(c@),
            None => spec_entry_lookup(entries.deep_view(), name@) is None,
        },
{
    proof {
        assert(entries.deep_view().subrange(0, entries.deep_view().len() as int) =~= entries
            .deep_view());
    }
    let mut i = entries.len();
    while i > 0
        invariant
            i <= entries.len(),
            spec_entry_lookup(entries.deep_view(), name@) == spec_entry_lookup(
                entries.deep_view().subrange(0, i as int),
                name@,
            ),
        decreases i,
    {
        i = i - 1;
        proof {
            assert(entries.deep_view().subrange(0, i as int + 1).drop_last() =~= entries
                .deep_view().subrange(0, i as int));
            assert(entries.deep_view().subrange(0, i as int + 1).last() == entries.deep_view()[i as int]);
        }
        if entries[i].0.eq(name) {
            return Some(entries[i].1.clone());
        }
    }
    proof {
        assert(entries.deep_view().subrange(0, 0) =~= Seq::<(Seq<char>, Seq<char>)>::empty());
    }
    None
}

/// The name of the entry holding the block at height `h`: the height
/// zero-padded to twelve digits, then `.json`.
pub open spec fn spec_entry_name(h: BlockHeight) -> Seq<char> {
    spec_dec_pad(h as nat, 12) + ".json"@
}

fn entry_name(h: BlockHeight) -> (r: String)
    ensures
        r@ == spec_entry_name(h),
{
    let mut r = u64_to_dec_pad(h, 12);
    r.append(".json");
    r
}

/// What `read_blocks` promises of its result: one entry per height of the
/// bundle covering `h`, in ascending order, each carrying the bundle content
/// filed under that height's entry name.
pub open spec fn spec_blocks_of_bundle(
    config: &ReadConfig,
    h: BlockHeight,
    entries: Seq<(Seq<char>, Seq<char>)>,
    r: Seq<(BlockHeight, Option<String>)>,
) -> bool {
    let base = spec_bundle_start(config.save_every_n, h);
    &&& r.len() == config.save_every_n
    &&& forall|i: int|
        0 <= i < r.len() ==> (#[trigger] r[i]).0 == base + i && (match r[i].1 {
            Some(c) => spec_entry_lookup(entries, spec_entry_name(r[i].0)) == Some(c@),
            None => spec_entry_lookup(entries, spec_entry_name(r[i].0)) is None,
        })
}

/// Projects an unpacked bundle onto the dense run of heights that the bundle
/// covering `block_height` spans; heights with no entry carry nothing.
pub fn read_blocks(
    config: &ReadConfig,
    block_height: BlockHeight,
    entries: &Vec<(String, String)>,
) -> (r: Vec<(BlockHeight, Option<String>)>)
    requires
        config.save_every_n > 0,
        block_height + config.save_every_n <= u64::MAX,
    ensures
        spec_blocks_of_bundle(config, block_height, entries.deep_view(), r@),
{
    proof {
        lemma_bundle_start_le(config.save_every_n, block_height);
    }
    let starting_block = block_height / config.save_every_n * config.save_every_n;
    let mut result: Vec<(BlockHeight, Option<String>)> = Vec::new();
    let mut i: u64 = 0;
    while i < config.save_every_n
        invariant
            i <= config.save_every_n,
            starting_block == spec_bundle_start(config.save_every_n, block_height),
            starting_block + config.save_every_n <= u64::MAX,
            result@.len() == i,
            forall|j: int|
                0 <= j < i ==> (#[trigger] result@[j]).0 == starting_block + j && (
                match result@[j].1 {
                    Some(c) => spec_entry_lookup(
                        entries.deep_view(),
                        spec_entry_name(result@[j].0),
                    ) == Some(c@),
                    None => spec_entry_lookup(
                        entries.deep_view(),
                        spec_entry_name(result@[j].0),
                    ) is None,
                }),
        decreases config.save_every_n - i,
    {
        let h = starting_block + i;
        let name = entry_name(h);
        let b = bundle_entry(entries, &name);
        result.push((h, b));
        i = i + 1;
    }
    result
}

/// Unpacks bundle bytes and projects them onto the heights of the bundle
/// covering `block_height`; corrupt bytes reject the whole read. Absent
/// bytes (the file does not exist) yield a run with no contents at all.
pub fn read_blocks_from_archive(
    config: &ReadConfig,
    block_height: BlockHeight,
    archive_bytes: Option<&Vec<u8>>,
) -> (r: Option<Vec<(BlockHeight, Option<String>)>>)
    requires
        config.save_every_n > 0,
        block_height + config.save_every_n <= u64::MAX,
    ensures
        match archive_bytes {
            Some(bytes) => {
                match r {
                    Some(blocks) => spec_archive_entries(bytes@) is Some && spec_blocks_of_bundle(
                        config,
                        block_height,
                        spec_archive_entries(bytes@).unwrap(),
                        blocks@,
                    ),
                    None => spec_archive_entries(bytes@) is None,
                }
            },
            None => r matches Some(blocks) && spec_blocks_of_bundle(
                config,
                block_height,
                Seq::empty(),
                blocks@,
            ),
        },
{
    match archive_bytes {
        Some(bytes) => {
            match unpack_tgz(bytes.as_slice()) {
                Some(entries) => Some(read_blocks(config, block_height, &entries)),
                None => None,
            }
        },
        None => {
            let entries: Vec<(String, String)> = Vec::new();
            proof {
                assert(entries.deep_view() =~= Seq::<(Seq<char>, Seq<char>)>::empty());
            }
            Some(read_blocks(config, block_height, &entries))
        },
    }
}

} // verus!

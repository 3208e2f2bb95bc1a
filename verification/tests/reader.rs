use block_server::reader::{archive_filename, read_blocks, read_blocks_from_archive};
use block_server::resolver::block_from_bundle;
use block_server::types::{ChainId, ReadConfig};
use std::io::Write;

fn config(path: &str, save_every_n: u64) -> ReadConfig {
    ReadConfig {
        path: path.to_string(),
        save_every_n,
    }
}

fn make_tgz(entries: &[(&str, &str)]) -> Vec<u8> {
    let mut builder = tar::Builder::new(Vec::new());
    for (name, content) in entries {
        let mut header = tar::Header::new_gnu();
        header.set_size(content.len() as u64);
        header.set_mode(0o644);
        header.set_cksum();
        builder
            .append_data(&mut header, name, content.as_bytes())
            .unwrap();
    }
    let tar_bytes = builder.into_inner().unwrap();
    let mut encoder =
        flate2::write::GzEncoder::new(Vec::new(), flate2::Compression::default());
    encoder.write_all(&tar_bytes).unwrap();
    encoder.finish().unwrap()
}

#[test]
fn archive_filename_formula() {
    let c = config("./data", 1000);
    assert_eq!(
        archive_filename(&c, ChainId::Mainnet, 12345678),
        "./data/mainnet/000012/345/000012345000.tgz"
    );
}

#[test]
fn archive_filename_genesis_bundle() {
    let c = config("/blocks", 5);
    assert_eq!(
        archive_filename(&c, ChainId::Testnet, 3),
        "/blocks/testnet/000000/000/000000000000.tgz"
    );
}

#[test]
fn archive_filename_idempotent_across_bundle() {
    let c = config("./data", 1000);
    let first = archive_filename(&c, ChainId::Mainnet, 12345000);
    for h in [12345000u64, 12345001, 12345500, 12345999] {
        assert_eq!(archive_filename(&c, ChainId::Mainnet, h), first);
    }
    assert_ne!(archive_filename(&c, ChainId::Mainnet, 12346000), first);
}

#[test]
fn read_blocks_dense_run() {
    let c = config("./data", 5);
    let entries = vec![
        ("000000001000.json".to_string(), "{\"a\":1}".to_string()),
        ("000000001003.json".to_string(), "{\"b\":2}".to_string()),
    ];
    let blocks = read_blocks(&c, 1002, &entries);
    assert_eq!(blocks.len(), 5);
    for (i, (h, _)) in blocks.iter().enumerate() {
        assert_eq!(*h, 1000 + i as u64);
    }
    assert_eq!(blocks[0].1.as_deref(), Some("{\"a\":1}"));
    assert_eq!(blocks[1].1, None);
    assert_eq!(blocks[3].1.as_deref(), Some("{\"b\":2}"));
    assert_eq!(blocks[4].1, None);
}

#[test]
fn read_blocks_from_archive_round_trip() {
    let bytes = make_tgz(&[
        ("000000000005.json", "{\"height\":5}"),
        ("000000000007.json", "{\"height\":7}"),
    ]);
    let c = config("./data", 10);
    let blocks = read_blocks_from_archive(&c, 5, Some(&bytes)).unwrap();
    assert_eq!(blocks.len(), 10);
    assert_eq!(blocks[5].0, 5);
    assert_eq!(blocks[5].1.as_deref(), Some("{\"height\":5}"));
    assert_eq!(blocks[7].1.as_deref(), Some("{\"height\":7}"));
    assert_eq!(blocks[0].1, None);
}

#[test]
fn read_blocks_from_archive_missing_file() {
    let c = config("./data", 4);
    let blocks = read_blocks_from_archive(&c, 9, None).unwrap();
    assert_eq!(blocks.len(), 4);
    for (i, (h, b)) in blocks.iter().enumerate() {
        assert_eq!(*h, 8 + i as u64);
        assert!(b.is_none());
    }
}

#[test]
fn read_blocks_from_archive_corrupt_file() {
    let c = config("./data", 4);
    let garbage = vec![0x1f, 0x8b, 0x00, 0xff, 0x13, 0x37];
    assert!(read_blocks_from_archive(&c, 9, Some(&garbage)).is_none());
}

#[test]
fn block_from_bundle_cases() {
    let blocks = vec![
        (1000u64, Some("{\"a\":1}".to_string())),
        (1001u64, None),
        (1002u64, Some("{\"c\":3}".to_string())),
    ];
    assert_eq!(block_from_bundle(&blocks, 1000).as_deref(), Some("{\"a\":1}"));
    assert_eq!(block_from_bundle(&blocks, 1001).as_deref(), Some(""));
    assert_eq!(block_from_bundle(&blocks, 1002).as_deref(), Some("{\"c\":3}"));
    assert_eq!(block_from_bundle(&blocks, 999), None);
}

//! The driver options: parsing, the access plan, and the aligned
//! buffer.

use ritsu::fsreader::{
    parse_access_mode, parse_hex, parse_io_mode, plan, str_eq, AccessMode, AlignedBuffer,
    IoMode, Options,
};

fn opts(access: AccessMode, bufsize: usize, count: usize, seed: Option<u64>) -> Options {
    Options { target: String::new(), mode: IoMode::AsyncBuffered, access, bufsize, count, seed }
}

#[test]
fn io_mode_names_parse() {
    assert!(matches!(parse_io_mode("ab"), Ok(IoMode::AsyncBuffered)));
    assert!(matches!(parse_io_mode("async-buffered"), Ok(IoMode::AsyncBuffered)));
    assert!(matches!(parse_io_mode("sb"), Ok(IoMode::SyncBuffered)));
    assert!(matches!(parse_io_mode("sync-buffered"), Ok(IoMode::SyncBuffered)));
    assert!(matches!(parse_io_mode("ad"), Ok(IoMode::AsyncDirect)));
    assert!(matches!(parse_io_mode("async-direct"), Ok(IoMode::AsyncDirect)));
    assert!(matches!(parse_io_mode("sd"), Ok(IoMode::SyncDirect)));
    assert!(matches!(parse_io_mode("sync-direct"), Ok(IoMode::SyncDirect)));
    assert_eq!(parse_io_mode("bogus").unwrap_err(), "bad mode".to_string());
}

#[test]
fn access_mode_names_parse() {
    assert!(matches!(parse_access_mode("seq"), Ok(AccessMode::Sequence)));
    assert!(matches!(parse_access_mode("sequence"), Ok(AccessMode::Sequence)));
    assert!(matches!(parse_access_mode("rand"), Ok(AccessMode::Random)));
    assert!(matches!(parse_access_mode("random"), Ok(AccessMode::Random)));
    assert_eq!(parse_access_mode("sometimes").unwrap_err(), "bad mode".to_string());
}

#[test]
fn str_eq_compares_contents() {
    assert!(str_eq("", ""));
    assert!(str_eq("abc", "abc"));
    assert!(!str_eq("abc", "abd"));
    assert!(!str_eq("abc", "ab"));
}

#[test]
fn hex_seed_parses_little_endian() {
    assert_eq!(parse_hex("0x0102030405060708").unwrap(), 0x0807060504030201u64);
    assert_eq!(parse_hex("0xffffffffffffffff").unwrap(), u64::MAX);
    assert_eq!(parse_hex("0xFFFFFFFFFFFFFFFF").unwrap(), u64::MAX);
    assert_eq!(parse_hex("0x0000000000000000").unwrap(), 0);
}

#[test]
fn hex_seed_rejects_bad_shapes() {
    assert!(parse_hex("deadbeefdeadbeef").is_err());
    assert!(parse_hex("0xdeadbeef").is_err());
    assert!(parse_hex("0x00112233445566zz").is_err());
    assert!(parse_hex("").is_err());
    assert!(parse_hex("0x").is_err());
}

#[test]
fn sequential_plan_lists_offsets_in_file_order() {
    let q = plan(10, &opts(AccessMode::Sequence, 4, 1, None));
    assert_eq!(q, vec![0, 4, 8]);
    let q = plan(8, &opts(AccessMode::Sequence, 4, 2, None));
    assert_eq!(q, vec![0, 4, 0, 4]);
    let q = plan(0, &opts(AccessMode::Sequence, 4, 3, None));
    assert_eq!(q, Vec::<u64>::new());
}

#[test]
fn random_plan_is_a_permutation() {
    let seq = plan(4096 * 7 + 3, &opts(AccessMode::Sequence, 4096, 2, None));
    let mut rand = plan(4096 * 7 + 3, &opts(AccessMode::Random, 4096, 2, Some(9)));
    assert_eq!(seq.len(), rand.len());
    let mut sorted_seq = seq.clone();
    sorted_seq.sort();
    rand.sort();
    assert_eq!(sorted_seq, rand);
}

#[test]
fn random_plan_without_seed_is_still_a_permutation() {
    let seq = plan(100, &opts(AccessMode::Sequence, 7, 1, None));
    let mut rand = plan(100, &opts(AccessMode::Random, 7, 1, None));
    let mut sorted_seq = seq.clone();
    sorted_seq.sort();
    rand.sort();
    assert_eq!(sorted_seq, rand);
}

#[test]
fn seeded_plans_are_deterministic() {
    let a = plan(4096 * 9 + 17, &opts(AccessMode::Random, 4096, 3, Some(0xfeed)));
    let b = plan(4096 * 9 + 17, &opts(AccessMode::Random, 4096, 3, Some(0xfeed)));
    assert_eq!(a, b);
}

#[test]
fn aligned_buffer_tracks_its_fill() {
    let mut b = AlignedBuffer::with_capacity(4096);
    assert_eq!(b.len(), 0);
    assert_eq!(b.remaining_mut(), 4096);
    b.advance_mut(100);
    assert_eq!(b.len(), 100);
    assert_eq!(b.remaining_mut(), 3996);
    b.clear();
    assert_eq!(b.len(), 0);
}

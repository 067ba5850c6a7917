//! The file-read exercise driver: its options, the access plan over a
//! file, and the aligned buffer it reads into.
//!
//! Random access shuffles the plan with a dedicated generator, seeded
//! from the options or from the machine; either way the shuffled plan
//! is a permutation of the sequential one.

use vstd::prelude::*;
use vstd::string::*;

use rand::seq::SliceRandom;
use rand::SeedableRng;

use vstd::arithmetic::div_mod::{
    lemma_div_is_ordered_by_denominator, lemma_fundamental_div_mod, lemma_mod_bound,
};
use vstd::arithmetic::mul::lemma_mul_inequality;

verus! {

/// How the driver performs its reads.
#[derive(Clone, Copy, Debug, PartialEq, Eq, Structural)]
pub enum IoMode {
    /// Ring-driven reads through the page cache.
    AsyncBuffered,
    /// Blocking reads through the page cache.
    SyncBuffered,
    /// Ring-driven reads bypassing the page cache.
    AsyncDirect,
    /// Blocking reads bypassing the page cache.
    SyncDirect,
}

/// In which order the driver visits the file.
#[derive(Clone, Copy, Debug, PartialEq, Eq, Structural)]
pub enum AccessMode {
    /// Offsets in file order.
    Sequence,
    /// Offsets in shuffled order.
    Random,
}

/// The driver's options, as parsed from its command line by the
/// embedding.
pub struct Options {
    /// The file to read.
    pub target: String,
    /// How to read it.
    pub mode: IoMode,
    /// In which order.
    pub access: AccessMode,
    /// The size of each read.
    pub bufsize: usize,
    /// How many passes over the file.
    pub count: usize,
    /// The shuffle seed, if fixed.
    pub seed: Option<u64>,
}

/// Whether two strings hold the same characters.
#[verifier::loop_isolation(false)]
pub fn str_eq(a: &str, b: &str) -> (r: bool)
    ensures
        r == (a@ == b@),
{
    let an = a.unicode_len();
    let bn = b.unicode_len();
    if an != bn {
        return false;
    }
    let mut i: usize = 0;
    while i < an
        invariant
            i <= an,
            forall|j: int| 0 <= j < i ==> a@[j] == b@[j],
        decreases an - i,
    {
        if a.get_char(i) != b.get_char(i) {
            return false;
        }
        i = i + 1;
    }
    proof {
        assert(a@ =~= b@);
    }
    true
}

/// The I/O mode a name denotes, if any: each mode under its short and
/// its long name.
pub open spec fn spec_io_mode_of(s: Seq<char>) -> Option<IoMode> {
    if s == "ab"@ || s == "async-buffered"@ {
        Some(IoMode::AsyncBuffered)
    } else if s == "sb"@ || s == "sync-buffered"@ {
        Some(IoMode::SyncBuffered)
    } else if s == "ad"@ || s == "async-direct"@ {
        Some(IoMode::AsyncDirect)
    } else if s == "sd"@ || s == "sync-direct"@ {
        Some(IoMode::SyncDirect)
    } else {
        None
    }
}

/// Parses an I/O mode name; a name that denotes no mode is refused.
pub fn parse_io_mode(value: &str) -> (r: Result<IoMode, String>)
    ensures
        match spec_io_mode_of(value@) {
            Some(m) => r == Ok::<IoMode, String>(m),
            None => r is Err,
        },
{
    if str_eq(value, "ab") || str_eq(value, "async-buffered") {
        Ok(IoMode::AsyncBuffered)
    } else if str_eq(value, "sb") || str_eq(value, "sync-buffered") {
        Ok(IoMode::SyncBuffered)
    } else if str_eq(value, "ad") || str_eq(value, "async-direct") {
        Ok(IoMode::AsyncDirect)
    } else if str_eq(value, "sd") || str_eq(value, "sync-direct") {
        Ok(IoMode::SyncDirect)
    } else {
        Err(String::from_str("bad mode"))
    }
}

/// The access mode a name denotes, if any: each mode under its short
/// and its long name.
pub open spec fn spec_access_mode_of(s: Seq<char>) -> Option<AccessMode> {
    if s == "seq"@ || s == "sequence"@ {
        Some(AccessMode::Sequence)
    } else if s == "rand"@ || s == "random"@ {
        Some(AccessMode::Random)
    } else {
        None
    }
}

/// Parses an access mode name; a name that denotes no mode is refused.
pub fn parse_access_mode(value: &str) -> (r: Result<AccessMode, String>)
    ensures
        match spec_access_mode_of(value@) {
            Some(m) => r == Ok::<AccessMode, String>(m),
            None => r is Err,
        },
{
    if str_eq(value, "seq") || str_eq(value, "sequence") {
        Ok(AccessMode::Sequence)
    } else if str_eq(value, "rand") || str_eq(value, "random") {
        Ok(AccessMode::Random)
    } else {
        Err(String::from_str("bad mode"))
    }
}

/// Whether a byte is a hexadecimal digit, either case.
pub open spec fn spec_is_hex_digit(c: u8) -> bool {
    (48 <= c <= 57) || (97 <= c <= 102) || (65 <= c <= 70)
}

/// The value of a hexadecimal digit.
pub open spec fn spec_hex_val(c: u8) -> u8 {
    if 48 <= c <= 57 {
        (c - 48) as u8
    } else if 97 <= c <= 102 {
        (c - 87) as u8
    } else {
        (c - 55) as u8
    }
}

/// Relies on `data_encoding::Encoding::decode_mut` with the
/// `HEXLOWER_PERMISSIVE` alphabet: sixteen hexadecimal digits of either
/// case decode to eight bytes, two digits each, high digit first; any
/// other input is refused with nothing promised of the output bytes.
#[verifier::external_body]
fn hex_decode16(src: &[u8], dst: &mut Vec<u8>) -> (r: bool)
    requires
        src@.len() == 16,
        old(dst)@.len() == 8,
    ensures
        final(dst)@.len() == 8,
        r == (forall|i: int| 0 <= i < 16 ==> spec_is_hex_digit(src@[i])),
        r ==> forall|i: int|
            0 <= i < 8 ==> final(dst)@[i] == spec_hex_val(src@[2 * i]) * 16 + spec_hex_val(
                src@[2 * i + 1],
            ),
{
    data_encoding::HEXLOWER_PERMISSIVE.decode_mut(src, dst.as_mut_slice()).is_ok()
}

/// Whether a byte string is a well-formed seed: `0x` followed by
/// exactly sixteen hexadecimal digits.
pub open spec fn spec_seed_shape(b: Seq<u8>) -> bool {
    b.len() == 18 && b[0] == 48u8 && b[1] == 120u8 && (forall|i: int|
        2 <= i < 18 ==> spec_is_hex_digit(b[i]))
}

/// The eight bytes a well-formed seed's digits decode to, two digits
/// each, high digit first.
pub open spec fn spec_seed_bytes(b: Seq<u8>) -> Seq<u8> {
    Seq::new(
        8,
        |i: int| (spec_hex_val(b[2 * i + 2]) * 16 + spec_hex_val(b[2 * i + 3])) as u8,
    )
}

/// Parses a shuffle seed of the form `0x` followed by exactly sixteen
/// hexadecimal digits, read as a little-endian 64-bit value.  Exactly
/// the well-formed seeds parse; anything else — wrong prefix, wrong
/// length, or a non-digit — is refused.
#[verifier::loop_isolation(false)]
pub fn parse_hex(value: &str) -> (r: Result<u64, String>)
    ensures
        r is Ok <==> spec_seed_shape(value.spec_bytes()),
        r matches Ok(v) ==> v == vstd::bytes::spec_u64_from_le_bytes(
            spec_seed_bytes(value.spec_bytes()),
        ),
{
    let b = value.as_bytes();
    if b.len() != 18 {
        return Err(String::from_str("bad hex"));
    }
    if !(b[0] == 48u8 && b[1] == 120u8) {
        return Err(String::from_str("bad hex"));
    }
    let mut digits: Vec<u8> = Vec::new();
    let mut i: usize = 2;
    while i < 18
        invariant
            2 <= i <= 18,
            digits@.len() == i - 2,
            forall|j: int| 0 <= j < i - 2 ==> digits@[j] == b@[j + 2],
        decreases 18 - i,
    {
        digits.push(b[i]);
        i = i + 1;
    }
    let mut out: Vec<u8> = Vec::new();
    out.resize(8, 0u8);
    if hex_decode16(digits.as_slice(), &mut out) {
        proof {
            assert forall|k: int| 2 <= k < 18 implies spec_is_hex_digit(
                value.spec_bytes()[k],
            ) by {
                assert(digits@[k - 2] == b@[k]);
            }
            assert forall|k: int| 0 <= k < 8 implies out@[k] == spec_seed_bytes(b@)[k] by {
                assert(digits@[2 * k] == b@[2 * k + 2]);
                assert(digits@[2 * k + 1] == b@[2 * k + 3]);
            }
            assert(out@ =~= spec_seed_bytes(b@));
        }
        Ok(vstd::bytes::u64_from_le_bytes(out.as_slice()))
    } else {
        proof {
            assert(exists|k: int|
                2 <= k < 18 && !spec_is_hex_digit(#[trigger] value.spec_bytes()[k])) by {
                let j = choose|j: int| 0 <= j < 16 && !spec_is_hex_digit(#[trigger] digits@[j]);
                assert(digits@[j] == b@[j + 2]);
                assert(!spec_is_hex_digit(value.spec_bytes()[j + 2]));
            }
        }
        Err(String::from_str("bad hex"))
    }
}

/// How many reads one pass over a file of `total` bytes takes.
pub open spec fn spec_iter(total: u64, bufsize: u64) -> int {
    total as int / bufsize as int + if total as int % bufsize as int != 0 {
        1int
    } else {
        0int
    }
}

/// The offsets of one sequential pass: consecutive multiples of the
/// read size.
pub open spec fn spec_offsets(total: u64, bufsize: u64) -> Seq<u64> {
    Seq::new(spec_iter(total, bufsize) as nat, |p: int| (p * bufsize) as u64)
}

/// The offsets of `count` sequential passes, one after the other.
pub open spec fn spec_plan(total: u64, bufsize: u64, count: int) -> Seq<u64>
    decreases count,
{
    if count <= 0 {
        Seq::empty()
    } else {
        spec_plan(total, bufsize, count - 1) + spec_offsets(total, bufsize)
    }
}

/// Builds the access plan: the offsets of `count` passes over a file
/// of `total` bytes.  Sequential access keeps file order; random
/// access shuffles, keeping exactly the same offsets as a multiset.
#[verifier::loop_isolation(false)]
pub fn plan(total: u64, options: &Options) -> (r: Vec<u64>)
    requires
        options.bufsize >= 1,
    ensures
        r@.to_multiset() == spec_plan(total, options.bufsize as u64, options.count as int)
            .to_multiset(),
        options.access is Sequence ==> r@ == spec_plan(
            total,
            options.bufsize as u64,
            options.count as int,
        ),
        options.access is Random ==> (options.seed matches Some(s) ==> r@
            == seeded_shuffle_of(
            spec_plan(total, options.bufsize as u64, options.count as int),
            s,
        )),
{
    let bufsize = options.bufsize as u64;
    proof {
        lemma_mod_bound(total as int, bufsize as int);
        lemma_fundamental_div_mod(total as int, bufsize as int);
        if total as int % bufsize as int != 0 {
            assert(bufsize >= 2) by {
                if bufsize == 1 {
                    assert(total as int % 1int == 0);
                }
            }
            lemma_div_is_ordered_by_denominator(total as int, 2, bufsize as int);
        }
    }
    let rem: u64 = total % bufsize;
    let iter: u64 = total / bufsize + if rem != 0 {
        1
    } else {
        0
    };
    let mut queue: Vec<u64> = Vec::new();
    let mut c: usize = 0;
    while c < options.count
        invariant
            c <= options.count,
            queue@ == spec_plan(total, bufsize, c as int),
        decreases options.count - c,
    {
        let mut p: u64 = 0;
        proof {
            assert(queue@ =~= spec_plan(total, bufsize, c as int) + spec_offsets(
                total,
                bufsize,
            ).take(0));
        }
        while p < iter
            invariant
                p <= iter,
                queue@ == spec_plan(total, bufsize, c as int) + spec_offsets(total, bufsize)
                    .take(p as int),
            decreases iter - p,
        {
            proof {
                lemma_mul_inequality(p as int, total as int / bufsize as int, bufsize as int);
                lemma_fundamental_div_mod(total as int, bufsize as int);
                lemma_mod_bound(total as int, bufsize as int);
                assert((total as int / bufsize as int) * bufsize as int == bufsize as int * (
                total as int / bufsize as int)) by (nonlinear_arith);
                assert(p as int * bufsize as int <= total as int);
            }
            queue.push(p * bufsize);
            p = p + 1;
            proof {
                assert(queue@ =~= spec_plan(total, bufsize, c as int) + spec_offsets(
                    total,
                    bufsize,
                ).take(p as int));
            }
        }
        c = c + 1;
        proof {
            assert(spec_offsets(total, bufsize).take(iter as int) =~= spec_offsets(
                total,
                bufsize,
            ));
            assert(queue@ =~= spec_plan(total, bufsize, c as int));
        }
    }
    match options.access {
        AccessMode::Sequence => queue,
        AccessMode::Random => {
            match options.seed {
                Some(seed) => shuffle_seeded(&mut queue, seed),
                None => {
                    let mut rng = chacha_from_entropy();
                    shuffle_offsets(&mut queue, &mut rng);
                },
            }
            queue
        },
    }
}


/// The deterministic generator used for shuffling.
#[verifier::external_type_specification]
#[verifier::external_body]
pub struct ExChaCha20Rng(rand_chacha::ChaCha20Rng);

/// What the seeded shuffle of a run of offsets yields.  The generator
/// is a pure function of its seed and the shuffle draws only from it,
/// so the result is a function of the offsets and the seed alone.
pub uninterp spec fn seeded_shuffle_of(s: Seq<u64>, seed: u64) -> Seq<u64>;

/// Relies on `rand_chacha::ChaCha20Rng` via `SeedableRng::seed_from_u64`
/// and `rand::seq::SliceRandom::shuffle`: the slice is permuted in
/// place by swaps drawn from the seeded generator alone, so exactly the
/// same values remain and a fixed seed fixes the permutation.
#[verifier::external_body]
fn shuffle_seeded(v: &mut Vec<u64>, seed: u64)
    ensures
        final(v)@ == seeded_shuffle_of(old(v)@, seed),
        final(v)@.len() == old(v)@.len(),
        final(v)@.to_multiset() == old(v)@.to_multiset(),
{
    let mut rng = rand_chacha::ChaCha20Rng::seed_from_u64(seed);
    v.as_mut_slice().shuffle(&mut rng)
}

/// Relies on `rand_chacha::ChaCha20Rng` via `SeedableRng::from_rng`,
/// seeded from the thread generator that `rand::rng` returns: builds a
/// generator from machine entropy.
#[verifier::external_body]
fn chacha_from_entropy() -> rand_chacha::ChaCha20Rng {
    rand_chacha::ChaCha20Rng::from_rng(&mut rand::rng())
}

/// Relies on `rand::seq::SliceRandom::shuffle`: the slice is permuted
/// in place, so exactly the same values remain, whatever the
/// generator's state.
#[verifier::external_body]
fn shuffle_offsets(v: &mut Vec<u64>, rng: &mut rand_chacha::ChaCha20Rng) -> (r: ())
    ensures
        final(v)@.len() == old(v)@.len(),
        final(v)@.to_multiset() == old(v)@.to_multiset(),
{
    v.as_mut_slice().shuffle(rng)
}


/// A page-aligned read buffer: `len` bytes of its `cap`-byte storage
/// are filled.  The alignment itself is the embedding's concern; the
/// core tracks the cursor.
pub struct AlignedBuffer {
    /// The storage; its length is the capacity.
    pub data: Vec<u8>,
    /// How many bytes are filled.
    pub len: usize,
}

impl AlignedBuffer {
    /// The fill cursor stays within the storage.
    pub open spec fn wf(&self) -> bool {
        self.len <= self.data@.len()
    }

    /// An empty buffer with `cap` bytes of storage.
    pub fn with_capacity(cap: usize) -> (r: AlignedBuffer)
        ensures
            r.wf(),
            r.data@.len() == cap,
            r.len == 0,
    {
        let mut data: Vec<u8> = Vec::new();
        data.resize(cap, 0u8);
        AlignedBuffer { data, len: 0 }
    }

    /// How many bytes are filled.
    pub fn len(&self) -> (r: usize)
        ensures
            r == self.len,
    {
        self.len
    }

    /// Empties the buffer; the storage stays.
    pub fn clear(&mut self)
        ensures
            final(self).wf(),
            final(self).len == 0,
            final(self).data == old(self).data,
    {
        self.len = 0;
    }

    /// How many bytes may still be filled.
    pub fn remaining_mut(&self) -> (r: usize)
        requires
            self.wf(),
        ensures
            r == self.data@.len() - self.len,
    {
        self.data.len() - self.len
    }

    /// Marks `cnt` more bytes as filled.
    pub fn advance_mut(&mut self, cnt: usize)
        requires
            old(self).wf(),
            old(self).len + cnt <= old(self).data@.len(),
        ensures
            final(self).wf(),
            final(self).len == old(self).len + cnt,
            final(self).data == old(self).data,
    {
        let cap = self.data.len();
        self.len = self.len + cnt;
    }
}

} // verus!

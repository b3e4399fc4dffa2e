//! Little-endian integers inside byte buffers.
//!
//! The hypervisor interface and the PCI configuration mechanism both exchange
//! integers as little-endian byte strings at fixed offsets. This module says what
//! those byte strings are and moves integers in and out of buffers.

use byteorder::{ByteOrder, LittleEndian};
use vstd::prelude::*;

verus! {

/// The two bytes of `x`, least significant first.
pub open spec fn u16_le(x: u16) -> Seq<u8> {
    seq![(x % 0x100) as u8, (x / 0x100) as u8]
}

/// The four bytes of `x`, least significant first.
pub open spec fn u32_le(x: u32) -> Seq<u8> {
    seq![
        (x % 0x100) as u8,
        (x / 0x100 % 0x100) as u8,
        (x / 0x1_0000 % 0x100) as u8,
        (x / 0x100_0000) as u8,
    ]
}

/// The eight bytes of `x`, least significant first: the four of its low half, then
/// the four of its high half.
pub open spec fn u64_le(x: u64) -> Seq<u8> {
    u32_le((x % 0x1_0000_0000) as u32) + u32_le((x / 0x1_0000_0000) as u32)
}

/// The integer whose little-endian bytes are the first two of `s`.
pub open spec fn le_u16(s: Seq<u8>) -> u16
    recommends
        s.len() >= 2,
{
    (s[0] as int + s[1] as int * 0x100) as u16
}

/// The integer whose little-endian bytes are the first four of `s`.
pub open spec fn le_u32(s: Seq<u8>) -> u32
    recommends
        s.len() >= 4,
{
    (s[0] as int + s[1] as int * 0x100 + s[2] as int * 0x1_0000 + s[3] as int * 0x100_0000) as u32
}

/// The integer whose little-endian bytes are the first eight of `s`.
pub open spec fn le_u64(s: Seq<u8>) -> u64
    recommends
        s.len() >= 8,
{
    (le_u32(s.subrange(0, 4)) as int + le_u32(s.subrange(4, 8)) as int * 0x1_0000_0000) as u64
}

/// Reading back what was written gives the integer that was written.
pub broadcast proof fn lemma_le_round_trip_u16(x: u16)
    ensures
        u16_le(x).len() == 2,
        #[trigger] le_u16(u16_le(x)) == x,
{
}

/// Reading back what was written gives the integer that was written.
pub broadcast proof fn lemma_le_round_trip_u32(x: u32)
    ensures
        u32_le(x).len() == 4,
        #[trigger] le_u32(u32_le(x)) == x,
{
}

/// Reading back what was written gives the integer that was written.
pub broadcast proof fn lemma_le_round_trip_u64(x: u64)
    ensures
        u64_le(x).len() == 8,
        #[trigger] le_u64(u64_le(x)) == x,
{
    let low = (x % 0x1_0000_0000) as u32;
    let high = (x / 0x1_0000_0000) as u32;
    lemma_le_round_trip_u32(low);
    lemma_le_round_trip_u32(high);
    assert(u64_le(x).subrange(0, 4) =~= u32_le(low));
    assert(u64_le(x).subrange(4, 8) =~= u32_le(high));
}

/// `buf` with `bytes` written over it from position `at` on.
pub open spec fn splice(buf: Seq<u8>, at: int, bytes: Seq<u8>) -> Seq<u8> {
    Seq::new(
        buf.len(),
        |i: int|
            if at <= i < at + bytes.len() {
                bytes[i - at]
            } else {
                buf[i]
            },
    )
}

/// The bytes of `words`, each word as its eight little-endian bytes, in order.
pub open spec fn words_le(words: Seq<u64>) -> Seq<u8> {
    Seq::new(8 * words.len(), |i: int| u64_le(words[i / 8])[i % 8])
}

/// The `count` integers whose little-endian bytes follow one another at the start
/// of `s`.
pub open spec fn le_words(s: Seq<u8>, count: nat) -> Seq<u64> {
    Seq::new(count, |k: int| le_u64(s.subrange(8 * k, 8 * k + 8)))
}

/// The 16-bit integer stored in `buf` at `at`.
pub open spec fn stored_u16(buf: Seq<u8>, at: int) -> u16 {
    le_u16(buf.subrange(at, at + 2))
}

/// The 32-bit integer stored in `buf` at `at`.
pub open spec fn stored_u32(buf: Seq<u8>, at: int) -> u32 {
    le_u32(buf.subrange(at, at + 4))
}

/// The 64-bit integer stored in `buf` at `at`.
pub open spec fn stored_u64(buf: Seq<u8>, at: int) -> u64 {
    le_u64(buf.subrange(at, at + 8))
}

/// The `count` 64-bit integers stored in `buf` one after another from `at` on.
pub open spec fn stored_words(buf: Seq<u8>, at: int, count: nat) -> Seq<u64> {
    le_words(buf.subrange(at, at + 8 * count), count)
}

/// `buf` with the byte `x` stored at `at`.
pub open spec fn store_u8(buf: Seq<u8>, at: int, x: u8) -> Seq<u8> {
    splice(buf, at, seq![x])
}

/// `buf` with `x` stored at `at`.
pub open spec fn store_u16(buf: Seq<u8>, at: int, x: u16) -> Seq<u8> {
    splice(buf, at, u16_le(x))
}

/// `buf` with `x` stored at `at`.
pub open spec fn store_u32(buf: Seq<u8>, at: int, x: u32) -> Seq<u8> {
    splice(buf, at, u32_le(x))
}

/// `buf` with `x` stored at `at`.
pub open spec fn store_u64(buf: Seq<u8>, at: int, x: u64) -> Seq<u8> {
    splice(buf, at, u64_le(x))
}

/// `buf` with `words` stored one after another from `at` on.
pub open spec fn store_words(buf: Seq<u8>, at: int, words: Seq<u64>) -> Seq<u8> {
    splice(buf, at, words_le(words))
}

/// `byteorder::LittleEndian::read_u16`: the integer held, least significant byte
/// first, in the first two bytes of `buf`. The call panics on a shorter buffer.
#[verifier::external_body]
fn read_u16(buf: &[u8]) -> (r: u16)
    requires
        buf@.len() >= 2,
    ensures
        r == le_u16(buf@),
{
    LittleEndian::read_u16(buf)
}

/// `byteorder::LittleEndian::read_u32`: the integer held, least significant byte
/// first, in the first four bytes of `buf`. The call panics on a shorter buffer.
#[verifier::external_body]
fn read_u32(buf: &[u8]) -> (r: u32)
    requires
        buf@.len() >= 4,
    ensures
        r == le_u32(buf@),
{
    LittleEndian::read_u32(buf)
}

/// `byteorder::LittleEndian::read_u64`: the integer held, least significant byte
/// first, in the first eight bytes of `buf`. The call panics on a shorter buffer.
#[verifier::external_body]
fn read_u64(buf: &[u8]) -> (r: u64)
    requires
        buf@.len() >= 8,
    ensures
        r == le_u64(buf@),
{
    LittleEndian::read_u64(buf)
}

/// `byteorder::LittleEndian::write_u16`: puts the two bytes of `n`, least
/// significant first, over the first two bytes of `buf` and leaves the rest as it
/// was. The call panics on a shorter buffer.
#[verifier::external_body]
fn write_u16(buf: &mut [u8], n: u16)
    requires
        old(buf)@.len() >= 2,
    ensures
        final(buf)@ == splice(old(buf)@, 0, u16_le(n)),
{
    LittleEndian::write_u16(buf, n)
}

/// `byteorder::LittleEndian::write_u32`: puts the four bytes of `n`, least
/// significant first, over the first four bytes of `buf` and leaves the rest as it
/// was. The call panics on a shorter buffer.
#[verifier::external_body]
fn write_u32(buf: &mut [u8], n: u32)
    requires
        old(buf)@.len() >= 4,
    ensures
        final(buf)@ == splice(old(buf)@, 0, u32_le(n)),
{
    LittleEndian::write_u32(buf, n)
}

/// `byteorder::LittleEndian::write_u64`: puts the eight bytes of `n`, least
/// significant first, over the first eight bytes of `buf` and leaves the rest as
/// it was. The call panics on a shorter buffer.
#[verifier::external_body]
fn write_u64(buf: &mut [u8], n: u64)
    requires
        old(buf)@.len() >= 8,
    ensures
        final(buf)@ == splice(old(buf)@, 0, u64_le(n)),
{
    LittleEndian::write_u64(buf, n)
}

/// Reads the 16-bit integer stored at `at`.
pub fn get_u16(buf: &[u8], at: usize) -> (r: u16)
    requires
        at + 2 <= buf.len(),
    ensures
        r == stored_u16(buf@, at as int),
{
    read_u16(&buf[at..at + 2])
}

/// Reads the 32-bit integer stored at `at`.
pub fn get_u32(buf: &[u8], at: usize) -> (r: u32)
    requires
        at + 4 <= buf.len(),
    ensures
        r == stored_u32(buf@, at as int),
{
    read_u32(&buf[at..at + 4])
}

/// Reads the 64-bit integer stored at `at`.
pub fn get_u64(buf: &[u8], at: usize) -> (r: u64)
    requires
        at + 8 <= buf.len(),
    ensures
        r == stored_u64(buf@, at as int),
{
    read_u64(&buf[at..at + 8])
}

/// Stores one byte at `at`; every other byte keeps its value.
pub fn put_u8(buf: &mut [u8], at: usize, x: u8)
    requires
        at < old(buf).len(),
    ensures
        final(buf)@ == store_u8(old(buf)@, at as int, x),
{
    buf[at] = x;
    assert(buf@ =~= store_u8(old(buf)@, at as int, x));
}

/// Stores a 16-bit integer at `at`; every other byte keeps its value.
pub fn put_u16(buf: &mut [u8], at: usize, x: u16)
    requires
        at + 2 <= old(buf).len(),
    ensures
        final(buf)@ == store_u16(old(buf)@, at as int, x),
{
    let (_, tail) = buf.split_at_mut(at);
    write_u16(tail, x);
}

/// Stores a 32-bit integer at `at`; every other byte keeps its value.
pub fn put_u32(buf: &mut [u8], at: usize, x: u32)
    requires
        at + 4 <= old(buf).len(),
    ensures
        final(buf)@ == store_u32(old(buf)@, at as int, x),
{
    let (_, tail) = buf.split_at_mut(at);
    write_u32(tail, x);
}

/// Stores a 64-bit integer at `at`; every other byte keeps its value.
pub fn put_u64(buf: &mut [u8], at: usize, x: u64)
    requires
        at + 8 <= old(buf).len(),
    ensures
        final(buf)@ == store_u64(old(buf)@, at as int, x),
{
    let (_, tail) = buf.split_at_mut(at);
    write_u64(tail, x);
}

/// The bytes that were written stand where they were written.
pub broadcast proof fn lemma_splice_same(buf: Seq<u8>, at: int, bytes: Seq<u8>)
    requires
        0 <= at,
        at + bytes.len() <= buf.len(),
    ensures
        #[trigger] splice(buf, at, bytes).subrange(at, at + bytes.len()) == bytes,
{
    assert(splice(buf, at, bytes).subrange(at, at + bytes.len()) =~= bytes);
}

/// A write leaves every stretch of bytes beside it as it was.
pub broadcast proof fn lemma_splice_other(
    buf: Seq<u8>,
    at: int,
    bytes: Seq<u8>,
    from: int,
    to: int,
)
    requires
        0 <= from <= to <= buf.len(),
        to <= at || at + bytes.len() <= from,
    ensures
        #[trigger] splice(buf, at, bytes).subrange(from, to) == buf.subrange(from, to),
{
    assert(splice(buf, at, bytes).subrange(from, to) =~= buf.subrange(from, to));
}

/// Reading back the words that were written gives those words.
pub broadcast proof fn lemma_le_round_trip_words(words: Seq<u64>)
    ensures
        words_le(words).len() == 8 * words.len(),
        #[trigger] le_words(words_le(words), words.len()) == words,
{
    let bytes = words_le(words);
    assert forall|k: int| 0 <= k < words.len() implies le_u64(bytes.subrange(8 * k, 8 * k + 8))
        == words[k] by {
        lemma_le_round_trip_u64(words[k]);
        assert(bytes.subrange(8 * k, 8 * k + 8) =~= u64_le(words[k]));
    }
    assert(le_words(bytes, words.len()) =~= words);
}

/// Reads the `N` bytes stored from `at` on.
pub fn get_bytes<const N: usize>(buf: &[u8], at: usize) -> (r: [u8; N])
    requires
        at + N <= buf.len(),
    ensures
        r@ == buf@.subrange(at as int, at + N),
{
    let mut r: [u8; N] = [0u8;N];
    let mut i: usize = 0;
    while i < N
        invariant
            at + N <= buf.len(),
            i <= N,
            r@.len() == N,
            forall|k: int| 0 <= k < i ==> r@[k] == buf@[at + k],
        decreases N - i,
    {
        r[i] = buf[at + i];
        i += 1;
    }
    assert(r@ =~= buf@.subrange(at as int, at + N));
    r
}

/// Stores `bytes` from `at` on; every other byte keeps its value.
pub fn put_bytes(buf: &mut [u8], at: usize, bytes: &[u8])
    requires
        at + bytes.len() <= old(buf).len(),
    ensures
        final(buf)@ == splice(old(buf)@, at as int, bytes@),
{
    let n: usize = bytes.len();
    let len: usize = buf.len();
    let mut i: usize = 0;
    while i < n
        invariant
            n == bytes@.len(),
            len == buf@.len(),
            len == old(buf)@.len(),
            at + n <= len,
            i <= n,
            forall|k: int| 0 <= k < len ==> buf@[k] == if at <= k < at + i {
                bytes@[k - at]
            } else {
                old(buf)@[k]
            },
        decreases n - i,
    {
        buf[at + i] = bytes[i];
        i += 1;
    }
    assert(buf@ =~= splice(old(buf)@, at as int, bytes@));
}

/// Reads the `N` 64-bit integers stored one after another from `at` on.
pub fn get_words<const N: usize>(buf: &[u8], at: usize) -> (r: [u64; N])
    requires
        at + 8 * N <= buf.len(),
    ensures
        r@ == stored_words(buf@, at as int, N as nat),
{
    let mut r: [u64; N] = [0u64;N];
    let mut i: usize = 0;
    while i < N
        invariant
            at + 8 * N <= buf.len(),
            i <= N,
            r@.len() == N,
            forall|k: int|
                0 <= k < i ==> r@[k] == le_u64(buf@.subrange(at + 8 * k, at + 8 * k + 8)),
        decreases N - i,
    {
        let word: u64 = get_u64(buf, at + 8 * i);
        r[i] = word;
        i += 1;
    }
    proof {
        let part = buf@.subrange(at as int, at + 8 * N);
        assert forall|k: int| 0 <= k < N implies r@[k] == le_u64(
            part.subrange(8 * k, 8 * k + 8),
        ) by {
            assert(part.subrange(8 * k, 8 * k + 8) =~= buf@.subrange(at + 8 * k, at + 8 * k + 8));
        }
        assert(r@ =~= le_words(part, N as nat));
    }
    r
}

/// Stores the 64-bit integers of `words` one after another from `at` on; every
/// other byte keeps its value.
pub fn put_words<const N: usize>(buf: &mut [u8], at: usize, words: &[u64; N])
    requires
        at + 8 * N <= old(buf).len(),
    ensures
        final(buf)@ == store_words(old(buf)@, at as int, words@),
{
    let len: usize = buf.len();
    let mut i: usize = 0;
    while i < N
        invariant
            len == buf@.len(),
            len == old(buf)@.len(),
            words@.len() == N,
            at + 8 * N <= len,
            i <= N,
            forall|k: int| 0 <= k < len ==> buf@[k] == if at <= k < at + 8 * i {
                words_le(words@)[k - at]
            } else {
                old(buf)@[k]
            },
        decreases N - i,
    {
        let ghost before = buf@;
        put_u64(buf, at + 8 * i, words[i]);
        proof {
            assert forall|k: int| 0 <= k < len implies buf@[k] == if at <= k < at + 8 * (i + 1) {
                words_le(words@)[k - at]
            } else {
                old(buf)@[k]
            } by {
                if at + 8 * i <= k < at + 8 * i + 8 {
                    let j = k - at;
                    assert(j / 8 == i as int);
                    assert(j % 8 == k - (at + 8 * i));
                }
            }
        }
        i += 1;
    }
    assert(buf@ =~= splice(old(buf)@, at as int, words_le(words@)));
}

/// What reading makes of what writing left: a read at the place of a write gives
/// what was written, and a read beside it gives what was there before.
pub broadcast group group_stored {
    lemma_le_round_trip_u16,
    lemma_le_round_trip_u32,
    lemma_le_round_trip_u64,
    lemma_le_round_trip_words,
    lemma_splice_same,
    lemma_splice_other,
}

} // verus!

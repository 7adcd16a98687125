//! Little-endian integers on byte sequences, and the cursor operations that
//! the decoders and encoders are built from.

use byteorder::{ByteOrder, LittleEndian};
use vstd::prelude::*;
use vstd::slice::{slice_subrange, slice_to_vec};

verus! {

/// The `u16` that two little-endian bytes stand for.
#[verifier::opaque]
pub open spec fn u16_from_le(b: Seq<u8>) -> u16
    recommends
        b.len() == 2,
{
    (b[0] as int + b[1] as int * 0x100) as u16
}

/// The two little-endian bytes of a `u16`.
#[verifier::opaque]
pub open spec fn u16_to_le(n: u16) -> Seq<u8> {
    seq![(n % 0x100) as u8, (n / 0x100) as u8]
}

/// The `u32` that four little-endian bytes stand for.
#[verifier::opaque]
pub open spec fn u32_from_le(b: Seq<u8>) -> u32
    recommends
        b.len() == 4,
{
    (b[0] as int + b[1] as int * 0x100 + b[2] as int * 0x1_0000 + b[3] as int * 0x100_0000) as u32
}

/// The four little-endian bytes of a `u32`.
#[verifier::opaque]
pub open spec fn u32_to_le(n: u32) -> Seq<u8> {
    seq![
        (n % 0x100) as u8,
        (n / 0x100 % 0x100) as u8,
        (n / 0x1_0000 % 0x100) as u8,
        (n / 0x100_0000) as u8,
    ]
}

/// The `u64` that eight little-endian bytes stand for.
#[verifier::opaque]
pub open spec fn u64_from_le(b: Seq<u8>) -> u64
    recommends
        b.len() == 8,
{
    (u32_from_le(b.subrange(0, 4)) as int
        + u32_from_le(b.subrange(4, 8)) as int * 0x1_0000_0000) as u64
}

/// The eight little-endian bytes of a `u64`.
#[verifier::opaque]
pub open spec fn u64_to_le(n: u64) -> Seq<u8> {
    u32_to_le((n % 0x1_0000_0000) as u32) + u32_to_le((n / 0x1_0000_0000) as u32)
}

/// The `u16` in the two bytes of `b` from offset `at`.
pub open spec fn u16_at(b: Seq<u8>, at: int) -> u16
    recommends
        0 <= at,
        at + 2 <= b.len(),
{
    u16_from_le(b.subrange(at, at + 2))
}

/// The `u32` in the four bytes of `b` from offset `at`.
pub open spec fn u32_at(b: Seq<u8>, at: int) -> u32
    recommends
        0 <= at,
        at + 4 <= b.len(),
{
    u32_from_le(b.subrange(at, at + 4))
}

/// The `u64` in the eight bytes of `b` from offset `at`.
pub open spec fn u64_at(b: Seq<u8>, at: int) -> u64
    recommends
        0 <= at,
        at + 8 <= b.len(),
{
    u64_from_le(b.subrange(at, at + 8))
}

/// Decoding undoes encoding, and encoding undoes decoding.
pub proof fn lemma_u16_le_round_trip(n: u16, b: Seq<u8>)
    ensures
        u16_to_le(n).len() == 2,
        u16_from_le(u16_to_le(n)) == n,
        b.len() == 2 ==> u16_to_le(u16_from_le(b)) == b,
{
    reveal(u16_from_le);
    reveal(u16_to_le);
    if b.len() == 2 {
        assert(u16_to_le(u16_from_le(b)) =~= b);
    }
}

/// Decoding undoes encoding, and encoding undoes decoding.
pub proof fn lemma_u32_le_round_trip(n: u32, b: Seq<u8>)
    ensures
        u32_to_le(n).len() == 4,
        u32_from_le(u32_to_le(n)) == n,
        b.len() == 4 ==> u32_to_le(u32_from_le(b)) == b,
{
    reveal(u32_from_le);
    reveal(u32_to_le);
    assert(n == (n % 0x100) + (n / 0x100 % 0x100) * 0x100 + (n / 0x1_0000 % 0x100) * 0x1_0000 + (n
        / 0x100_0000) * 0x100_0000 && n / 0x100_0000 < 0x100) by (bit_vector);
    if b.len() == 4 {
        let (b0, b1, b2, b3) = (b[0], b[1], b[2], b[3]);
        let v: u32 = u32_from_le(b);
        assert(v == b0 as int + b1 as int * 0x100 + b2 as int * 0x1_0000 + b3 as int * 0x100_0000);
        assert(v % 0x100 == b0 && v / 0x100 % 0x100 == b1 && v / 0x1_0000 % 0x100 == b2 && v
            / 0x100_0000 == b3) by (bit_vector)
            requires
                v == b0 as int + b1 as int * 0x100 + b2 as int * 0x1_0000 + b3 as int * 0x100_0000,
        ;
        assert(u32_to_le(u32_from_le(b)) =~= b);
    }
}

/// Decoding undoes encoding, and encoding undoes decoding.
pub proof fn lemma_u64_le_round_trip(n: u64, b: Seq<u8>)
    ensures
        u64_to_le(n).len() == 8,
        u64_from_le(u64_to_le(n)) == n,
        b.len() == 8 ==> u64_to_le(u64_from_le(b)) == b,
{
    reveal(u64_from_le);
    reveal(u64_to_le);
    let low = (n % 0x1_0000_0000) as u32;
    let high = (n / 0x1_0000_0000) as u32;
    lemma_u32_le_round_trip(low, seq![]);
    lemma_u32_le_round_trip(high, seq![]);
    assert(u64_to_le(n).subrange(0, 4) =~= u32_to_le(low));
    assert(u64_to_le(n).subrange(4, 8) =~= u32_to_le(high));
    if b.len() == 8 {
        lemma_u32_le_round_trip(0, b.subrange(0, 4));
        lemma_u32_le_round_trip(0, b.subrange(4, 8));
        assert(u64_to_le(u64_from_le(b)) =~= b.subrange(0, 4) + b.subrange(4, 8));
        assert(b.subrange(0, 4) + b.subrange(4, 8) =~= b);
    }
}

/// Every integer has as many bytes as its width says, and is read back from
/// them unchanged.
pub proof fn lemma_le_round_trips()
    ensures
        forall|n: u16| #[trigger] u16_to_le(n).len() == 2 && u16_from_le(u16_to_le(n)) == n,
        forall|n: u32| #[trigger] u32_to_le(n).len() == 4 && u32_from_le(u32_to_le(n)) == n,
        forall|n: u64| #[trigger] u64_to_le(n).len() == 8 && u64_from_le(u64_to_le(n)) == n,
{
    assert forall|n: u16| #[trigger] u16_to_le(n).len() == 2 && u16_from_le(u16_to_le(n)) == n by {
        lemma_u16_le_round_trip(n, seq![]);
    }
    assert forall|n: u32| #[trigger] u32_to_le(n).len() == 4 && u32_from_le(u32_to_le(n)) == n by {
        lemma_u32_le_round_trip(n, seq![]);
    }
    assert forall|n: u64| #[trigger] u64_to_le(n).len() == 8 && u64_from_le(u64_to_le(n)) == n by {
        lemma_u64_le_round_trip(n, seq![]);
    }
}

/// Calls `byteorder::LittleEndian::read_u16`, which decodes the first two
/// bytes of the slice as a little-endian integer and panics on a shorter
/// slice. The contract speaks of slices of exactly two bytes.
#[verifier::external_body]
fn le_read_u16(buf: &[u8]) -> (n: u16)
    requires
        buf@.len() == 2,
    ensures
        n == u16_from_le(buf@),
{
    LittleEndian::read_u16(buf)
}

/// Calls `byteorder::LittleEndian::read_u32`, which decodes the first four
/// bytes of the slice as a little-endian integer and panics on a shorter
/// slice. The contract speaks of slices of exactly four bytes.
#[verifier::external_body]
fn le_read_u32(buf: &[u8]) -> (n: u32)
    requires
        buf@.len() == 4,
    ensures
        n == u32_from_le(buf@),
{
    LittleEndian::read_u32(buf)
}

/// Calls `byteorder::LittleEndian::read_u64`, which decodes the first eight
/// bytes of the slice as a little-endian integer and panics on a shorter
/// slice. The contract speaks of slices of exactly eight bytes.
#[verifier::external_body]
fn le_read_u64(buf: &[u8]) -> (n: u64)
    requires
        buf@.len() == 8,
    ensures
        n == u64_from_le(buf@),
{
    LittleEndian::read_u64(buf)
}

/// Calls `byteorder::LittleEndian::write_u16` on a buffer of two bytes,
/// which it fills with the integer, least significant byte first.
#[verifier::external_body]
fn le_write_u16(n: u16) -> (out: [u8; 2])
    ensures
        out@ == u16_to_le(n),
{
    let mut out = [0u8; 2];
    LittleEndian::write_u16(&mut out, n);
    out
}

/// Calls `byteorder::LittleEndian::write_u32` on a buffer of four bytes,
/// which it fills with the integer, least significant byte first.
#[verifier::external_body]
fn le_write_u32(n: u32) -> (out: [u8; 4])
    ensures
        out@ == u32_to_le(n),
{
    let mut out = [0u8; 4];
    LittleEndian::write_u32(&mut out, n);
    out
}

/// Calls `byteorder::LittleEndian::write_u64` on a buffer of eight bytes,
/// which it fills with the integer, least significant byte first.
#[verifier::external_body]
fn le_write_u64(n: u64) -> (out: [u8; 8])
    ensures
        out@ == u64_to_le(n),
{
    let mut out = [0u8; 8];
    LittleEndian::write_u64(&mut out, n);
    out
}

/// The `u16` at offset `at`.
pub fn get_u16(buf: &[u8], at: usize) -> (n: u16)
    requires
        at + 2 <= buf.len(),
    ensures
        n == u16_at(buf@, at as int),
{
    le_read_u16(slice_subrange(buf, at, at + 2))
}

/// The `u32` at offset `at`.
pub fn get_u32(buf: &[u8], at: usize) -> (n: u32)
    requires
        at + 4 <= buf.len(),
    ensures
        n == u32_at(buf@, at as int),
{
    le_read_u32(slice_subrange(buf, at, at + 4))
}

/// The `u64` at offset `at`.
pub fn get_u64(buf: &[u8], at: usize) -> (n: u64)
    requires
        at + 8 <= buf.len(),
    ensures
        n == u64_at(buf@, at as int),
{
    le_read_u64(slice_subrange(buf, at, at + 8))
}

/// A copy of the bytes from `from` up to `to`.
pub fn get_bytes(buf: &[u8], from: usize, to: usize) -> (bytes: Vec<u8>)
    requires
        from <= to <= buf.len(),
    ensures
        bytes@ == buf@.subrange(from as int, to as int),
{
    slice_to_vec(slice_subrange(buf, from, to))
}

/// The `N` bytes from offset `at`.
pub fn get_array<const N: usize>(buf: &[u8], at: usize) -> (out: [u8; N])
    requires
        at + N <= buf.len(),
    ensures
        out@ == buf@.subrange(at as int, at + N),
{
    let mut out = [0u8; N];
    let mut i: usize = 0;
    while i < N
        invariant
            i <= N,
            at + N <= buf.len(),
            forall|j: int| 0 <= j < i ==> out@[j] == buf@[at + j],
        decreases N - i,
    {
        out[i] = buf[at + i];
        i += 1;
    }
    assert(out@ =~= buf@.subrange(at as int, at + N));
    out
}

/// Appends the two bytes of `n`.
pub fn put_u16(wtr: &mut Vec<u8>, n: u16)
    ensures
        final(wtr)@ == old(wtr)@ + u16_to_le(n),
{
    let bytes = le_write_u16(n);
    wtr.extend_from_slice(bytes.as_slice());
}

/// Appends the four bytes of `n`.
pub fn put_u32(wtr: &mut Vec<u8>, n: u32)
    ensures
        final(wtr)@ == old(wtr)@ + u32_to_le(n),
{
    let bytes = le_write_u32(n);
    wtr.extend_from_slice(bytes.as_slice());
}

/// Appends the eight bytes of `n`.
pub fn put_u64(wtr: &mut Vec<u8>, n: u64)
    ensures
        final(wtr)@ == old(wtr)@ + u64_to_le(n),
{
    let bytes = le_write_u64(n);
    wtr.extend_from_slice(bytes.as_slice());
}

/// Appends `bytes`.
pub fn put_bytes(wtr: &mut Vec<u8>, bytes: &[u8])
    ensures
        final(wtr)@ == old(wtr)@ + bytes@,
{
    wtr.extend_from_slice(bytes);
}

/// Drops the first `n` bytes of the reader.
pub fn advance(read: &mut &[u8], n: usize)
    requires
        n <= old(read)@.len(),
    ensures
        final(read)@ == old(read)@.skip(n as int),
{
    let buf: &[u8] = *read;
    *read = slice_subrange(buf, n, buf.len());
}

} // verus!

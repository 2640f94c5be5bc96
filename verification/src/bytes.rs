//! Fixed-width integers as they lie in account and instruction bytes.

use byteorder::{BigEndian, ByteOrder};
use vstd::prelude::*;

verus! {

/// The number spelled by the first four bytes of `s`, lowest byte first.
pub open spec fn le_u32(s: Seq<u8>) -> nat
    recommends
        s.len() >= 4,
{
    (s[0] as nat) + (s[1] as nat) * 0x100 + (s[2] as nat) * 0x1_0000 + (s[3] as nat) * 0x100_0000
}

/// The number spelled by the first eight bytes of `s`, lowest byte first.
pub open spec fn le_u64(s: Seq<u8>) -> nat
    recommends
        s.len() >= 8,
{
    le_u32(s) + le_u32(s.skip(4)) * 0x1_0000_0000
}

/// The number spelled by the first four bytes of `s`, highest byte first.
pub open spec fn be_u32(s: Seq<u8>) -> nat
    recommends
        s.len() >= 4,
{
    (s[0] as nat) * 0x100_0000 + (s[1] as nat) * 0x1_0000 + (s[2] as nat) * 0x100 + (s[3] as nat)
}

/// The number spelled by the first eight bytes of `s`, highest byte first.
pub open spec fn be_u64(s: Seq<u8>) -> nat
    recommends
        s.len() >= 8,
{
    be_u32(s) * 0x1_0000_0000 + be_u32(s.skip(4))
}

/// The four bytes that spell `n`, lowest byte first.
pub open spec fn le_bytes_u32(n: u32) -> Seq<u8> {
    seq![
        (n % 0x100) as u8,
        (n / 0x100 % 0x100) as u8,
        (n / 0x1_0000 % 0x100) as u8,
        (n / 0x100_0000) as u8,
    ]
}

/// The eight bytes that spell `n`, lowest byte first.
pub open spec fn le_bytes_u64(n: u64) -> Seq<u8> {
    le_bytes_u32((n % 0x1_0000_0000) as u32) + le_bytes_u32((n / 0x1_0000_0000) as u32)
}

/// The four bytes that spell `n`, highest byte first.
pub open spec fn be_bytes_u32(n: u32) -> Seq<u8> {
    seq![
        (n / 0x100_0000) as u8,
        (n / 0x1_0000 % 0x100) as u8,
        (n / 0x100 % 0x100) as u8,
        (n % 0x100) as u8,
    ]
}

/// The eight bytes that spell `n`, highest byte first.
pub open spec fn be_bytes_u64(n: u64) -> Seq<u8> {
    be_bytes_u32((n / 0x1_0000_0000) as u32) + be_bytes_u32((n % 0x1_0000_0000) as u32)
}

/// Reading back the four bytes that spell a number gives the number.
pub proof fn lemma_be_u32_round_trip(n: u32)
    ensures
        be_bytes_u32(n).len() == 4,
        be_u32(be_bytes_u32(n)) == n,
{
}

/// Reading back the eight bytes that spell a number gives the number.
pub proof fn lemma_be_u64_round_trip(n: u64)
    ensures
        be_bytes_u64(n).len() == 8,
        be_u64(be_bytes_u64(n)) == n,
{
    let high = (n / 0x1_0000_0000) as u32;
    let low = (n % 0x1_0000_0000) as u32;
    lemma_be_u32_round_trip(high);
    lemma_be_u32_round_trip(low);
    assert(be_bytes_u64(n).skip(4) =~= be_bytes_u32(low));
    assert(be_u32(be_bytes_u64(n)) == be_u32(be_bytes_u32(high)));
}

/// Four bytes never spell more than a `u32` holds, nor eight more than a `u64`.
pub proof fn lemma_values_fit(s: Seq<u8>)
    ensures
        le_u32(s) <= u32::MAX,
        be_u32(s) <= u32::MAX,
        le_u64(s) <= u64::MAX,
        be_u64(s) <= u64::MAX,
{
}

/// Reads a little-endian `u32` from the start of `input`, if it has four bytes.
pub fn read_le_u32(input: &[u8]) -> (out: Option<u32>)
    ensures
        input@.len() < 4 <==> out is None,
        out matches Some(n) ==> n == le_u32(input@),
{
    if input.len() < 4 {
        return None;
    }
    let b0: u32 = input[0] as u32;
    let b1: u32 = input[1] as u32;
    let b2: u32 = input[2] as u32;
    let b3: u32 = input[3] as u32;
    Some(b0 + b1 * 0x100 + b2 * 0x1_0000 + b3 * 0x100_0000)
}

/// Reads a little-endian `u64` from the start of `input`, if it has eight bytes.
pub fn read_le_u64(input: &[u8]) -> (out: Option<u64>)
    ensures
        input@.len() < 8 <==> out is None,
        out matches Some(n) ==> n == le_u64(input@),
{
    if input.len() < 8 {
        return None;
    }
    let low: u64 = match read_le_u32(input) {
        Some(n) => n as u64,
        None => 0,
    };
    let rest = vstd::slice::slice_subrange(input, 4, input.len());
    let high: u64 = match read_le_u32(rest) {
        Some(n) => n as u64,
        None => 0,
    };
    Some(low + high * 0x1_0000_0000)
}

/// Spells `n` in eight bytes, lowest byte first.
pub fn write_le_u64(n: u64) -> (out: [u8; 8])
    ensures
        out@ == le_bytes_u64(n),
{
    let low: u64 = n % 0x1_0000_0000;
    let high: u64 = n / 0x1_0000_0000;
    let out = [
        (low % 0x100) as u8,
        (low / 0x100 % 0x100) as u8,
        (low / 0x1_0000 % 0x100) as u8,
        (low / 0x100_0000) as u8,
        (high % 0x100) as u8,
        (high / 0x100 % 0x100) as u8,
        (high / 0x1_0000 % 0x100) as u8,
        (high / 0x100_0000) as u8,
    ];
    out
}

/// `byteorder::BigEndian::read_u32`: the big-endian number in the first four
/// bytes of `buf`. It panics on a shorter buffer, which `requires` rules out.
#[verifier::external_body]
pub(crate) fn read_be_u32(buf: &[u8]) -> (n: u32)
    requires
        buf@.len() >= 4,
    ensures
        n == be_u32(buf@),
{
    BigEndian::read_u32(buf)
}

/// `byteorder::BigEndian::read_u64`: the big-endian number in the first eight
/// bytes of `buf`. It panics on a shorter buffer, which `requires` rules out.
#[verifier::external_body]
pub(crate) fn read_be_u64(buf: &[u8]) -> (n: u64)
    requires
        buf@.len() >= 8,
    ensures
        n == be_u64(buf@),
{
    BigEndian::read_u64(buf)
}

/// `byteorder::BigEndian::write_u32` into a fresh buffer: the four bytes that
/// spell `n`, highest byte first.
#[verifier::external_body]
pub(crate) fn write_be_u32(n: u32) -> (out: [u8; 4])
    ensures
        out@ == be_bytes_u32(n),
{
    let mut out = [0u8; 4];
    BigEndian::write_u32(&mut out, n);
    out
}

/// `byteorder::BigEndian::write_u64` into a fresh buffer: the eight bytes
/// that spell `n`, highest byte first.
#[verifier::external_body]
pub(crate) fn write_be_u64(n: u64) -> (out: [u8; 8])
    ensures
        out@ == be_bytes_u64(n),
{
    let mut out = [0u8; 8];
    BigEndian::write_u64(&mut out, n);
    out
}

} // verus!

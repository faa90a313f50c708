//! The primitive reader: little-endian integers and exact-length byte runs,
//! taken from a byte slice at a cursor.

use codicon::Decoder;
use endicon::Endianness;
use vstd::prelude::*;

verus! {

/// The bytes of `bytes` from the cursor `pos` on; nothing when the cursor lies
/// past the end.
pub open spec fn remaining(bytes: Seq<u8>, pos: int) -> Seq<u8> {
    if 0 <= pos <= bytes.len() {
        bytes.skip(pos)
    } else {
        Seq::empty()
    }
}

/// The unsigned integer whose little-endian encoding is the first four bytes of `s`.
pub open spec fn le_u32(s: Seq<u8>) -> u32
    recommends
        s.len() >= 4,
{
    (s[0] as int + s[1] as int * 0x100 + s[2] as int * 0x1_0000 + s[3] as int * 0x100_0000) as u32
}

/// Relies on endicon's `Decoder<Endianness>` impl for `u32` (a codicon trait):
/// with `Endianness::Little` it reads exactly four bytes and assembles them
/// least significant first; a source holding fewer than four bytes is an error.
#[verifier::external_body]
fn decode_u32_le(bytes: &[u8], pos: usize) -> (r: Option<u32>)
    requires
        pos <= bytes@.len(),
    ensures
        bytes@.len() - pos >= 4 ==> r == Some(le_u32(bytes@.skip(pos as int))),
        bytes@.len() - pos < 4 ==> r is None,
{
    let mut source: &[u8] = &bytes[pos..];
    u32::decode(&mut source, Endianness::Little).ok()
}

/// Relies on endicon's `Decoder<Endianness>` impl for `u8` (a codicon trait):
/// it reads exactly one byte; an empty source is an error.
#[verifier::external_body]
fn decode_u8(bytes: &[u8], pos: usize) -> (r: Option<u8>)
    requires
        pos <= bytes@.len(),
    ensures
        pos < bytes@.len() ==> r == Some(bytes@[pos as int]),
        pos == bytes@.len() ==> r is None,
{
    let mut source: &[u8] = &bytes[pos..];
    u8::decode(&mut source, Endianness::Little).ok()
}

/// Reads a little-endian `u32` at the cursor and moves the cursor past it.
/// `None` when fewer than four bytes remain.
pub(crate) fn read_u32(bytes: &[u8], pos: &mut usize) -> (r: Option<u32>)
    ensures
        ({
            let s = remaining(bytes@, *old(pos) as int);
            &&& s.len() >= 4 ==> r == Some(le_u32(s)) && *final(pos) == *old(pos) + 4
            &&& s.len() < 4 ==> r is None
        }),
{
    if *pos > bytes.len() {
        return None;
    }
    let r = decode_u32_le(bytes, *pos);
    if r.is_some() {
        *pos = *pos + 4;
    }
    r
}

/// Reads one byte at the cursor and moves the cursor past it.
/// `None` when no byte remains.
pub(crate) fn read_u8(bytes: &[u8], pos: &mut usize) -> (r: Option<u8>)
    ensures
        ({
            let s = remaining(bytes@, *old(pos) as int);
            &&& s.len() >= 1 ==> r == Some(s[0]) && *final(pos) == *old(pos) + 1
            &&& s.len() < 1 ==> r is None
        }),
{
    if *pos > bytes.len() {
        return None;
    }
    let r = decode_u8(bytes, *pos);
    if r.is_some() {
        *pos = *pos + 1;
    }
    r
}

/// Copies exactly `n` bytes from the cursor on and moves the cursor past them.
/// `None` when fewer than `n` bytes remain.
pub(crate) fn read_exact(bytes: &[u8], pos: &mut usize, n: usize) -> (r: Option<Vec<u8>>)
    ensures
        ({
            let s = remaining(bytes@, *old(pos) as int);
            &&& s.len() >= n ==> r is Some && r->0@ == s.take(n as int) && *final(pos) == *old(
                pos,
            ) + n
            &&& s.len() < n ==> r is None
        }),
{
    if n == 0 {
        return Some(Vec::new());
    }
    let len = bytes.len();
    if *pos > len || len - *pos < n {
        return None;
    }
    let start = *pos;
    let mut out: Vec<u8> = Vec::with_capacity(n);
    let mut i: usize = 0;
    while i < n
        invariant
            len == bytes@.len(),
            start + n <= len,
            i <= n,
            out@ == bytes@.subrange(start as int, start + i),
        decreases n - i,
    {
        out.push(bytes[start + i]);
        i = i + 1;
        assert(out@ =~= bytes@.subrange(start as int, start + i));
    }
    assert(out@ =~= bytes@.skip(start as int).take(n as int));
    *pos = start + n;
    Some(out)
}

} // verus!

verus! {

/// Moving the cursor `n` bytes on drops the first `n` of the remaining bytes.
pub proof fn lemma_remaining_advance(bytes: Seq<u8>, pos: int, n: int)
    requires
        0 <= pos,
        0 <= n,
        pos + n <= bytes.len(),
    ensures
        remaining(bytes, pos + n) == remaining(bytes, pos).skip(n),
        remaining(bytes, pos).len() == bytes.len() - pos,
{
    assert(remaining(bytes, pos + n) =~= remaining(bytes, pos).skip(n));
}

} // verus!

//! The byte layout of instruction payloads and account data: fixed-width integers in
//! little-endian order, strings behind a 32-bit length, addresses as their 32 bytes.

use vstd::prelude::*;
use vstd::slice::{slice_subrange, slice_to_vec};
use vstd::string::StringSliceAdditionalSpecFns;
use vstd::utf8::{decode_utf8, encode_utf8, encode_utf8_decode_utf8, valid_utf8};
use crate::pubkey::Pubkey;

verus! {

/// The four bytes of a 32-bit integer, least significant first.
pub open spec fn u32_le_bytes(x: u32) -> Seq<u8> {
    seq![
        (x % 256) as u8,
        (x / 0x100 % 256) as u8,
        (x / 0x1_0000 % 256) as u8,
        (x / 0x100_0000 % 256) as u8,
    ]
}

/// The eight bytes of a 64-bit integer, least significant first.
pub open spec fn u64_le_bytes(x: u64) -> Seq<u8> {
    seq![
        (x % 256) as u8,
        (x / 0x100 % 256) as u8,
        (x / 0x1_0000 % 256) as u8,
        (x / 0x100_0000 % 256) as u8,
        (x / 0x1_0000_0000 % 256) as u8,
        (x / 0x100_0000_0000 % 256) as u8,
        (x / 0x1_0000_0000_0000 % 256) as u8,
        (x / 0x100_0000_0000_0000 % 256) as u8,
    ]
}

/// The integer that four bytes stand for, least significant first.
pub open spec fn u32_from_le_bytes(bytes: Seq<u8>) -> int
    recommends
        bytes.len() == 4,
{
    bytes[0] + bytes[1] * 0x100 + bytes[2] * 0x1_0000 + bytes[3] * 0x100_0000
}

/// The integer that eight bytes stand for, least significant first.
pub open spec fn u64_from_le_bytes(bytes: Seq<u8>) -> int
    recommends
        bytes.len() == 8,
{
    bytes[0] + bytes[1] * 0x100 + bytes[2] * 0x1_0000 + bytes[3] * 0x100_0000 + bytes[4]
        * 0x1_0000_0000 + bytes[5] * 0x100_0000_0000 + bytes[6] * 0x1_0000_0000_0000 + bytes[7]
        * 0x100_0000_0000_0000
}

/// A string on the wire: the length of its UTF-8 encoding in four bytes, then the
/// encoding.
pub open spec fn string_bytes(s: Seq<char>) -> Seq<u8> {
    u32_le_bytes(vstd::utf8::encode_utf8(s).len() as u32) + vstd::utf8::encode_utf8(s)
}

/// The string whose length starts at `at`: the bytes of its encoding and the place where
/// the next field starts, or `None` where the data ends too early or the bytes are no
/// UTF-8.
pub open spec fn string_at(data: Seq<u8>, at: int) -> Option<(Seq<u8>, int)> {
    if 0 <= at && at + 4 <= data.len() {
        let end = at + 4 + u32_from_le_bytes(data.subrange(at, at + 4));
        if end <= data.len() && valid_utf8(data.subrange(at + 4, end)) {
            Some((data.subrange(at + 4, end), end))
        } else {
            None
        }
    } else {
        None
    }
}

/// Whether a string's encoding is short enough for the length to fit in four bytes.
pub open spec fn string_fits(s: Seq<char>) -> bool {
    vstd::utf8::encode_utf8(s).len() <= u32::MAX
}

/// Decoding the bytes of a 32-bit integer gives the integer back.
pub proof fn lemma_u32_le_round_trip(x: u32)
    ensures
        u32_le_bytes(x).len() == 4,
        u32_from_le_bytes(u32_le_bytes(x)) == x,
{
    let q1 = x as int / 0x100;
    let q2 = q1 / 256;
    let q3 = q2 / 256;
    assert(x as int / 0x1_0000 == q2);
    assert(x as int / 0x100_0000 == q3);
    assert(q3 < 256);
    let b = u32_le_bytes(x);
    assert(b[0] == x - 256 * q1);
    assert(b[1] == q1 - 256 * q2);
    assert(b[2] == q2 - 256 * q3);
    assert(b[3] == q3);
}

/// Where the bytes of a written string stand at `at`, the string is read there, and the
/// next field starts behind it.
pub proof fn lemma_string_at(data: Seq<u8>, at: int, s: Seq<char>)
    requires
        string_fits(s),
        0 <= at,
        at + string_bytes(s).len() <= data.len(),
        data.subrange(at, at + string_bytes(s).len()) == string_bytes(s),
    ensures
        string_bytes(s).len() == 4 + encode_utf8(s).len(),
        string_at(data, at) == Some((encode_utf8(s), at + 4 + encode_utf8(s).len())),
        decode_utf8(encode_utf8(s)) == s,
{
    let text = encode_utf8(s);
    let written = string_bytes(s);
    lemma_u32_le_round_trip(text.len() as u32);
    vstd::utf8::encode_utf8_valid_utf8(s);
    encode_utf8_decode_utf8(s);
    assert(data.subrange(at, at + 4) =~= written.subrange(0, 4));
    assert(written.subrange(0, 4) =~= u32_le_bytes(text.len() as u32));
    assert(data.subrange(at + 4, at + 4 + text.len()) =~= written.subrange(4, 4 + text.len() as int));
    assert(written.subrange(4, 4 + text.len() as int) =~= text);
}

/// Dividing by a power of 256 is dividing by 256 again and again.
proof fn lemma_shift_steps(x: int)
    requires
        0 <= x,
    ensures
        x / 0x1_0000 == x / 0x100 / 256,
        x / 0x100_0000 == x / 0x1_0000 / 256,
        x / 0x1_0000_0000 == x / 0x100_0000 / 256,
        x / 0x100_0000_0000 == x / 0x1_0000_0000 / 256,
        x / 0x1_0000_0000_0000 == x / 0x100_0000_0000 / 256,
        x / 0x100_0000_0000_0000 == x / 0x1_0000_0000_0000 / 256,
{
}

/// Decoding the bytes of an integer gives the integer back.
pub proof fn lemma_u64_le_round_trip(x: u64)
    ensures
        u64_le_bytes(x).len() == 8,
        u64_from_le_bytes(u64_le_bytes(x)) == x,
{
    lemma_shift_steps(x as int);
    let q1 = x as int / 0x100;
    let q2 = q1 / 256;
    let q3 = q2 / 256;
    let q4 = q3 / 256;
    let q5 = q4 / 256;
    let q6 = q5 / 256;
    let q7 = q6 / 256;
    assert(q7 < 256);
    let b = u64_le_bytes(x);
    assert(b[0] == x - 256 * q1);
    assert(b[1] == q1 - 256 * q2);
    assert(b[2] == q2 - 256 * q3);
    assert(b[3] == q3 - 256 * q4);
    assert(b[4] == q4 - 256 * q5);
    assert(b[5] == q5 - 256 * q6);
    assert(b[6] == q6 - 256 * q7);
    assert(b[7] == q7);
}

/// Encoding the integer that eight bytes stand for gives the bytes back.
pub proof fn lemma_u64_le_bytes_round_trip(bytes: Seq<u8>)
    requires
        bytes.len() == 8,
    ensures
        0 <= u64_from_le_bytes(bytes) <= u64::MAX,
        u64_le_bytes(u64_from_le_bytes(bytes) as u64) == bytes,
{
    let x = u64_from_le_bytes(bytes);
    let r7: int = bytes[7] as int;
    let r6: int = bytes[6] + 256 * r7;
    let r5: int = bytes[5] + 256 * r6;
    let r4: int = bytes[4] + 256 * r5;
    let r3: int = bytes[3] + 256 * r4;
    let r2: int = bytes[2] + 256 * r3;
    let r1: int = bytes[1] + 256 * r2;
    assert(x == bytes[0] + 256 * r1);
    assert(0 <= x <= u64::MAX);
    lemma_shift_steps(x);
    assert(x / 0x100 == r1);
    assert(r1 / 256 == r2);
    assert(r2 / 256 == r3);
    assert(r3 / 256 == r4);
    assert(r4 / 256 == r5);
    assert(r5 / 256 == r6);
    assert(r6 / 256 == r7);
    assert(u64_le_bytes(x as u64) =~= bytes);
}

/// Appends the four bytes of `x`.
pub(crate) fn put_u32(out: &mut Vec<u8>, x: u32)
    ensures
        final(out)@ == old(out)@ + u32_le_bytes(x),
{
    out.push((x % 256) as u8);
    out.push((x / 0x100 % 256) as u8);
    out.push((x / 0x1_0000 % 256) as u8);
    out.push((x / 0x100_0000 % 256) as u8);
    assert(out@ =~= old(out)@ + u32_le_bytes(x));
}

/// Appends the eight bytes of `x`.
pub(crate) fn put_u64(out: &mut Vec<u8>, x: u64)
    ensures
        final(out)@ == old(out)@ + u64_le_bytes(x),
{
    out.push((x % 256) as u8);
    out.push((x / 0x100 % 256) as u8);
    out.push((x / 0x1_0000 % 256) as u8);
    out.push((x / 0x100_0000 % 256) as u8);
    out.push((x / 0x1_0000_0000 % 256) as u8);
    out.push((x / 0x100_0000_0000 % 256) as u8);
    out.push((x / 0x1_0000_0000_0000 % 256) as u8);
    out.push((x / 0x100_0000_0000_0000 % 256) as u8);
    assert(out@ =~= old(out)@ + u64_le_bytes(x));
}

/// Appends the 32 bytes of an address.
pub(crate) fn put_pubkey(out: &mut Vec<u8>, address: &Pubkey)
    ensures
        final(out)@ == old(out)@ + address@,
{
    out.extend_from_slice(&address.bytes);
}

/// Appends a string: its length, then its UTF-8 encoding.
pub(crate) fn put_string(out: &mut Vec<u8>, s: &str)
    requires
        string_fits(s@),
    ensures
        final(out)@ == old(out)@ + string_bytes(s@),
{
    let bytes = s.as_bytes();
    put_u32(out, bytes.len() as u32);
    out.extend_from_slice(bytes);
    assert(out@ =~= old(out)@ + string_bytes(s@));
}

/// The integer in the eight bytes of `data` that start at `at`.
pub(crate) fn read_u64(data: &[u8], at: usize) -> (r: u64)
    requires
        at + 8 <= data.len(),
    ensures
        r == u64_from_le_bytes(data@.subrange(at as int, at + 8)),
{
    let b0: u64 = data[at] as u64;
    let b1: u64 = data[at + 1] as u64;
    let b2: u64 = data[at + 2] as u64;
    let b3: u64 = data[at + 3] as u64;
    let b4: u64 = data[at + 4] as u64;
    let b5: u64 = data[at + 5] as u64;
    let b6: u64 = data[at + 6] as u64;
    let b7: u64 = data[at + 7] as u64;
    b0 + b1 * 0x100 + b2 * 0x1_0000 + b3 * 0x100_0000 + b4 * 0x1_0000_0000 + b5 * 0x100_0000_0000
        + b6 * 0x1_0000_0000_0000 + b7 * 0x100_0000_0000_0000
}

/// The address in the 32 bytes of `data` that start at `at`.
pub(crate) fn read_pubkey(data: &[u8], at: usize) -> (r: Pubkey)
    requires
        at + 32 <= data.len(),
    ensures
        r@ == data@.subrange(at as int, at + 32),
{
    let mut bytes: [u8; 32] = [0u8; 32];
    let mut i: usize = 0;
    while i < 32
        invariant
            i <= 32,
            at + 32 <= data.len(),
            forall|k: int| 0 <= k < i ==> bytes@[k] == data@[at + k],
        decreases 32 - i,
    {
        bytes[i] = data[at + i];
        i = i + 1;
    }
    assert(bytes@ =~= data@.subrange(at as int, at + 32));
    Pubkey { bytes }
}

/// The integer in the four bytes of `data` that start at `at`.
pub(crate) fn read_u32(data: &[u8], at: usize) -> (r: u32)
    requires
        at + 4 <= data.len(),
    ensures
        r == u32_from_le_bytes(data@.subrange(at as int, at + 4)),
{
    let b0: u32 = data[at] as u32;
    let b1: u32 = data[at + 1] as u32;
    let b2: u32 = data[at + 2] as u32;
    let b3: u32 = data[at + 3] as u32;
    b0 + b1 * 0x100 + b2 * 0x1_0000 + b3 * 0x100_0000
}

/// Calls `String::from_utf8` of std, which hands the bytes back as a string where they
/// are UTF-8 and fails where they are not.
#[verifier::external_body]
pub(crate) fn string_from_utf8(bytes: Vec<u8>) -> (r: Option<String>)
    ensures
        match r {
            Some(s) => valid_utf8(bytes@) && encode_utf8(s@) == bytes@,
            None => !valid_utf8(bytes@),
        },
{
    String::from_utf8(bytes).ok()
}

/// The string whose length starts at `at`, with the place where the next field starts.
pub(crate) fn read_string(data: &[u8], at: usize) -> (r: Option<(String, usize)>)
    requires
        at <= data.len(),
    ensures
        match r {
            Some((s, next)) => {
                &&& string_at(data@, at as int) == Some((encode_utf8(s@), next as int))
                &&& s@ == decode_utf8(encode_utf8(s@))
                &&& at + 4 <= next <= data.len()
            },
            None => string_at(data@, at as int).is_none(),
        },
{
    if data.len() - at < 4 {
        return None;
    }
    let length: u32 = read_u32(data, at);
    if data.len() - at - 4 < length as usize {
        return None;
    }
    let start: usize = at + 4;
    let end: usize = start + length as usize;
    let bytes = slice_to_vec(slice_subrange(data, start, end));
    match string_from_utf8(bytes) {
        Some(s) => {
            proof {
                encode_utf8_decode_utf8(s@);
            }
            Some((s, end))
        },
        None => None,
    }
}

} // verus!

//! The mathematical model of the on-disk encoding: little-endian integers,
//! length-prefixed strings, and the value every typed read returns for a
//! given file content. The executable readers in `source` are proved
//! against these functions, so both backends are pinned to the same model.

use vstd::prelude::*;

use crate::error::Error;

verus! {

/// The value of `n` bytes of `b` starting at 0-based position `p`,
/// least-significant byte first.
pub open spec fn le_at(b: Seq<u8>, p: int, n: nat) -> nat
    decreases n,
{
    if n == 0 {
        0
    } else {
        b[p] as nat + 256 * le_at(b, p + 1, (n - 1) as nat)
    }
}

/// 256 to the `n`-th power: the number of values `n` bytes can take.
pub open spec fn pow256(n: nat) -> nat
    decreases n,
{
    if n == 0 {
        1
    } else {
        256 * pow256((n - 1) as nat)
    }
}

pub proof fn lemma_le_at_bound(b: Seq<u8>, p: int, n: nat)
    ensures
        le_at(b, p, n) < pow256(n),
    decreases n,
{
    if n > 0 {
        lemma_le_at_bound(b, p + 1, (n - 1) as nat);
    }
}

pub proof fn lemma_pow256_le(m: nat, n: nat)
    requires
        m <= n,
    ensures
        pow256(m) <= pow256(n),
    decreases n,
{
    if m < n {
        lemma_pow256_le(m, (n - 1) as nat);
    }
}

pub proof fn lemma_pow256_16()
    ensures
        pow256(4) == 0x1_0000_0000,
        pow256(16) == 0x1_0000_0000_0000_0000_0000_0000_0000_0000,
{
    reveal_with_fuel(pow256, 17);
}

/// The characters that a byte sequence decodes to under UTF-8, or `None`
/// where the bytes are not well-formed UTF-8. The decoding itself is done
/// by the standard library; this names its result.
pub uninterp spec fn utf8_chars(bytes: Seq<u8>) -> Option<Seq<char>>;

/// A length-prefixed string whose length byte sits at 0-based position `p`
/// lies entirely within `b`.
pub open spec fn str_in_bounds(b: Seq<u8>, p: int) -> bool {
    &&& 0 <= p
    &&& p < b.len()
    &&& p + 1 + b[p] <= b.len()
}

/// The payload bytes of the length-prefixed string at 0-based position `p`.
pub open spec fn str_payload(b: Seq<u8>, p: int) -> Seq<u8> {
    b.subrange(p + 1, p + 1 + b[p])
}

/// The string at `p` lies within `b` and its payload is valid UTF-8.
pub open spec fn str_ok(b: Seq<u8>, p: int) -> bool {
    str_in_bounds(b, p) && utf8_chars(str_payload(b, p)) is Some
}

/// The decoded characters of the string at 0-based position `p`.
pub open spec fn str_chars(b: Seq<u8>, p: int) -> Seq<char> {
    utf8_chars(str_payload(b, p)).unwrap()
}

/// What `Source::read_u8` returns on a source holding `b`: the byte at the
/// 1-based offset `o`, or an I/O error where the offset is out of range.
pub open spec fn read_u8_model(b: Seq<u8>, o: int) -> Result<u8, Error> {
    if 1 <= o && o <= b.len() {
        Ok(b[o - 1])
    } else {
        Err(Error::IoError(o as u64))
    }
}

/// What `Source::read_u32` returns: the little-endian 32-bit value of the
/// four bytes starting at the 1-based offset `o`.
pub open spec fn read_u32_model(b: Seq<u8>, o: int) -> Result<u32, Error> {
    if 1 <= o && o + 3 <= b.len() {
        Ok(le_at(b, o - 1, 4) as u32)
    } else {
        Err(Error::IoError(o as u64))
    }
}

/// What `Source::read_ipv6` returns: the 16 bytes starting at the 1-based
/// offset `o`, assembled least-significant byte first — the file stores
/// addresses reversed relative to network byte order.
pub open spec fn read_ipv6_model(b: Seq<u8>, o: int) -> Result<u128, Error> {
    if 1 <= o && o + 15 <= b.len() {
        Ok(le_at(b, o - 1, 16) as u128)
    } else {
        Err(Error::IoError(o as u64))
    }
}

/// What `Source::read_str` returns: the length byte sits at 0-based
/// position `o` (that is, 1-based offset `o + 1`), the payload right
/// after it. Out-of-range reads are I/O errors; a payload that is not
/// valid UTF-8 is a format error.
pub open spec fn read_str_model(b: Seq<u8>, o: int) -> Result<Seq<char>, Error> {
    if !(0 <= o && o < b.len() && p_end(b, o) <= b.len()) {
        Err(Error::IoError(o as u64))
    } else if utf8_chars(str_payload(b, o)) is None {
        Err(Error::FormatError(o as u64))
    } else {
        Ok(str_chars(b, o))
    }
}

/// One past the payload of the string at `o`.
pub open spec fn p_end(b: Seq<u8>, o: int) -> int {
    o + 1 + b[o]
}

/// Round trip of the string encoding: a payload written into a buffer
/// after its length byte is read back exactly — as its UTF-8 characters
/// where it decodes, including the zero-length payload — wherever in the
/// file it was written.
pub proof fn lemma_read_str_round_trip(b: Seq<u8>, o: int, p: Seq<u8>)
    requires
        0 <= o < b.len(),
        p.len() <= 255,
        b[o] == p.len(),
        o + 1 + p.len() <= b.len(),
        b.subrange(o + 1, o + 1 + p.len() as int) == p,
    ensures
        utf8_chars(p) matches Some(cs) ==> read_str_model(b, o) == Ok::<Seq<char>, Error>(cs),
        utf8_chars(p) is None ==> read_str_model(b, o) == Err::<Seq<char>, Error>(
            Error::FormatError(o as u64),
        ),
{
    assert(str_payload(b, o) =~= p);
}

} // verus!

//! The byte-level data source: a whole file buffered in memory, or a
//! read-only memory mapping of it. Both backends expose the same typed
//! reads at 1-based byte offsets, each proved to return exactly what the
//! model in `bytes` says for the source's contents — which is what makes
//! the two backends interchangeable.

use vstd::prelude::*;

use crate::bytes::{
    le_at, lemma_le_at_bound, lemma_pow256_16, lemma_pow256_le, pow256, read_ipv6_model,
    read_str_model, read_u32_model, read_u8_model, str_payload, utf8_chars,
};
use crate::error::Error;

verus! {

#[verifier::external_type_specification]
#[verifier::external_body]
pub struct ExMmap(memmap::Mmap);

/// The bytes a read-only mapping holds. A mapping never changes under
/// this crate's use, so its contents are a function of the value alone.
pub uninterp spec fn mmap_bytes(m: memmap::Mmap) -> Seq<u8>;

/// Relies on `memmap::Mmap`'s `Deref` to `[u8]` and `<[u8]>::len`:
/// the length of the mapped region, the length of its contents.
#[verifier::external_body]
fn mmap_len(m: &memmap::Mmap) -> (r: usize)
    ensures
        r == mmap_bytes(*m).len(),
{
    m.len()
}

/// Relies on `memmap::Mmap`'s `Deref` to `[u8]` and slice indexing:
/// the byte of the mapped region at index `i`.
#[verifier::external_body]
fn mmap_byte(m: &memmap::Mmap, i: usize) -> (r: u8)
    requires
        i < mmap_bytes(*m).len(),
    ensures
        r == mmap_bytes(*m)[i as int],
{
    m[i]
}

/// Relies on `String::from_utf8`: it succeeds exactly on valid UTF-8
/// input, the decoded characters depend on the bytes alone, and the
/// empty input decodes to the empty string.
#[verifier::external_body]
fn vec_to_string(v: Vec<u8>) -> (r: Option<String>)
    ensures
        r is Some <==> utf8_chars(v@) is Some,
        r matches Some(s) ==> s@ == utf8_chars(v@).unwrap(),
        r is None ==> v@.len() > 0,
        r matches Some(s) ==> (v@.len() == 0 ==> s@.len() == 0),
{
    match String::from_utf8(v) {
        Ok(s) => Some(s),
        Err(_) => None,
    }
}

/// A uniform random-access reader over one database file.
#[derive(Debug)]
pub enum Source {
    /// The file's bytes held in an owned buffer.
    Mem(Vec<u8>),
    /// A read-only memory mapping of the file.
    Mapped(memmap::Mmap),
}

impl Source {
    /// The file contents this source reads from.
    pub open spec fn bytes(&self) -> Seq<u8> {
        match self {
            Source::Mem(v) => v@,
            Source::Mapped(m) => mmap_bytes(*m),
        }
    }

    /// The number of bytes in the file.
    pub fn len(&self) -> (r: usize)
        ensures
            r == self.bytes().len(),
    {
        match self {
            Source::Mem(v) => v.len(),
            Source::Mapped(m) => mmap_len(m),
        }
    }

    /// The byte at 0-based position `i`.
    pub(crate) fn byte_at(&self, i: usize) -> (r: u8)
        requires
            i < self.bytes().len(),
        ensures
            r == self.bytes()[i as int],
    {
        match self {
            Source::Mem(v) => v[i],
            Source::Mapped(m) => mmap_byte(m, i),
        }
    }

    /// The little-endian 32-bit value at 0-based position `p`.
    pub(crate) fn u32_at(&self, p: usize) -> (r: u32)
        requires
            p + 4 <= self.bytes().len(),
            self.bytes().len() <= usize::MAX,
        ensures
            r == le_at(self.bytes(), p as int, 4),
    {
        let b0 = self.byte_at(p) as u32;
        let b1 = self.byte_at(p + 1) as u32;
        let b2 = self.byte_at(p + 2) as u32;
        let b3 = self.byte_at(p + 3) as u32;
        proof {
            reveal_with_fuel(le_at, 5);
        }
        b0 + b1 * 256 + b2 * 65536 + b3 * 16777216
    }

    /// The little-endian 128-bit value at 0-based position `p`.
    pub(crate) fn u128_at(&self, p: usize) -> (r: u128)
        requires
            p + 16 <= self.bytes().len(),
            self.bytes().len() <= usize::MAX,
        ensures
            r == le_at(self.bytes(), p as int, 16),
    {
        let mut acc: u128 = 0;
        let mut k: usize = 16;
        while k > 0
            invariant
                k <= 16,
                p + 16 <= self.bytes().len(),
                self.bytes().len() <= usize::MAX,
                acc == le_at(self.bytes(), p + k, (16 - k) as nat),
                acc < pow256((16 - k) as nat),
            decreases k,
        {
            proof {
                lemma_pow256_le((17 - k) as nat, 16);
                lemma_pow256_16();
            }
            k = k - 1;
            let b = self.byte_at(p + k);
            acc = acc * 256 + b as u128;
            proof {
                lemma_le_at_bound(self.bytes(), p + k, (16 - k) as nat);
            }
        }
        acc
    }

    /// Reads the byte at the 1-based offset `offset`.
    pub fn read_u8(&self, offset: u64) -> (r: Result<u8, Error>)
        ensures
            r == read_u8_model(self.bytes(), offset as int),
    {
        let n = self.len();
        if 1 <= offset && offset <= n as u64 {
            Ok(self.byte_at((offset - 1) as usize))
        } else {
            Err(Error::IoError(offset))
        }
    }

    /// Reads the little-endian 32-bit value stored in the four bytes
    /// starting at the 1-based offset `offset`.
    pub fn read_u32(&self, offset: u64) -> (r: Result<u32, Error>)
        ensures
            r == read_u32_model(self.bytes(), offset as int),
    {
        let n = self.len();
        if 1 <= offset && offset - 1 < n as u64 && n as u64 - (offset - 1) >= 4 {
            Ok(self.u32_at((offset - 1) as usize))
        } else {
            Err(Error::IoError(offset))
        }
    }

    /// Reads the 16-byte address stored, least-significant byte first,
    /// at the 1-based offset `offset`, as an unsigned 128-bit value.
    pub fn read_ipv6(&self, offset: u64) -> (r: Result<u128, Error>)
        ensures
            r == read_ipv6_model(self.bytes(), offset as int),
    {
        let n = self.len();
        if 1 <= offset && offset - 1 < n as u64 && n as u64 - (offset - 1) >= 16 {
            Ok(self.u128_at((offset - 1) as usize))
        } else {
            Err(Error::IoError(offset))
        }
    }

    /// Reads the payload bytes of the length-prefixed string whose length
    /// byte sits at 0-based position `offset` (1-based offset `offset + 1`).
    pub(crate) fn read_str_bytes(&self, offset: u64) -> (r: Result<Vec<u8>, Error>)
        ensures
            match r {
                Ok(v) => {
                    &&& 0 <= offset < self.bytes().len()
                    &&& offset + 1 + self.bytes()[offset as int] <= self.bytes().len()
                    &&& v@ == str_payload(self.bytes(), offset as int)
                },
                Err(e) => {
                    &&& e == Error::IoError(offset)
                    &&& !(offset < self.bytes().len()
                        && offset + 1 + self.bytes()[offset as int] <= self.bytes().len())
                },
            },
    {
        let n = self.len();
        if !(offset < n as u64) {
            return Err(Error::IoError(offset));
        }
        let p = offset as usize;
        let l = self.byte_at(p);
        if (l as u64) > n as u64 - 1 - offset {
            return Err(Error::IoError(offset));
        }
        let mut buf: Vec<u8> = Vec::new();
        let mut i: usize = 0;
        while i < l as usize
            invariant
                i <= l,
                p == offset,
                p + 1 + l <= self.bytes().len(),
                self.bytes().len() <= usize::MAX,
                l == self.bytes()[p as int],
                buf@ == self.bytes().subrange(p + 1, p + 1 + i),
            decreases l - i,
        {
            buf.push(self.byte_at(p + 1 + i));
            i = i + 1;
            proof {
                assert(buf@ =~= self.bytes().subrange(p + 1, p + 1 + i));
            }
        }
        proof {
            assert(buf@ =~= str_payload(self.bytes(), offset as int));
        }
        Ok(buf)
    }

    /// Reads the length-prefixed string whose length byte sits at 0-based
    /// position `offset`: the one-byte length, then that many bytes of
    /// UTF-8 payload.
    pub fn read_str(&self, offset: u64) -> (r: Result<String, Error>)
        ensures
            match r {
                Ok(s) => read_str_model(self.bytes(), offset as int) == Ok::<Seq<char>, Error>(
                    s@,
                ),
                Err(e) => read_str_model(self.bytes(), offset as int) == Err::<Seq<char>, Error>(
                    e,
                ),
            },
    {
        let v = match self.read_str_bytes(offset) {
            Ok(v) => v,
            Err(e) => {
                return Err(e);
            },
        };
        match vec_to_string(v) {
            Some(s) => Ok(s),
            None => Err(Error::FormatError(offset)),
        }
    }
}

/// Backend equivalence: every typed read is a function of the source's
/// bytes alone, so two sources holding the same file contents — one
/// buffered, one memory-mapped — answer every read identically.
pub proof fn lemma_backend_equivalence(s1: Source, s2: Source, offset: u64)
    requires
        s1.bytes() == s2.bytes(),
    ensures
        read_u8_model(s1.bytes(), offset as int) == read_u8_model(s2.bytes(), offset as int),
        read_u32_model(s1.bytes(), offset as int) == read_u32_model(s2.bytes(), offset as int),
        read_ipv6_model(s1.bytes(), offset as int) == read_ipv6_model(s2.bytes(), offset as int),
        read_str_model(s1.bytes(), offset as int) == read_str_model(s2.bytes(), offset as int),
{
}

} // verus!

//! Binary search over a sorted table of IP-range rows: each row starts
//! with its range's lower-bound address (4 bytes for IPv4 tables, 16 for
//! IPv6), and a query selects the last row whose lower bound is at most
//! the queried address — with the first row standing in for addresses
//! below every lower bound.

use vstd::prelude::*;

use crate::bytes::{le_at, lemma_le_at_bound, lemma_pow256_16, lemma_pow256_le};
use crate::source::Source;

verus! {

/// The 0-based file position of row `i` of a table whose first row sits
/// at the 1-based offset `base` and whose rows are `rowsz` bytes wide.
pub open spec fn row_pos(base: u32, rowsz: nat, i: int) -> int {
    base - 1 + i * rowsz
}

/// The lower-bound key of row `i`: the little-endian value of its first
/// 4 bytes (IPv4) or 16 bytes (IPv6).
pub open spec fn row_key(b: Seq<u8>, base: u32, rowsz: nat, wide: bool, i: int) -> nat {
    le_at(
        b,
        row_pos(base, rowsz, i),
        if wide {
            16nat
        } else {
            4nat
        },
    )
}

/// The rows' lower bounds are non-decreasing — the format invariant the
/// search relies on.
pub open spec fn table_sorted(b: Seq<u8>, base: u32, rowsz: nat, wide: bool, count: int) -> bool {
    forall|i: int, j: int|
        0 <= i <= j < count ==> row_key(b, base, rowsz, wide, i) <= row_key(b, base, rowsz, wide, j)
}

/// The row a linear scan selects: the last row whose lower bound is at
/// most `key`, or row 0 where even row 0's lower bound is above `key`.
pub open spec fn scan_row(
    b: Seq<u8>,
    base: u32,
    rowsz: nat,
    wide: bool,
    count: int,
    key: nat,
) -> int
    decreases count,
{
    if count <= 1 {
        0
    } else if row_key(b, base, rowsz, wide, count - 1) <= key {
        count - 1
    } else {
        scan_row(b, base, rowsz, wide, count - 1, key)
    }
}

/// Row selection is consistent with a linear scan: on a sorted table, any
/// row satisfying the two binary-search exit conditions — its lower bound
/// is at most `key` unless it is row 0, and the next row's lower bound,
/// if any, is above `key` — is exactly the row the scan selects. In
/// particular that row is unique.
pub proof fn lemma_search_matches_scan(
    b: Seq<u8>,
    base: u32,
    rowsz: nat,
    wide: bool,
    count: int,
    key: nat,
    r: int,
)
    requires
        1 <= count,
        0 <= r < count,
        table_sorted(b, base, rowsz, wide, count),
        row_key(b, base, rowsz, wide, r) <= key || r == 0,
        r + 1 == count || row_key(b, base, rowsz, wide, r + 1) > key,
    ensures
        r == scan_row(b, base, rowsz, wide, count, key),
    decreases count,
{
    if count == 1 {
    } else if row_key(b, base, rowsz, wide, count - 1) <= key {
        if r < count - 1 {
            assert(row_key(b, base, rowsz, wide, r + 1) <= row_key(b, base, rowsz, wide, count - 1));
        }
    } else {
        assert(r < count - 1);
        lemma_search_matches_scan(b, base, rowsz, wide, count - 1, key, r);
    }
}

/// Binary search for the row covering `key`. The result satisfies the two
/// exit conditions unconditionally; on a sorted table they pin it to the
/// row a linear scan would select (`lemma_search_matches_scan`).
pub(crate) fn find_row(
    src: &Source,
    base: u32,
    count: u32,
    rowsz: u64,
    wide: bool,
    key: u128,
) -> (r: u64)
    requires
        count >= 1,
        base >= 1,
        rowsz >= if wide {
            16int
        } else {
            4int
        },
        base - 1 + count * rowsz <= src.bytes().len(),
        src.bytes().len() <= usize::MAX,
    ensures
        r < count,
        row_key(src.bytes(), base, rowsz as nat, wide, r as int) <= key || r == 0,
        r + 1 == count || row_key(src.bytes(), base, rowsz as nat, wide, r as int + 1) > key,
{
    let ghost b = src.bytes();
    let mut lo: u64 = 0;
    let mut hi: u64 = count as u64;
    while hi - lo > 1
        invariant
            0 <= lo < hi <= count,
            count >= 1,
            base >= 1,
            rowsz >= if wide {
                16int
            } else {
                4int
            },
            base - 1 + count * rowsz <= src.bytes().len(),
            src.bytes().len() <= usize::MAX,
            b == src.bytes(),
            row_key(b, base, rowsz as nat, wide, lo as int) <= key || lo == 0,
            hi == count || row_key(b, base, rowsz as nat, wide, hi as int) > key,
        decreases hi - lo,
    {
        let mid = lo + (hi - lo) / 2;
        proof {
            assert(1 <= mid < hi);
            vstd::arithmetic::mul::lemma_mul_inequality(
                mid as int + 1,
                count as int,
                rowsz as int,
            );
            assert((mid as int + 1) * (rowsz as int) == mid as int * rowsz as int + rowsz as int)
                by (nonlinear_arith);
            assert(mid as int * rowsz as int >= 0) by (nonlinear_arith)
                requires
                    mid as int >= 0,
                    rowsz as int >= 0,
            ;
        }
        let p = (base as u64 - 1) + mid * rowsz;
        let k_mid: u128 = if wide {
            src.u128_at(p as usize)
        } else {
            proof {
                lemma_le_at_bound(b, p as int, 4);
                lemma_pow256_le(4, 16);
                lemma_pow256_16();
            }
            src.u32_at(p as usize) as u128
        };
        proof {
            assert(k_mid == row_key(b, base, rowsz as nat, wide, mid as int));
        }
        if k_mid <= key {
            lo = mid;
        } else {
            hi = mid;
        }
    }
    lo
}

} // verus!

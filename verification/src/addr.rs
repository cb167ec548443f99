//! IP addresses as plain integers, and the folding of the IPv6 transition
//! ranges (6to4, Teredo) onto the IPv4 table: an address in one of those
//! ranges embeds an IPv4 address and is looked up as that address.

use vstd::prelude::*;

verus! {

/// First address of the 6to4 range, `2002::`.
pub const FROM_6TO4: u128 = 0x2002_0000_0000_0000_0000_0000_0000_0000;

/// Last address of the 6to4 range.
pub const TO_6TO4: u128 = 0x2002_ffff_ffff_ffff_ffff_ffff_ffff_ffff;

/// First address of the Teredo range, `2001::`.
pub const FROM_TEREDO: u128 = 0x2001_0000_0000_0000_0000_0000_0000_0000;

/// Last address of the Teredo range, `2001:0000:ffff:...`.
pub const TO_TEREDO: u128 = 0x2001_0000_ffff_ffff_ffff_ffff_ffff_ffff;

/// A query address: an IPv4 address as its 32-bit value, or an IPv6
/// address as its 128-bit value, both in numeric (big-endian) order.
#[derive(Debug, Clone, Copy, PartialEq, Eq, Structural)]
pub enum IpAddress {
    V4(u32),
    V6(u128),
}

pub open spec fn in_6to4(a: u128) -> bool {
    FROM_6TO4 <= a <= TO_6TO4
}

pub open spec fn in_teredo(a: u128) -> bool {
    FROM_TEREDO <= a <= TO_TEREDO
}

/// The IPv4 address a 6to4 address embeds: bytes 2 to 5 of the address.
pub open spec fn six_to_four_v4(a: u128) -> u32 {
    ((a >> 80) & 0xffff_ffff) as u32
}

/// The IPv4 address a Teredo address embeds: its last four bytes,
/// bit-inverted.
pub open spec fn teredo_v4(a: u128) -> u32 {
    !((a & 0xffff_ffff) as u32)
}

/// Whether the search runs over the IPv6 table (`true`) or the IPv4 table,
/// and the key compared against the row lower bounds. IPv6 queries in the
/// 6to4 or Teredo range fold onto the IPv4 table.
pub open spec fn folded(ip: IpAddress) -> (bool, u128) {
    match ip {
        IpAddress::V4(a) => (false, a as u128),
        IpAddress::V6(a) => if in_6to4(a) {
            (false, six_to_four_v4(a) as u128)
        } else if in_teredo(a) {
            (false, teredo_v4(a) as u128)
        } else {
            (true, a)
        },
    }
}

/// Classifies a query and extracts the key to search for.
pub fn fold_query(ip: IpAddress) -> (r: (bool, u128))
    ensures
        r == folded(ip),
{
    match ip {
        IpAddress::V4(a) => (false, a as u128),
        IpAddress::V6(a) => if FROM_6TO4 <= a && a <= TO_6TO4 {
            (false, (((a >> 80) & 0xffff_ffff) as u32) as u128)
        } else if FROM_TEREDO <= a && a <= TO_TEREDO {
            (false, (!((a & 0xffff_ffff) as u32)) as u128)
        } else {
            (true, a)
        },
    }
}

/// A 6to4 address and the IPv4 address it embeds produce the same search:
/// the same table and the same key. Every lookup result is a function of
/// that pair, so the two resolve to the same record.
pub proof fn lemma_6to4_same_query(a: u128)
    requires
        in_6to4(a),
    ensures
        folded(IpAddress::V6(a)) == folded(IpAddress::V4(six_to_four_v4(a))),
{
}

/// A Teredo address and the bit-inverted IPv4 address it embeds produce
/// the same search, so the two resolve to the same record.
pub proof fn lemma_teredo_same_query(a: u128)
    requires
        in_teredo(a),
    ensures
        folded(IpAddress::V6(a)) == folded(IpAddress::V4(teredo_v4(a))),
{
}

} // verus!

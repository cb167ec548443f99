//! Failures of the lookup engine.

use vstd::prelude::*;

verus! {

/// What can go wrong while opening a database or answering a lookup.
///
/// `Io` and `Format` carry the 1-based file offset at which the failing
/// read was attempted, so a malformed or truncated file is attributable
/// to a specific byte position.
#[derive(Debug, Clone, Copy, PartialEq, Eq, Structural)]
pub enum Error {
    /// A read past the end of the source, at this 1-based offset.
    IoError(u64),
    /// Bytes at this 1-based offset violate the expected structure
    /// (for a string field: the pool payload is not valid UTF-8).
    FormatError(u64),
    /// Neither the Location nor the Proxy schema matches the file.
    UnknownDb,
    /// The table for the queried address family holds no rows.
    RecordNotFound,
}

} // verus!

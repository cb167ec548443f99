//! A read-only lookup engine over the IP2Location / IP2Proxy fixed-layout
//! binary database format: typed byte-level reads over a buffered or
//! memory-mapped source, binary search over the sorted IP-range tables,
//! per-database-type column resolution, and the IPv6 transition-range
//! folding (6to4, Teredo) onto the IPv4 table.

pub mod addr;
pub mod bytes;
pub mod db;
pub mod error;
pub mod layout;
pub mod record;
pub mod search;
pub mod source;

pub use addr::IpAddress;
pub use db::{DbInfo, Header, LocationDB, ProxyDB, Record, DB};
pub use error::Error;
pub use record::{Country, LocationRecord, Proxy, ProxyRecord};
pub use source::Source;

//! The lookup engines: header parsing and schema validation, per-row
//! field decoding through the column layout, and the polymorphic handle
//! over the Location and Proxy variants.

use vstd::prelude::*;

use crate::addr::{fold_query, folded, in_6to4, in_teredo, six_to_four_v4, teredo_v4, IpAddress};
use crate::bytes::{le_at, lemma_le_at_bound, lemma_pow256_16, read_str_model, str_chars, str_ok, str_payload};
use crate::error::Error;
use crate::layout::{loc_layout, loc_layout_of, px_layout, px_layout_of, LocLayout, PxLayout};
use crate::record::{classify, classify_model, opt_view, Country, CountryV, LocationRecord, LocationRecordV, Proxy, ProxyRecord, ProxyRecordV};
use crate::search::{find_row, lemma_search_matches_scan, row_pos, scan_row, table_sorted};
use crate::source::{mmap_bytes, Source};

verus! {

/// The fixed-position fields parsed once from the start of the file.
#[derive(Debug, Clone, Copy, PartialEq, Eq, Structural)]
pub struct Header {
    pub db_type: u8,
    pub db_column: u8,
    pub year: u8,
    pub month: u8,
    pub day: u8,
    pub ipv4_count: u32,
    pub ipv4_addr: u32,
    pub ipv6_count: u32,
    pub ipv6_addr: u32,
    pub ipv4_index_addr: u32,
    pub ipv6_index_addr: u32,
    pub product_code: u8,
}

/// The header encoded in the first 30 bytes of the file.
pub open spec fn header_model(b: Seq<u8>) -> Header {
    Header {
        db_type: b[0],
        db_column: b[1],
        year: b[2],
        month: b[3],
        day: b[4],
        ipv4_count: le_at(b, 5, 4) as u32,
        ipv4_addr: le_at(b, 9, 4) as u32,
        ipv6_count: le_at(b, 13, 4) as u32,
        ipv6_addr: le_at(b, 17, 4) as u32,
        ipv4_index_addr: le_at(b, 21, 4) as u32,
        ipv6_index_addr: le_at(b, 25, 4) as u32,
        product_code: b[29],
    }
}

/// An IPv4 row: the 4-byte lower bound, then 4 bytes per further column.
pub open spec fn row4_size(col: u8) -> nat {
    4 * col as nat
}

/// An IPv6 row: the 16-byte lower bound, then 4 bytes per further column.
pub open spec fn row6_size(col: u8) -> nat {
    12 + 4 * col as nat
}

/// A non-empty table must sit at a 1-based offset and fit in the file.
pub open spec fn table_in_bounds(len: int, base: u32, count: u32, rowsz: nat) -> bool {
    count > 0 ==> base >= 1 && base - 1 + count * rowsz <= len
}

/// The structure both schemas share: a full header, at least the
/// lower-bound column, and both range tables inside the file.
pub open spec fn header_shape_valid(b: Seq<u8>) -> bool {
    &&& b.len() >= 30
    &&& {
        let h = header_model(b);
        &&& h.db_column >= 1
        &&& table_in_bounds(b.len() as int, h.ipv4_addr, h.ipv4_count, row4_size(h.db_column))
        &&& table_in_bounds(b.len() as int, h.ipv6_addr, h.ipv6_count, row6_size(h.db_column))
    }
}

/// The file matches the Location schema: product code 1, a known
/// Location type code, and a well-shaped header.
pub open spec fn location_valid(b: Seq<u8>) -> bool {
    &&& header_shape_valid(b)
    &&& header_model(b).product_code == 1
    &&& 1 <= header_model(b).db_type <= 26
}

/// The file matches the Proxy schema: product code 2, a known Proxy
/// type code, and a well-shaped header.
pub open spec fn proxy_valid(b: Seq<u8>) -> bool {
    &&& header_shape_valid(b)
    &&& header_model(b).product_code == 2
    &&& 1 <= header_model(b).db_type <= 11
}

/// Reads the fixed-position header fields; `None` where the file is
/// shorter than the minimum header size.
fn parse_header(src: &Source) -> (r: Option<Header>)
    ensures
        r is Some <==> src.bytes().len() >= 30,
        r matches Some(h) ==> h == header_model(src.bytes()),
{
    let n = src.len();
    if n < 30 {
        return None;
    }
    proof {
        lemma_le_at_bound(src.bytes(), 5, 4);
        lemma_le_at_bound(src.bytes(), 9, 4);
        lemma_le_at_bound(src.bytes(), 13, 4);
        lemma_le_at_bound(src.bytes(), 17, 4);
        lemma_le_at_bound(src.bytes(), 21, 4);
        lemma_le_at_bound(src.bytes(), 25, 4);
        lemma_pow256_16();
    }
    Some(
        Header {
            db_type: src.byte_at(0),
            db_column: src.byte_at(1),
            year: src.byte_at(2),
            month: src.byte_at(3),
            day: src.byte_at(4),
            ipv4_count: src.u32_at(5),
            ipv4_addr: src.u32_at(9),
            ipv6_count: src.u32_at(13),
            ipv6_addr: src.u32_at(17),
            ipv4_index_addr: src.u32_at(21),
            ipv6_index_addr: src.u32_at(25),
            product_code: src.byte_at(29),
        },
    )
}

/// Decides whether one range table fits in a file of `n` bytes.
fn table_ok(n: u64, base: u32, count: u32, rowsz: u64) -> (r: bool)
    requires
        rowsz <= 1032,
    ensures
        r == table_in_bounds(n as int, base, count, rowsz as nat),
{
    if count == 0 {
        true
    } else if base < 1 {
        false
    } else {
        proof {
            assert(count as int * rowsz as int <= 0xffff_ffffu64 * 1032) by (nonlinear_arith)
                requires
                    count as int <= 0xffff_ffff,
                    0 <= rowsz as int <= 1032,
            ;
        }
        let span = (count as u64) * rowsz;
        (base as u64 - 1) <= n && span <= n - (base as u64 - 1)
    }
}

/// Decides whether a parsed header is well shaped for its file.
fn header_ok(src: &Source, h: &Header) -> (r: bool)
    requires
        src.bytes().len() >= 30,
        *h == header_model(src.bytes()),
    ensures
        r == header_shape_valid(src.bytes()),
{
    if h.db_column < 1 {
        return false;
    }
    let n = src.len() as u64;
    let ok4 = table_ok(n, h.ipv4_addr, h.ipv4_count, 4 * h.db_column as u64);
    let ok6 = table_ok(n, h.ipv6_addr, h.ipv6_count, 12 + 4 * h.db_column as u64);
    ok4 && ok6
}

/// A column is present when the type's layout gives it a position and
/// the header's column count covers that position.
pub open spec fn fld_present(pos: u8, col: u8) -> bool {
    pos != 0 && pos <= col
}

/// The string-pool pointer stored for column `pos` of the row whose
/// column area starts at 0-based position `dpos`.
pub open spec fn fld_ptr(b: Seq<u8>, dpos: int, pos: u8) -> int {
    le_at(b, dpos + 4 * (pos - 1), 4) as int
}

/// A present string column decodes: its pool entry lies in the file and
/// holds valid UTF-8.
pub open spec fn opt_str_ok(b: Seq<u8>, dpos: int, pos: u8, col: u8) -> bool {
    fld_present(pos, col) ==> str_ok(b, fld_ptr(b, dpos, pos))
}

/// The value of an optional string column: `None` where the type omits
/// the column, else the pool string its pointer refers to.
pub open spec fn opt_str_model(b: Seq<u8>, dpos: int, pos: u8, col: u8) -> Option<Seq<char>> {
    if fld_present(pos, col) {
        Some(str_chars(b, fld_ptr(b, dpos, pos)))
    } else {
        None
    }
}

/// The value of an optional 32-bit column (latitude and longitude carry
/// the raw bits of the stored value).
pub open spec fn opt_u32_model(b: Seq<u8>, dpos: int, pos: u8, col: u8) -> Option<u32> {
    if fld_present(pos, col) {
        Some(le_at(b, dpos + 4 * (pos - 1), 4) as u32)
    } else {
        None
    }
}

/// A present country column decodes: the short name at its pointer and
/// the long name three bytes past it.
pub open spec fn country_ok(b: Seq<u8>, dpos: int, pos: u8, col: u8) -> bool {
    fld_present(pos, col) ==> str_ok(b, fld_ptr(b, dpos, pos)) && str_ok(
        b,
        fld_ptr(b, dpos, pos) + 3,
    )
}

/// The value of the country column: the two-letter code at the stored
/// pointer, the full name three bytes past it.
pub open spec fn country_model(b: Seq<u8>, dpos: int, pos: u8, col: u8) -> Option<CountryV> {
    if fld_present(pos, col) {
        Some(
            CountryV {
                short_name: str_chars(b, fld_ptr(b, dpos, pos)),
                long_name: str_chars(b, fld_ptr(b, dpos, pos) + 3),
            },
        )
    } else {
        None
    }
}

/// Decodes an optional 32-bit column of the row at `dpos`.
fn opt_u32_field(src: &Source, dpos: u64, pos: u8, col: u8) -> (r: Option<u32>)
    requires
        fld_present(pos, col) ==> dpos + 4 * (col as int) <= src.bytes().len(),
        src.bytes().len() <= usize::MAX,
    ensures
        r == opt_u32_model(src.bytes(), dpos as int, pos, col),
{
    if pos != 0 && pos <= col {
        Some(src.u32_at((dpos + 4 * (pos as u64 - 1)) as usize))
    } else {
        None
    }
}

/// Decodes an optional string column of the row at `dpos`: the 4-byte
/// pool pointer, then the length-prefixed string it refers to.
fn opt_str_field(src: &Source, dpos: u64, pos: u8, col: u8) -> (r: Result<Option<String>, Error>)
    requires
        fld_present(pos, col) ==> dpos + 4 * (col as int) <= src.bytes().len(),
        src.bytes().len() <= usize::MAX,
    ensures
        r is Ok <==> opt_str_ok(src.bytes(), dpos as int, pos, col),
        r matches Ok(o) ==> opt_view(o) == opt_str_model(src.bytes(), dpos as int, pos, col),
        r matches Err(e) ==> read_str_model(
            src.bytes(),
            fld_ptr(src.bytes(), dpos as int, pos),
        ) == Err::<Seq<char>, Error>(e),
{
    if pos != 0 && pos <= col {
        proof {
            lemma_le_at_bound(src.bytes(), dpos + 4 * (pos - 1), 4);
            lemma_pow256_16();
        }
        let ptr = src.u32_at((dpos + 4 * (pos as u64 - 1)) as usize);
        match src.read_str(ptr as u64) {
            Ok(s) => Ok(Some(s)),
            Err(e) => Err(e),
        }
    } else {
        Ok(None)
    }
}

/// Decodes the country column of the row at `dpos`.
fn country_field(src: &Source, dpos: u64, pos: u8, col: u8) -> (r: Result<Option<Country>, Error>)
    requires
        fld_present(pos, col) ==> dpos + 4 * (col as int) <= src.bytes().len(),
        src.bytes().len() <= usize::MAX,
    ensures
        r is Ok <==> country_ok(src.bytes(), dpos as int, pos, col),
        r matches Ok(o) ==> (match o {
            Some(c) => country_model(src.bytes(), dpos as int, pos, col) == Some(c@),
            None => country_model(src.bytes(), dpos as int, pos, col) is None,
        }),
{
    if pos != 0 && pos <= col {
        proof {
            lemma_le_at_bound(src.bytes(), dpos + 4 * (pos - 1), 4);
            lemma_pow256_16();
        }
        let ptr = src.u32_at((dpos + 4 * (pos as u64 - 1)) as usize);
        let short_name = match src.read_str(ptr as u64) {
            Ok(s) => s,
            Err(e) => {
                return Err(e);
            },
        };
        let long_name = match src.read_str(ptr as u64 + 3) {
            Ok(s) => s,
            Err(e) => {
                return Err(e);
            },
        };
        Ok(Some(Country { short_name, long_name }))
    } else {
        Ok(None)
    }
}

/// The base offset of the range table a query searches.
pub open spec fn sel_base(h: Header, wide: bool) -> u32 {
    if wide {
        h.ipv6_addr
    } else {
        h.ipv4_addr
    }
}

/// The row count of the range table a query searches.
pub open spec fn sel_count(h: Header, wide: bool) -> u32 {
    if wide {
        h.ipv6_count
    } else {
        h.ipv4_count
    }
}

/// The row width of the range table a query searches.
pub open spec fn sel_rowsz(h: Header, wide: bool) -> nat {
    if wide {
        row6_size(h.db_column)
    } else {
        row4_size(h.db_column)
    }
}

/// The searched table's rows are sorted by lower bound — the format
/// invariant of a well-built database file.
pub open spec fn sel_sorted(b: Seq<u8>, h: Header, wide: bool) -> bool {
    table_sorted(b, sel_base(h, wide), sel_rowsz(h, wide), wide, sel_count(h, wide) as int)
}

/// The 0-based position of the column area of the row a query selects:
/// the scan row's position, past the 16-byte lower bound of an IPv6 row
/// (whose later columns sit 12 bytes further than an IPv4 row's).
pub open spec fn sel_dpos(b: Seq<u8>, h: Header, wide: bool, key: nat) -> int {
    row_pos(
        sel_base(h, wide),
        sel_rowsz(h, wide),
        scan_row(b, sel_base(h, wide), sel_rowsz(h, wide), wide, sel_count(h, wide) as int, key),
    ) + if wide {
        12int
    } else {
        0int
    }
}

/// Binary-searches the table for `key` and returns the 0-based position
/// of the selected row's column area. On a sorted table that is exactly
/// the row a linear scan selects; on any table the position stays within
/// the file, so decoding cannot read out of bounds.
fn locate(src: &Source, h: &Header, wide: bool, key: u128) -> (dpos: u64)
    requires
        header_shape_valid(src.bytes()),
        *h == header_model(src.bytes()),
        src.bytes().len() <= usize::MAX,
        sel_count(*h, wide) > 0,
    ensures
        dpos + 4 * (h.db_column as int) <= src.bytes().len(),
        sel_sorted(src.bytes(), *h, wide) ==> dpos == sel_dpos(src.bytes(), *h, wide, key as nat),
{
    let ghost b = src.bytes();
    let base = if wide {
        h.ipv6_addr
    } else {
        h.ipv4_addr
    };
    let count = if wide {
        h.ipv6_count
    } else {
        h.ipv4_count
    };
    let rowsz: u64 = if wide {
        12 + 4 * h.db_column as u64
    } else {
        4 * h.db_column as u64
    };
    let row = find_row(src, base, count, rowsz, wide, key);
    proof {
        if sel_sorted(b, *h, wide) {
            lemma_search_matches_scan(
                b,
                base,
                rowsz as nat,
                wide,
                count as int,
                key as nat,
                row as int,
            );
        }
        vstd::arithmetic::mul::lemma_mul_inequality(row as int + 1, count as int, rowsz as int);
        assert((row as int + 1) * (rowsz as int) == row as int * rowsz as int + rowsz as int)
            by (nonlinear_arith);
        assert(row as int * rowsz as int >= 0) by (nonlinear_arith)
            requires
                row as int >= 0,
                rowsz as int >= 0,
        ;
    }
    if wide {
        (base as u64 - 1) + row * rowsz + 12
    } else {
        (base as u64 - 1) + row * rowsz
    }
}

/// Every present string column of a Location row decodes.
pub open spec fn loc_row_ok(b: Seq<u8>, dpos: int, lay: LocLayout, col: u8) -> bool {
    &&& country_ok(b, dpos, lay.country, col)
    &&& opt_str_ok(b, dpos, lay.region, col)
    &&& opt_str_ok(b, dpos, lay.city, col)
    &&& opt_str_ok(b, dpos, lay.isp, col)
    &&& opt_str_ok(b, dpos, lay.domain, col)
    &&& opt_str_ok(b, dpos, lay.zip_code, col)
    &&& opt_str_ok(b, dpos, lay.time_zone, col)
    &&& opt_str_ok(b, dpos, lay.net_speed, col)
    &&& opt_str_ok(b, dpos, lay.idd_code, col)
    &&& opt_str_ok(b, dpos, lay.area_code, col)
    &&& opt_str_ok(b, dpos, lay.weather_station_code, col)
    &&& opt_str_ok(b, dpos, lay.weather_station_name, col)
    &&& opt_str_ok(b, dpos, lay.mcc, col)
    &&& opt_str_ok(b, dpos, lay.mnc, col)
    &&& opt_str_ok(b, dpos, lay.mobile_brand, col)
    &&& opt_str_ok(b, dpos, lay.elevation, col)
    &&& opt_str_ok(b, dpos, lay.usage_type, col)
    &&& opt_str_ok(b, dpos, lay.address_type, col)
    &&& opt_str_ok(b, dpos, lay.category, col)
}

/// The record a Location row decodes to.
pub open spec fn loc_rec_model(
    b: Seq<u8>,
    dpos: int,
    lay: LocLayout,
    col: u8,
    ip: IpAddress,
) -> LocationRecordV {
    LocationRecordV {
        ip,
        country: country_model(b, dpos, lay.country, col),
        region: opt_str_model(b, dpos, lay.region, col),
        city: opt_str_model(b, dpos, lay.city, col),
        isp: opt_str_model(b, dpos, lay.isp, col),
        latitude: opt_u32_model(b, dpos, lay.latitude, col),
        longitude: opt_u32_model(b, dpos, lay.longitude, col),
        domain: opt_str_model(b, dpos, lay.domain, col),
        zip_code: opt_str_model(b, dpos, lay.zip_code, col),
        time_zone: opt_str_model(b, dpos, lay.time_zone, col),
        net_speed: opt_str_model(b, dpos, lay.net_speed, col),
        idd_code: opt_str_model(b, dpos, lay.idd_code, col),
        area_code: opt_str_model(b, dpos, lay.area_code, col),
        weather_station_code: opt_str_model(b, dpos, lay.weather_station_code, col),
        weather_station_name: opt_str_model(b, dpos, lay.weather_station_name, col),
        mcc: opt_str_model(b, dpos, lay.mcc, col),
        mnc: opt_str_model(b, dpos, lay.mnc, col),
        mobile_brand: opt_str_model(b, dpos, lay.mobile_brand, col),
        elevation: opt_str_model(b, dpos, lay.elevation, col),
        usage_type: opt_str_model(b, dpos, lay.usage_type, col),
        address_type: opt_str_model(b, dpos, lay.address_type, col),
        category: opt_str_model(b, dpos, lay.category, col),
    }
}

/// A Location database: its byte source and parsed header.
#[derive(Debug)]
pub struct LocationDB {
    pub source: Source,
    pub header: Header,
}

impl LocationDB {
    /// The handle is as opening built it: the stored header is the
    /// file's, the file matches the Location schema, and both range
    /// tables lie within it.
    pub open spec fn wf(&self) -> bool {
        &&& location_valid(self.source.bytes())
        &&& self.header == header_model(self.source.bytes())
        &&& self.source.bytes().len() <= usize::MAX
    }
}

/// What a Location lookup returns: where the queried family's table is
/// empty, the record-not-found error; else — provided the table is
/// sorted, as the format guarantees — success exactly when every present
/// string column of the selected row decodes, and then precisely the
/// record the model reads off the file.
pub open spec fn loc_lookup_post(
    d: LocationDB,
    ip: IpAddress,
    r: Result<LocationRecord, Error>,
) -> bool {
    let b = d.source.bytes();
    let h = d.header;
    let (wide, key) = folded(ip);
    let lay = loc_layout(h.db_type);
    let col = h.db_column;
    &&& (sel_count(h, wide) == 0 ==> r == Err::<LocationRecord, Error>(Error::RecordNotFound))
    &&& (sel_count(h, wide) > 0 && sel_sorted(b, h, wide) ==> {
        let dpos = sel_dpos(b, h, wide, key as nat);
        &&& (r is Ok <==> loc_row_ok(b, dpos, lay, col))
        &&& (r matches Ok(rec) ==> rec@ == loc_rec_model(b, dpos, lay, col, ip))
    })
}

impl LocationDB {
    /// Answers one query: fold the address onto its table, binary-search
    /// the sorted range rows, and decode every column this database type
    /// includes into a fresh record.
    pub fn ip_lookup(&self, ip: IpAddress) -> (r: Result<LocationRecord, Error>)
        requires
            self.wf(),
        ensures
            loc_lookup_post(*self, ip, r),
    {
        let (wide, key) = fold_query(ip);
        let count = if wide {
            self.header.ipv6_count
        } else {
            self.header.ipv4_count
        };
        if count == 0 {
            return Err(Error::RecordNotFound);
        }
        let dpos = locate(&self.source, &self.header, wide, key);
        let lay = loc_layout_of(self.header.db_type);
        let col = self.header.db_column;
        let src = &self.source;
        let country = country_field(src, dpos, lay.country, col)?;
        let region = opt_str_field(src, dpos, lay.region, col)?;
        let city = opt_str_field(src, dpos, lay.city, col)?;
        let isp = opt_str_field(src, dpos, lay.isp, col)?;
        let latitude = opt_u32_field(src, dpos, lay.latitude, col);
        let longitude = opt_u32_field(src, dpos, lay.longitude, col);
        let domain = opt_str_field(src, dpos, lay.domain, col)?;
        let zip_code = opt_str_field(src, dpos, lay.zip_code, col)?;
        let time_zone = opt_str_field(src, dpos, lay.time_zone, col)?;
        let net_speed = opt_str_field(src, dpos, lay.net_speed, col)?;
        let idd_code = opt_str_field(src, dpos, lay.idd_code, col)?;
        let area_code = opt_str_field(src, dpos, lay.area_code, col)?;
        let weather_station_code = opt_str_field(src, dpos, lay.weather_station_code, col)?;
        let weather_station_name = opt_str_field(src, dpos, lay.weather_station_name, col)?;
        let mcc = opt_str_field(src, dpos, lay.mcc, col)?;
        let mnc = opt_str_field(src, dpos, lay.mnc, col)?;
        let mobile_brand = opt_str_field(src, dpos, lay.mobile_brand, col)?;
        let elevation = opt_str_field(src, dpos, lay.elevation, col)?;
        let usage_type = opt_str_field(src, dpos, lay.usage_type, col)?;
        let address_type = opt_str_field(src, dpos, lay.address_type, col)?;
        let category = opt_str_field(src, dpos, lay.category, col)?;
        Ok(
            LocationRecord {
                ip,
                country,
                region,
                city,
                isp,
                latitude,
                longitude,
                domain,
                zip_code,
                time_zone,
                net_speed,
                idd_code,
                area_code,
                weather_station_code,
                weather_station_name,
                mcc,
                mnc,
                mobile_brand,
                elevation,
                usage_type,
                address_type,
                category,
            },
        )
    }
}

/// Every present string column of a Proxy row decodes.
pub open spec fn px_row_ok(b: Seq<u8>, dpos: int, lay: PxLayout, col: u8) -> bool {
    &&& country_ok(b, dpos, lay.country, col)
    &&& opt_str_ok(b, dpos, lay.proxy_type, col)
    &&& opt_str_ok(b, dpos, lay.region, col)
    &&& opt_str_ok(b, dpos, lay.city, col)
    &&& opt_str_ok(b, dpos, lay.isp, col)
    &&& opt_str_ok(b, dpos, lay.domain, col)
    &&& opt_str_ok(b, dpos, lay.usage_type, col)
    &&& opt_str_ok(b, dpos, lay.asn, col)
    &&& opt_str_ok(b, dpos, lay.as_, col)
    &&& opt_str_ok(b, dpos, lay.last_seen, col)
    &&& opt_str_ok(b, dpos, lay.threat, col)
    &&& opt_str_ok(b, dpos, lay.provider, col)
}

/// The classification of a Proxy row, from the raw payload bytes of its
/// country short code and proxy-type column.
pub open spec fn is_proxy_model(b: Seq<u8>, dpos: int, lay: PxLayout, col: u8) -> Option<Proxy> {
    if fld_present(lay.country, col) {
        Some(
            classify_model(
                str_payload(b, fld_ptr(b, dpos, lay.country)),
                if fld_present(lay.proxy_type, col) {
                    Some(str_payload(b, fld_ptr(b, dpos, lay.proxy_type)))
                } else {
                    None
                },
            ),
        )
    } else {
        None
    }
}

/// The record a Proxy row decodes to.
pub open spec fn px_rec_model(
    b: Seq<u8>,
    dpos: int,
    lay: PxLayout,
    col: u8,
    ip: IpAddress,
) -> ProxyRecordV {
    ProxyRecordV {
        ip,
        country: country_model(b, dpos, lay.country, col),
        region: opt_str_model(b, dpos, lay.region, col),
        city: opt_str_model(b, dpos, lay.city, col),
        isp: opt_str_model(b, dpos, lay.isp, col),
        domain: opt_str_model(b, dpos, lay.domain, col),
        is_proxy: is_proxy_model(b, dpos, lay, col),
        proxy_type: opt_str_model(b, dpos, lay.proxy_type, col),
        asn: opt_str_model(b, dpos, lay.asn, col),
        as_: opt_str_model(b, dpos, lay.as_, col),
        last_seen: opt_str_model(b, dpos, lay.last_seen, col),
        threat: opt_str_model(b, dpos, lay.threat, col),
        provider: opt_str_model(b, dpos, lay.provider, col),
        usage_type: opt_str_model(b, dpos, lay.usage_type, col),
    }
}

/// A Proxy database: its byte source and parsed header.
#[derive(Debug)]
pub struct ProxyDB {
    pub source: Source,
    pub header: Header,
}

impl ProxyDB {
    /// The handle is as opening built it: the stored header is the
    /// file's, the file matches the Proxy schema, and both range tables
    /// lie within it.
    pub open spec fn wf(&self) -> bool {
        &&& proxy_valid(self.source.bytes())
        &&& self.header == header_model(self.source.bytes())
        &&& self.source.bytes().len() <= usize::MAX
    }
}

/// What a Proxy lookup returns, in the same shape as the Location
/// engine's contract.
pub open spec fn px_lookup_post(
    d: ProxyDB,
    ip: IpAddress,
    r: Result<ProxyRecord, Error>,
) -> bool {
    let b = d.source.bytes();
    let h = d.header;
    let (wide, key) = folded(ip);
    let lay = px_layout(h.db_type);
    let col = h.db_column;
    &&& (sel_count(h, wide) == 0 ==> r == Err::<ProxyRecord, Error>(Error::RecordNotFound))
    &&& (sel_count(h, wide) > 0 && sel_sorted(b, h, wide) ==> {
        let dpos = sel_dpos(b, h, wide, key as nat);
        &&& (r is Ok <==> px_row_ok(b, dpos, lay, col))
        &&& (r matches Ok(rec) ==> rec@ == px_rec_model(b, dpos, lay, col, ip))
    })
}

impl ProxyDB {
    /// Answers one query: fold the address onto its table, binary-search
    /// the sorted range rows, decode every column this database type
    /// includes, and classify the row.
    pub fn ip_lookup(&self, ip: IpAddress) -> (r: Result<ProxyRecord, Error>)
        requires
            self.wf(),
        ensures
            px_lookup_post(*self, ip, r),
    {
        let (wide, key) = fold_query(ip);
        let count = if wide {
            self.header.ipv6_count
        } else {
            self.header.ipv4_count
        };
        if count == 0 {
            return Err(Error::RecordNotFound);
        }
        let dpos = locate(&self.source, &self.header, wide, key);
        let lay = px_layout_of(self.header.db_type);
        let col = self.header.db_column;
        let src = &self.source;
        let country = country_field(src, dpos, lay.country, col)?;
        let proxy_type = opt_str_field(src, dpos, lay.proxy_type, col)?;
        let region = opt_str_field(src, dpos, lay.region, col)?;
        let city = opt_str_field(src, dpos, lay.city, col)?;
        let isp = opt_str_field(src, dpos, lay.isp, col)?;
        let domain = opt_str_field(src, dpos, lay.domain, col)?;
        let usage_type = opt_str_field(src, dpos, lay.usage_type, col)?;
        let asn = opt_str_field(src, dpos, lay.asn, col)?;
        let as_ = opt_str_field(src, dpos, lay.as_, col)?;
        let last_seen = opt_str_field(src, dpos, lay.last_seen, col)?;
        let threat = opt_str_field(src, dpos, lay.threat, col)?;
        let provider = opt_str_field(src, dpos, lay.provider, col)?;
        let is_proxy: Option<Proxy> = if lay.country != 0 && lay.country <= col {
            proof {
                lemma_le_at_bound(src.bytes(), dpos + 4 * (lay.country - 1), 4);
                lemma_le_at_bound(src.bytes(), dpos + 4 * (lay.proxy_type - 1), 4);
                lemma_pow256_16();
            }
            let cptr = src.u32_at((dpos + 4 * (lay.country as u64 - 1)) as usize);
            let short_b = match src.read_str_bytes(cptr as u64) {
                Ok(v) => v,
                Err(e) => {
                    return Err(e);
                },
            };
            let ptype_b: Option<Vec<u8>> = if lay.proxy_type != 0 && lay.proxy_type <= col {
                let pptr = src.u32_at((dpos + 4 * (lay.proxy_type as u64 - 1)) as usize);
                match src.read_str_bytes(pptr as u64) {
                    Ok(v) => Some(v),
                    Err(e) => {
                        return Err(e);
                    },
                }
            } else {
                None
            };
            Some(classify(&short_b, &ptype_b))
        } else {
            None
        };
        Ok(
            ProxyRecord {
                ip,
                country,
                region,
                city,
                isp,
                domain,
                is_proxy,
                proxy_type,
                asn,
                as_,
                last_seen,
                threat,
                provider,
                usage_type,
            },
        )
    }
}

/// A polymorphic handle over whichever database variant was opened.
#[derive(Debug)]
pub enum DB {
    LocationDb(LocationDB),
    ProxyDb(ProxyDB),
}

/// The record a lookup returns, tagged with the database variant.
#[derive(Debug, Clone, PartialEq)]
pub enum Record {
    LocationDb(LocationRecord),
    ProxyDb(ProxyRecord),
}

/// What opening a file with contents `b` returns: the Location schema is
/// probed first, then Proxy; where neither validates, the unknown-database
/// error — and nothing else.
pub open spec fn open_post(r: Result<DB, Error>, b: Seq<u8>) -> bool {
    &&& (r is Ok <==> location_valid(b) || proxy_valid(b))
    &&& (location_valid(b) ==> (r matches Ok(DB::LocationDb(d)) && d.wf() && d.source.bytes()
        == b))
    &&& (!location_valid(b) && proxy_valid(b) ==> (r matches Ok(DB::ProxyDb(d)) && d.wf()
        && d.source.bytes() == b))
    &&& (r matches Err(e) ==> e == Error::UnknownDb)
}

impl DB {
    /// The handle was built by one of the open operations.
    pub open spec fn wf(&self) -> bool {
        match self {
            DB::LocationDb(d) => d.wf(),
            DB::ProxyDb(d) => d.wf(),
        }
    }

    /// The opened file's contents.
    pub open spec fn bytes(&self) -> Seq<u8> {
        match self {
            DB::LocationDb(d) => d.source.bytes(),
            DB::ProxyDb(d) => d.source.bytes(),
        }
    }

    /// The parsed header of the opened file.
    pub open spec fn header(&self) -> Header {
        match self {
            DB::LocationDb(d) => d.header,
            DB::ProxyDb(d) => d.header,
        }
    }

    /// Probes the header against the Location schema, then Proxy.
    fn from_source(src: Source) -> (r: Result<DB, Error>)
        ensures
            open_post(r, src.bytes()),
    {
        let n = src.len();
        let h = match parse_header(&src) {
            Some(h) => h,
            None => {
                return Err(Error::UnknownDb);
            },
        };
        let shape = header_ok(&src, &h);
        if shape && h.product_code == 1 && 1 <= h.db_type && h.db_type <= 26 {
            Ok(DB::LocationDb(LocationDB { source: src, header: h }))
        } else if shape && h.product_code == 2 && 1 <= h.db_type && h.db_type <= 11 {
            Ok(DB::ProxyDb(ProxyDB { source: src, header: h }))
        } else {
            Err(Error::UnknownDb)
        }
    }

    /// Opens a database from a buffer holding the whole file, probing the
    /// Location schema first, then Proxy.
    pub fn from_file(buf: Vec<u8>) -> (r: Result<DB, Error>)
        ensures
            open_post(r, buf@),
    {
        DB::from_source(Source::Mem(buf))
    }

    /// Opens a database over a read-only memory mapping of the file,
    /// probing the Location schema first, then Proxy.
    pub fn from_file_mmap(map: memmap::Mmap) -> (r: Result<DB, Error>)
        ensures
            open_post(r, mmap_bytes(map)),
    {
        DB::from_source(Source::Mapped(map))
    }

    /// What a lookup through the handle returns: the opened variant's
    /// record in the matching tag, under that variant's contract.
    pub open spec fn lookup_post(db: DB, ip: IpAddress, r: Result<Record, Error>) -> bool {
        match db {
            DB::LocationDb(d) => match r {
                Ok(Record::LocationDb(rec)) => loc_lookup_post(
                    d,
                    ip,
                    Ok::<LocationRecord, Error>(rec),
                ),
                Ok(_) => false,
                Err(e) => loc_lookup_post(d, ip, Err::<LocationRecord, Error>(e)),
            },
            DB::ProxyDb(d) => match r {
                Ok(Record::ProxyDb(rec)) => px_lookup_post(d, ip, Ok::<ProxyRecord, Error>(rec)),
                Ok(_) => false,
                Err(e) => px_lookup_post(d, ip, Err::<ProxyRecord, Error>(e)),
            },
        }
    }

    /// Answers one query against whichever database variant was opened.
    pub fn ip_lookup(&self, ip: IpAddress) -> (r: Result<Record, Error>)
        requires
            self.wf(),
        ensures
            DB::lookup_post(*self, ip, r),
    {
        match self {
            DB::LocationDb(d) => match d.ip_lookup(ip) {
                Ok(rec) => Ok(Record::LocationDb(rec)),
                Err(e) => Err(e),
            },
            DB::ProxyDb(d) => match d.ip_lookup(ip) {
                Ok(rec) => Ok(Record::ProxyDb(rec)),
                Err(e) => Err(e),
            },
        }
    }
}

/// The descriptive facts of an opened database, for callers to format
/// and display.
#[derive(Debug, Clone, Copy, PartialEq, Eq, Structural)]
pub struct DbInfo {
    pub db_type: u8,
    pub db_column: u8,
    pub year: u8,
    pub month: u8,
    pub day: u8,
    pub ipv4_count: u32,
    pub ipv6_count: u32,
}

/// The information a handle reports about its database.
pub open spec fn db_info_model(h: Header) -> DbInfo {
    DbInfo {
        db_type: h.db_type,
        db_column: h.db_column,
        year: h.year,
        month: h.month,
        day: h.day,
        ipv4_count: h.ipv4_count,
        ipv6_count: h.ipv6_count,
    }
}

impl DB {
    /// The database's descriptive facts — type code, column count,
    /// edition date and row counts — for callers to display.
    pub fn print_db_info(&self) -> (r: DbInfo)
        ensures
            r == db_info_model(self.header()),
    {
        let h = match self {
            DB::LocationDb(d) => &d.header,
            DB::ProxyDb(d) => &d.header,
        };
        DbInfo {
            db_type: h.db_type,
            db_column: h.db_column,
            year: h.year,
            month: h.month,
            day: h.day,
            ipv4_count: h.ipv4_count,
            ipv6_count: h.ipv6_count,
        }
    }
}

/// A 6to4 address resolves to the same record as the IPv4 address it
/// embeds: both fold to the same table and search key, so both lookups
/// select the same row and decode the same columns — the assembled
/// records differ only in the echoed query address.
pub proof fn lemma_6to4_resolves_as_v4(
    b: Seq<u8>,
    dpos: int,
    lay: LocLayout,
    play: PxLayout,
    col: u8,
    a: u128,
)
    requires
        in_6to4(a),
    ensures
        folded(IpAddress::V6(a)) == folded(IpAddress::V4(six_to_four_v4(a))),
        loc_rec_model(b, dpos, lay, col, IpAddress::V6(a)) == (LocationRecordV {
            ip: IpAddress::V6(a),
            ..loc_rec_model(b, dpos, lay, col, IpAddress::V4(six_to_four_v4(a)))
        }),
        px_rec_model(b, dpos, play, col, IpAddress::V6(a)) == (ProxyRecordV {
            ip: IpAddress::V6(a),
            ..px_rec_model(b, dpos, play, col, IpAddress::V4(six_to_four_v4(a)))
        }),
{
}

/// A Teredo address resolves to the same record as the bit-inverted IPv4
/// address it embeds, in the same way.
pub proof fn lemma_teredo_resolves_as_v4(
    b: Seq<u8>,
    dpos: int,
    lay: LocLayout,
    play: PxLayout,
    col: u8,
    a: u128,
)
    requires
        in_teredo(a),
    ensures
        folded(IpAddress::V6(a)) == folded(IpAddress::V4(teredo_v4(a))),
        loc_rec_model(b, dpos, lay, col, IpAddress::V6(a)) == (LocationRecordV {
            ip: IpAddress::V6(a),
            ..loc_rec_model(b, dpos, lay, col, IpAddress::V4(teredo_v4(a)))
        }),
        px_rec_model(b, dpos, play, col, IpAddress::V6(a)) == (ProxyRecordV {
            ip: IpAddress::V6(a),
            ..px_rec_model(b, dpos, play, col, IpAddress::V4(teredo_v4(a)))
        }),
{
}

/// Schema-driven absence: whether a field of a decoded record is unset
/// depends only on the database type and column count — never on the
/// query, the selected row, or the file's other contents. Two lookups
/// against headers that agree therefore leave exactly the same fields
/// unset.
pub proof fn lemma_absence_schema_driven(
    b1: Seq<u8>,
    b2: Seq<u8>,
    dpos1: int,
    dpos2: int,
    lay: LocLayout,
    col: u8,
    ip1: IpAddress,
    ip2: IpAddress,
)
    ensures
        (loc_rec_model(b1, dpos1, lay, col, ip1).country is None) == (loc_rec_model(
            b2,
            dpos2,
            lay,
            col,
            ip2,
        ).country is None),
        (loc_rec_model(b1, dpos1, lay, col, ip1).region is None) == (loc_rec_model(
            b2,
            dpos2,
            lay,
            col,
            ip2,
        ).region is None),
        (loc_rec_model(b1, dpos1, lay, col, ip1).city is None) == (loc_rec_model(
            b2,
            dpos2,
            lay,
            col,
            ip2,
        ).city is None),
        (loc_rec_model(b1, dpos1, lay, col, ip1).isp is None) == (loc_rec_model(
            b2,
            dpos2,
            lay,
            col,
            ip2,
        ).isp is None),
        (loc_rec_model(b1, dpos1, lay, col, ip1).latitude is None) == (loc_rec_model(
            b2,
            dpos2,
            lay,
            col,
            ip2,
        ).latitude is None),
        (loc_rec_model(b1, dpos1, lay, col, ip1).longitude is None) == (loc_rec_model(
            b2,
            dpos2,
            lay,
            col,
            ip2,
        ).longitude is None),
        (loc_rec_model(b1, dpos1, lay, col, ip1).domain is None) == (loc_rec_model(
            b2,
            dpos2,
            lay,
            col,
            ip2,
        ).domain is None),
        (loc_rec_model(b1, dpos1, lay, col, ip1).zip_code is None) == (loc_rec_model(
            b2,
            dpos2,
            lay,
            col,
            ip2,
        ).zip_code is None),
        (loc_rec_model(b1, dpos1, lay, col, ip1).time_zone is None) == (loc_rec_model(
            b2,
            dpos2,
            lay,
            col,
            ip2,
        ).time_zone is None),
        (loc_rec_model(b1, dpos1, lay, col, ip1).usage_type is None) == (loc_rec_model(
            b2,
            dpos2,
            lay,
            col,
            ip2,
        ).usage_type is None),
{
}

} // verus!

//! End-to-end tests over synthetic database files: byte-level reads on
//! both backends, binary search row selection, transition-range folding,
//! schema probing, and full record decoding.

use ip2location::{Country, DB, Error, IpAddress, Proxy, Record, Source};

fn put_u32(buf: &mut Vec<u8>, pos: usize, v: u32) {
    let b = v.to_le_bytes();
    for i in 0..4 {
        buf[pos + i] = b[i];
    }
}

fn put_u128(buf: &mut Vec<u8>, pos: usize, v: u128) {
    let b = v.to_le_bytes();
    for i in 0..16 {
        buf[pos + i] = b[i];
    }
}

/// Appends a country entry (short name, long name at +3) to the pool and
/// returns the 0-based position its pointer must hold.
fn push_country(buf: &mut Vec<u8>, short: &str, long: &str) -> u32 {
    assert!(short.len() <= 2);
    let ptr = buf.len();
    buf.push(short.len() as u8);
    buf.extend_from_slice(short.as_bytes());
    while buf.len() < ptr + 3 {
        buf.push(0);
    }
    buf.push(long.len() as u8);
    buf.extend_from_slice(long.as_bytes());
    ptr as u32
}

fn push_str(buf: &mut Vec<u8>, s: &str) -> u32 {
    let ptr = buf.len();
    buf.push(s.len() as u8);
    buf.extend_from_slice(s.as_bytes());
    ptr as u32
}

/// Builds a Location type-1 database (columns: lower bound, country):
/// IPv4 rows are 8 bytes, IPv6 rows 20 bytes.
fn loc_db1(v4rows: &[(u32, &str, &str)], v6rows: &[(u128, &str, &str)]) -> Vec<u8> {
    let v4addr = 64usize;
    let v6addr = v4addr + v4rows.len() * 8;
    let pool = v6addr + v6rows.len() * 20;
    let mut buf = vec![0u8; pool];
    buf[0] = 1; // type DB1
    buf[1] = 2; // columns
    buf[2] = 24;
    buf[3] = 1;
    buf[4] = 1;
    put_u32(&mut buf, 5, v4rows.len() as u32);
    put_u32(&mut buf, 9, (v4addr + 1) as u32);
    put_u32(&mut buf, 13, v6rows.len() as u32);
    put_u32(&mut buf, 17, (v6addr + 1) as u32);
    buf[29] = 1; // product code: Location
    for (i, (k, sh, lo)) in v4rows.iter().enumerate() {
        let ptr = push_country(&mut buf, sh, lo);
        put_u32(&mut buf, v4addr + i * 8, *k);
        put_u32(&mut buf, v4addr + i * 8 + 4, ptr);
    }
    for (i, (k, sh, lo)) in v6rows.iter().enumerate() {
        let ptr = push_country(&mut buf, sh, lo);
        put_u128(&mut buf, v6addr + i * 20, *k);
        put_u32(&mut buf, v6addr + i * 20 + 16, ptr);
    }
    buf
}

/// Builds a Proxy type-2 database (columns: lower bound, proxy type,
/// country): IPv4 rows are 12 bytes.
fn px_db2(v4rows: &[(u32, &str, &str, &str)]) -> Vec<u8> {
    let v4addr = 64usize;
    let pool = v4addr + v4rows.len() * 12;
    let mut buf = vec![0u8; pool];
    buf[0] = 2; // type PX2
    buf[1] = 3; // columns
    buf[2] = 24;
    buf[3] = 1;
    buf[4] = 1;
    put_u32(&mut buf, 5, v4rows.len() as u32);
    put_u32(&mut buf, 9, (v4addr + 1) as u32);
    buf[29] = 2; // product code: Proxy
    for (i, (k, ptype, sh, lo)) in v4rows.iter().enumerate() {
        let pptr = push_str(&mut buf, ptype);
        let cptr = push_country(&mut buf, sh, lo);
        put_u32(&mut buf, v4addr + i * 12, *k);
        put_u32(&mut buf, v4addr + i * 12 + 4, pptr);
        put_u32(&mut buf, v4addr + i * 12 + 8, cptr);
    }
    buf
}

fn loc_country(db: &DB, ip: IpAddress) -> Country {
    match db.ip_lookup(ip).unwrap() {
        Record::LocationDb(rec) => rec.country.unwrap(),
        _ => panic!("expected a location record"),
    }
}

#[test]
fn reads_little_endian() {
    let src = Source::Mem(vec![0x01, 0x02, 0x03, 0x04, 0x05]);
    assert_eq!(src.read_u8(1).unwrap(), 0x01);
    assert_eq!(src.read_u8(5).unwrap(), 0x05);
    assert_eq!(src.read_u32(1).unwrap(), 0x04030201);
    assert_eq!(src.read_u32(2).unwrap(), 0x05040302);
    assert!(matches!(src.read_u8(0), Err(Error::IoError(0))));
    assert!(matches!(src.read_u8(6), Err(Error::IoError(6))));
    assert!(matches!(src.read_u32(3), Err(Error::IoError(3))));
}

#[test]
fn reads_ipv6_reversed() {
    let mut buf = vec![0u8; 20];
    for i in 0..16 {
        buf[2 + i] = (i + 1) as u8;
    }
    let src = Source::Mem(buf);
    // 1-based offset 3: least-significant byte first on disk
    let v = src.read_ipv6(3).unwrap();
    let expect = u128::from_le_bytes([1, 2, 3, 4, 5, 6, 7, 8, 9, 10, 11, 12, 13, 14, 15, 16]);
    assert_eq!(v, expect);
    assert!(matches!(src.read_ipv6(6), Err(Error::IoError(6))));
}

#[test]
fn read_str_round_trips() {
    let mut buf = vec![0u8; 10];
    buf[3] = 5;
    buf[4..9].copy_from_slice(b"hello");
    let src = Source::Mem(buf);
    assert_eq!(src.read_str(3).unwrap(), "hello");

    // zero-length string
    let src = Source::Mem(vec![0u8; 4]);
    assert_eq!(src.read_str(2).unwrap(), "");

    // multi-byte UTF-8 survives the round trip
    let mut buf = vec![0u8; 8];
    let s = "é!";
    buf[1] = s.len() as u8;
    buf[2..2 + s.len()].copy_from_slice(s.as_bytes());
    let src = Source::Mem(buf);
    assert_eq!(src.read_str(1).unwrap(), "é!");

    // a payload that is not UTF-8 is a format error
    let src = Source::Mem(vec![2, 0xff, 0xfe]);
    assert!(matches!(src.read_str(0), Err(Error::FormatError(0))));

    // a payload running past the end is an I/O error
    let src = Source::Mem(vec![9, 1, 2]);
    assert!(matches!(src.read_str(0), Err(Error::IoError(0))));
}

fn mmap_of(buf: &[u8]) -> memmap::Mmap {
    let mut m = memmap::MmapMut::map_anon(buf.len()).unwrap();
    m.copy_from_slice(buf);
    m.make_read_only().unwrap()
}

#[test]
fn backends_agree() {
    let buf = loc_db1(
        &[(0, "-", "-"), (0x01010101, "FR", "France"), (0x02000000, "US", "United States")],
        &[],
    );
    let mem = Source::Mem(buf.clone());
    let mapped = Source::Mapped(mmap_of(&buf));
    for off in [0u64, 1, 2, 5, 9, 29, 64, 65, 72, buf.len() as u64, buf.len() as u64 + 1] {
        assert_eq!(mem.read_u8(off), mapped.read_u8(off));
        assert_eq!(mem.read_u32(off), mapped.read_u32(off));
        assert_eq!(mem.read_ipv6(off), mapped.read_ipv6(off));
        assert_eq!(mem.read_str(off), mapped.read_str(off));
    }

    let db_mem = DB::from_file(buf.clone()).unwrap();
    let db_map = DB::from_file_mmap(mmap_of(&buf)).unwrap();
    for ip in [
        IpAddress::V4(0),
        IpAddress::V4(0x01010101),
        IpAddress::V4(0x01ffffff),
        IpAddress::V4(0xffffffff),
    ] {
        assert_eq!(db_mem.ip_lookup(ip).unwrap(), db_map.ip_lookup(ip).unwrap());
    }
}

#[test]
fn binary_search_matches_linear_scan() {
    let rows = [(0u32, "AA", "Aland"), (10, "BB", "Bland"), (20, "CC", "Cland")];
    let buf = loc_db1(&rows, &[]);
    let db = DB::from_file(buf).unwrap();
    for q in [0u32, 1, 5, 9, 10, 11, 19, 20, 21, 1000, u32::MAX] {
        // the row a linear scan selects: last lower bound <= q
        let mut want = 0usize;
        for (i, r) in rows.iter().enumerate() {
            if r.0 as u64 <= q as u64 {
                want = i;
            }
        }
        let got = loc_country(&db, IpAddress::V4(q));
        assert_eq!(got.short_name, rows[want].1, "query {}", q);
    }
}

#[test]
fn boundary_address_matches_its_own_row() {
    let buf = loc_db1(&[(0, "AA", "Aland"), (10, "BB", "Bland")], &[]);
    let db = DB::from_file(buf).unwrap();
    // an address equal to a row's lower bound selects that row, not the previous one
    assert_eq!(loc_country(&db, IpAddress::V4(10)).short_name, "BB");
    // an address below the first row's lower bound selects the first row
    let buf = loc_db1(&[(5, "AA", "Aland"), (10, "BB", "Bland")], &[]);
    let db = DB::from_file(buf).unwrap();
    assert_eq!(loc_country(&db, IpAddress::V4(2)).short_name, "AA");
}

#[test]
fn six_to_four_resolves_as_embedded_v4() {
    let buf = loc_db1(&[(0, "-", "-"), (0x01010101, "FR", "France"), (0x01010102, "-", "-")], &[]);
    let db = DB::from_file(buf).unwrap();
    // 2002:0101:0101:: embeds 1.1.1.1
    let v6 = 0x2002_0101_0101_0000_0000_0000_0000_0000u128;
    let direct = db.ip_lookup(IpAddress::V4(0x01010101)).unwrap();
    let folded = db.ip_lookup(IpAddress::V6(v6)).unwrap();
    match (&direct, &folded) {
        (Record::LocationDb(a), Record::LocationDb(b)) => {
            assert_eq!(a.country, b.country);
            assert_eq!(a.country.as_ref().unwrap().short_name, "FR");
        }
        _ => panic!("expected location records"),
    }
}

#[test]
fn teredo_resolves_as_inverted_v4() {
    let buf = loc_db1(&[(0, "-", "-"), (0x01010101, "FR", "France"), (0x01010102, "-", "-")], &[]);
    let db = DB::from_file(buf).unwrap();
    // the Teredo client address stores the IPv4 address bit-inverted
    let v6 = 0x2001_0000_0000_0000_0000_0000_0000_0000u128 | (!0x01010101u32) as u128;
    let direct = db.ip_lookup(IpAddress::V4(0x01010101)).unwrap();
    let folded = db.ip_lookup(IpAddress::V6(v6)).unwrap();
    match (&direct, &folded) {
        (Record::LocationDb(a), Record::LocationDb(b)) => {
            assert_eq!(a.country, b.country);
            assert_eq!(a.country.as_ref().unwrap().short_name, "FR");
        }
        _ => panic!("expected location records"),
    }
}

#[test]
fn unknown_schema_is_an_error_not_a_panic() {
    // too short for any header
    assert!(matches!(DB::from_file(vec![1, 2, 3]), Err(Error::UnknownDb)));
    // long enough, but the product code matches neither schema
    let mut buf = vec![0u8; 64];
    buf[0] = 1;
    buf[1] = 2;
    buf[29] = 9;
    assert!(matches!(DB::from_file(buf), Err(Error::UnknownDb)));
    // a Location product code with an impossible type code
    let mut buf = vec![0u8; 64];
    buf[0] = 27;
    buf[1] = 2;
    buf[29] = 1;
    assert!(matches!(DB::from_file(buf), Err(Error::UnknownDb)));
    // a table running past the end of the file
    let mut buf = vec![0u8; 64];
    buf[0] = 1;
    buf[1] = 2;
    put_u32(&mut buf, 5, 1000);
    put_u32(&mut buf, 9, 65);
    buf[29] = 1;
    assert!(matches!(DB::from_file(buf), Err(Error::UnknownDb)));
}

#[test]
fn lookup_end_to_end_over_ipv6_table() {
    // a Location database keyed to a real-world IPv6 range
    let q = 0x2a01_cb08_8d14_0000_0000_0000_0000_0000u128;
    let buf = loc_db1(
        &[(0, "-", "-")],
        &[
            (0, "-", "-"),
            (q, "FR", "France"),
            (0x2a01_cb08_8d15_0000_0000_0000_0000_0000, "-", "-"),
        ],
    );
    let db = DB::from_file(buf).unwrap();
    let rec = match db.ip_lookup(IpAddress::V6(q)).unwrap() {
        Record::LocationDb(rec) => rec,
        _ => panic!("expected a location record"),
    };
    assert_eq!(rec.country.unwrap().short_name, "FR");
    // an address inside the range resolves identically
    let rec2 = match db.ip_lookup(IpAddress::V6(q + 0xffff)).unwrap() {
        Record::LocationDb(rec) => rec,
        _ => panic!("expected a location record"),
    };
    assert_eq!(rec2.country.unwrap().short_name, "FR");
}

#[test]
fn absent_columns_stay_unset_across_lookups() {
    let buf = loc_db1(&[(0, "AA", "Aland"), (10, "BB", "Bland")], &[]);
    let db = DB::from_file(buf).unwrap();
    for ip in [IpAddress::V4(0), IpAddress::V4(10), IpAddress::V4(u32::MAX)] {
        let rec = match db.ip_lookup(ip).unwrap() {
            Record::LocationDb(rec) => rec,
            _ => panic!("expected a location record"),
        };
        // type 1 holds only the country column
        assert!(rec.country.is_some());
        assert!(rec.region.is_none());
        assert!(rec.city.is_none());
        assert!(rec.latitude.is_none());
        assert!(rec.longitude.is_none());
        assert!(rec.usage_type.is_none());
    }
}

#[test]
fn proxy_classification() {
    let rows = [
        (0u32, "-", "-", "-"),
        (10, "DCH", "US", "United States of America"),
        (20, "PUB", "DE", "Germany"),
        (30, "SES", "US", "United States of America"),
    ];
    let buf = px_db2(&rows);
    let db = DB::from_file(buf).unwrap();
    let get = |q: u32| match db.ip_lookup(IpAddress::V4(q)).unwrap() {
        Record::ProxyDb(rec) => rec,
        _ => panic!("expected a proxy record"),
    };
    let r = get(5);
    assert_eq!(r.is_proxy, Some(Proxy::IsNotAProxy));
    let r = get(10);
    assert_eq!(r.is_proxy, Some(Proxy::IsADataCenterIpAddress));
    assert_eq!(r.proxy_type.as_deref(), Some("DCH"));
    assert_eq!(r.country.as_ref().unwrap().short_name, "US");
    assert_eq!(r.country.as_ref().unwrap().long_name, "United States of America");
    let r = get(25);
    assert_eq!(r.is_proxy, Some(Proxy::IsAProxy));
    assert_eq!(r.proxy_type.as_deref(), Some("PUB"));
    let r = get(35);
    assert_eq!(r.is_proxy, Some(Proxy::IsADataCenterIpAddress));
    // columns past PX2 stay unset
    assert!(r.region.is_none());
    assert!(r.isp.is_none());
    assert!(r.provider.is_none());
}

#[test]
fn missing_family_table_is_record_not_found() {
    let buf = loc_db1(&[(0, "AA", "Aland")], &[]);
    let db = DB::from_file(buf).unwrap();
    // a native IPv6 query against a v4-only database
    let q = 0x2a01_cb08_8d14_0000_0000_0000_0000_0000u128;
    assert!(matches!(db.ip_lookup(IpAddress::V6(q)), Err(Error::RecordNotFound)));
    // folded queries still use the v4 table
    let folded = 0x2002_0101_0101_0000_0000_0000_0000_0000u128;
    assert!(db.ip_lookup(IpAddress::V6(folded)).is_ok());
}

#[test]
fn broken_string_pool_reports_offset() {
    // a country pointer into invalid UTF-8
    let v4addr = 64usize;
    let mut buf = vec![0u8; v4addr + 8 + 3];
    buf[0] = 1;
    buf[1] = 2;
    put_u32(&mut buf, 5, 1);
    put_u32(&mut buf, 9, (v4addr + 1) as u32);
    buf[29] = 1;
    let ptr = (v4addr + 8) as u32;
    put_u32(&mut buf, v4addr, 0);
    put_u32(&mut buf, v4addr + 4, ptr);
    buf[ptr as usize] = 2;
    buf[ptr as usize + 1] = 0xff;
    buf[ptr as usize + 2] = 0xfe;
    let db = DB::from_file(buf).unwrap();
    let e = db.ip_lookup(IpAddress::V4(0)).unwrap_err();
    assert_eq!(e, Error::FormatError(ptr as u64));

    // a country pointer past the end of the file
    let mut buf = vec![0u8; v4addr + 8];
    buf[0] = 1;
    buf[1] = 2;
    put_u32(&mut buf, 5, 1);
    put_u32(&mut buf, 9, (v4addr + 1) as u32);
    buf[29] = 1;
    put_u32(&mut buf, v4addr, 0);
    put_u32(&mut buf, v4addr + 4, 100000);
    let db = DB::from_file(buf).unwrap();
    assert!(matches!(db.ip_lookup(IpAddress::V4(0)), Err(Error::IoError(100000))));
}

#[test]
fn db_info_reports_the_header() {
    let buf = loc_db1(&[(0, "AA", "Aland"), (1, "BB", "Bland")], &[(0, "-", "-")]);
    let db = DB::from_file(buf).unwrap();
    let info = db.print_db_info();
    assert_eq!(info.db_type, 1);
    assert_eq!(info.db_column, 2);
    assert_eq!(info.year, 24);
    assert_eq!(info.month, 1);
    assert_eq!(info.day, 1);
    assert_eq!(info.ipv4_count, 2);
    assert_eq!(info.ipv6_count, 1);
}

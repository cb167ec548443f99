//! The per-database-type column layout: for each semantic field, whether
//! the type includes it and, if so, its ordinal column position within a
//! data row (column 1 is the range's lower-bound address itself). A
//! position of 0 means the field is absent from that database type.

use vstd::prelude::*;

verus! {

/// Column positions of every Location field, per database type 1 to 26.
pub struct LocLayout {
    pub country: u8,
    pub region: u8,
    pub city: u8,
    pub isp: u8,
    pub latitude: u8,
    pub longitude: u8,
    pub domain: u8,
    pub zip_code: u8,
    pub time_zone: u8,
    pub net_speed: u8,
    pub idd_code: u8,
    pub area_code: u8,
    pub weather_station_code: u8,
    pub weather_station_name: u8,
    pub mcc: u8,
    pub mnc: u8,
    pub mobile_brand: u8,
    pub elevation: u8,
    pub usage_type: u8,
    pub address_type: u8,
    pub category: u8,
}

/// The Location column table, keyed by the database-type code.
pub open spec fn loc_layout(t: u8) -> LocLayout {
    LocLayout {
        country: if 1 <= t && t <= 26 {
            2
        } else {
            0
        },
        region: if 3 <= t && t <= 26 {
            3
        } else {
            0
        },
        city: if 3 <= t && t <= 26 {
            4
        } else {
            0
        },
        isp: match t {
            2 => 3,
            4 => 5,
            6 => 7,
            7 => 5,
            8 => 7,
            10 => 8,
            12 => 9,
            14 => 9,
            16 => 9,
            18 => 9,
            19 => 7,
            20 => 9,
            22 => 9,
            23 => 7,
            24 => 9,
            25 => 9,
            26 => 9,
            _ => 0,
        },
        latitude: if t == 5 || t == 6 || (8 <= t && t <= 26) {
            5
        } else {
            0
        },
        longitude: if t == 5 || t == 6 || (8 <= t && t <= 26) {
            6
        } else {
            0
        },
        domain: match t {
            7 => 6,
            8 => 8,
            10 => 9,
            12 => 10,
            14 => 10,
            16 => 10,
            18 => 10,
            19 => 8,
            20 => 10,
            22 => 10,
            23 => 8,
            24 => 10,
            25 => 10,
            26 => 10,
            _ => 0,
        },
        zip_code: match t {
            9 => 7,
            10 => 7,
            11 => 7,
            12 => 7,
            14 => 7,
            15 => 7,
            16 => 7,
            18 => 7,
            20 => 7,
            21 => 7,
            22 => 7,
            24 => 7,
            26 => 7,
            _ => 0,
        },
        time_zone: match t {
            9 => 8,
            10 => 8,
            11 => 8,
            12 => 8,
            13 => 7,
            14 => 8,
            15 => 8,
            16 => 8,
            17 => 7,
            18 => 8,
            20 => 8,
            21 => 8,
            22 => 8,
            24 => 8,
            25 => 7,
            26 => 8,
            _ => 0,
        },
        net_speed: match t {
            11 => 8,
            12 => 11,
            14 => 11,
            15 => 8,
            16 => 11,
            18 => 11,
            20 => 11,
            22 => 11,
            24 => 11,
            26 => 11,
            _ => 0,
        },
        idd_code: match t {
            13 => 9,
            14 => 12,
            16 => 12,
            18 => 12,
            19 => 9,
            20 => 12,
            22 => 12,
            24 => 12,
            26 => 12,
            _ => 0,
        },
        area_code: match t {
            13 => 10,
            14 => 13,
            16 => 13,
            18 => 13,
            19 => 10,
            20 => 13,
            22 => 13,
            24 => 13,
            26 => 13,
            _ => 0,
        },
        weather_station_code: match t {
            15 => 11,
            16 => 14,
            18 => 14,
            20 => 14,
            22 => 14,
            24 => 14,
            26 => 14,
            _ => 0,
        },
        weather_station_name: match t {
            15 => 12,
            16 => 15,
            18 => 15,
            20 => 15,
            22 => 15,
            24 => 15,
            26 => 15,
            _ => 0,
        },
        mcc: match t {
            17 => 9,
            18 => 16,
            20 => 16,
            21 => 9,
            22 => 16,
            24 => 16,
            26 => 16,
            _ => 0,
        },
        mnc: match t {
            17 => 10,
            18 => 17,
            20 => 17,
            21 => 10,
            22 => 17,
            24 => 17,
            26 => 17,
            _ => 0,
        },
        mobile_brand: match t {
            17 => 11,
            18 => 18,
            20 => 18,
            21 => 11,
            22 => 18,
            24 => 18,
            26 => 18,
            _ => 0,
        },
        elevation: match t {
            19 => 11,
            20 => 19,
            22 => 19,
            24 => 19,
            26 => 19,
            _ => 0,
        },
        usage_type: match t {
            21 => 12,
            22 => 20,
            24 => 20,
            26 => 20,
            _ => 0,
        },
        address_type: match t {
            23 => 9,
            24 => 21,
            26 => 21,
            _ => 0,
        },
        category: match t {
            23 => 10,
            24 => 22,
            26 => 22,
            _ => 0,
        },
    }
}

/// Computes the Location column table for a database-type code.
pub fn loc_layout_of(t: u8) -> (r: LocLayout)
    ensures
        r == loc_layout(t),
{
    LocLayout {
        country: if 1 <= t && t <= 26 {
            2
        } else {
            0
        },
        region: if 3 <= t && t <= 26 {
            3
        } else {
            0
        },
        city: if 3 <= t && t <= 26 {
            4
        } else {
            0
        },
        isp: match t {
            2 => 3,
            4 => 5,
            6 => 7,
            7 => 5,
            8 => 7,
            10 => 8,
            12 => 9,
            14 => 9,
            16 => 9,
            18 => 9,
            19 => 7,
            20 => 9,
            22 => 9,
            23 => 7,
            24 => 9,
            25 => 9,
            26 => 9,
            _ => 0,
        },
        latitude: if t == 5 || t == 6 || (8 <= t && t <= 26) {
            5
        } else {
            0
        },
        longitude: if t == 5 || t == 6 || (8 <= t && t <= 26) {
            6
        } else {
            0
        },
        domain: match t {
            7 => 6,
            8 => 8,
            10 => 9,
            12 => 10,
            14 => 10,
            16 => 10,
            18 => 10,
            19 => 8,
            20 => 10,
            22 => 10,
            23 => 8,
            24 => 10,
            25 => 10,
            26 => 10,
            _ => 0,
        },
        zip_code: match t {
            9 => 7,
            10 => 7,
            11 => 7,
            12 => 7,
            14 => 7,
            15 => 7,
            16 => 7,
            18 => 7,
            20 => 7,
            21 => 7,
            22 => 7,
            24 => 7,
            26 => 7,
            _ => 0,
        },
        time_zone: match t {
            9 => 8,
            10 => 8,
            11 => 8,
            12 => 8,
            13 => 7,
            14 => 8,
            15 => 8,
            16 => 8,
            17 => 7,
            18 => 8,
            20 => 8,
            21 => 8,
            22 => 8,
            24 => 8,
            25 => 7,
            26 => 8,
            _ => 0,
        },
        net_speed: match t {
            11 => 8,
            12 => 11,
            14 => 11,
            15 => 8,
            16 => 11,
            18 => 11,
            20 => 11,
            22 => 11,
            24 => 11,
            26 => 11,
            _ => 0,
        },
        idd_code: match t {
            13 => 9,
            14 => 12,
            16 => 12,
            18 => 12,
            19 => 9,
            20 => 12,
            22 => 12,
            24 => 12,
            26 => 12,
            _ => 0,
        },
        area_code: match t {
            13 => 10,
            14 => 13,
            16 => 13,
            18 => 13,
            19 => 10,
            20 => 13,
            22 => 13,
            24 => 13,
            26 => 13,
            _ => 0,
        },
        weather_station_code: match t {
            15 => 11,
            16 => 14,
            18 => 14,
            20 => 14,
            22 => 14,
            24 => 14,
            26 => 14,
            _ => 0,
        },
        weather_station_name: match t {
            15 => 12,
            16 => 15,
            18 => 15,
            20 => 15,
            22 => 15,
            24 => 15,
            26 => 15,
            _ => 0,
        },
        mcc: match t {
            17 => 9,
            18 => 16,
            20 => 16,
            21 => 9,
            22 => 16,
            24 => 16,
            26 => 16,
            _ => 0,
        },
        mnc: match t {
            17 => 10,
            18 => 17,
            20 => 17,
            21 => 10,
            22 => 17,
            24 => 17,
            26 => 17,
            _ => 0,
        },
        mobile_brand: match t {
            17 => 11,
            18 => 18,
            20 => 18,
            21 => 11,
            22 => 18,
            24 => 18,
            26 => 18,
            _ => 0,
        },
        elevation: match t {
            19 => 11,
            20 => 19,
            22 => 19,
            24 => 19,
            26 => 19,
            _ => 0,
        },
        usage_type: match t {
            21 => 12,
            22 => 20,
            24 => 20,
            26 => 20,
            _ => 0,
        },
        address_type: match t {
            23 => 9,
            24 => 21,
            26 => 21,
            _ => 0,
        },
        category: match t {
            23 => 10,
            24 => 22,
            26 => 22,
            _ => 0,
        },
    }
}

/// Column positions of every Proxy field, per database type 1 to 11.
pub struct PxLayout {
    pub country: u8,
    pub proxy_type: u8,
    pub region: u8,
    pub city: u8,
    pub isp: u8,
    pub domain: u8,
    pub usage_type: u8,
    pub asn: u8,
    pub as_: u8,
    pub last_seen: u8,
    pub threat: u8,
    pub provider: u8,
}

/// The Proxy column table, keyed by the database-type code.
pub open spec fn px_layout(t: u8) -> PxLayout {
    PxLayout {
        country: if t == 1 {
            2
        } else if 2 <= t && t <= 11 {
            3
        } else {
            0
        },
        proxy_type: if 2 <= t && t <= 11 {
            2
        } else {
            0
        },
        region: if 3 <= t && t <= 11 {
            4
        } else {
            0
        },
        city: if 3 <= t && t <= 11 {
            5
        } else {
            0
        },
        isp: if 4 <= t && t <= 11 {
            6
        } else {
            0
        },
        domain: if 5 <= t && t <= 11 {
            7
        } else {
            0
        },
        usage_type: if 6 <= t && t <= 11 {
            8
        } else {
            0
        },
        asn: if 7 <= t && t <= 11 {
            9
        } else {
            0
        },
        as_: if 7 <= t && t <= 11 {
            10
        } else {
            0
        },
        last_seen: if 8 <= t && t <= 11 {
            11
        } else {
            0
        },
        threat: if 9 <= t && t <= 11 {
            12
        } else {
            0
        },
        provider: if t == 11 {
            13
        } else {
            0
        },
    }
}

/// Computes the Proxy column table for a database-type code.
pub fn px_layout_of(t: u8) -> (r: PxLayout)
    ensures
        r == px_layout(t),
{
    PxLayout {
        country: if t == 1 {
            2
        } else if 2 <= t && t <= 11 {
            3
        } else {
            0
        },
        proxy_type: if 2 <= t && t <= 11 {
            2
        } else {
            0
        },
        region: if 3 <= t && t <= 11 {
            4
        } else {
            0
        },
        city: if 3 <= t && t <= 11 {
            5
        } else {
            0
        },
        isp: if 4 <= t && t <= 11 {
            6
        } else {
            0
        },
        domain: if 5 <= t && t <= 11 {
            7
        } else {
            0
        },
        usage_type: if 6 <= t && t <= 11 {
            8
        } else {
            0
        },
        asn: if 7 <= t && t <= 11 {
            9
        } else {
            0
        },
        as_: if 7 <= t && t <= 11 {
            10
        } else {
            0
        },
        last_seen: if 8 <= t && t <= 11 {
            11
        } else {
            0
        },
        threat: if 9 <= t && t <= 11 {
            12
        } else {
            0
        },
        provider: if t == 11 {
            13
        } else {
            0
        },
    }
}

} // verus!

//! The record types a lookup assembles, their mathematical views, and the
//! proxy classification rule. Every string field is optional because a
//! database type may omit its column entirely; latitude and longitude are
//! carried as the raw IEEE-754 bits of the stored 32-bit values, so that
//! the decoded bytes stay pinned bit for bit.

use vstd::prelude::*;

use crate::addr::IpAddress;

verus! {

/// A country, as the database stores it: the two-letter code and the
/// full name, kept side by side in the string pool.
#[derive(Debug, Clone, PartialEq)]
pub struct Country {
    pub short_name: String,
    pub long_name: String,
}

/// The view of a `Country`: its two names as character sequences.
pub struct CountryV {
    pub short_name: Seq<char>,
    pub long_name: Seq<char>,
}

impl View for Country {
    type V = CountryV;

    open spec fn view(&self) -> CountryV {
        CountryV { short_name: self.short_name@, long_name: self.long_name@ }
    }
}

/// The proxy classification of a looked-up address.
#[derive(Debug, Clone, Copy, PartialEq, Eq, Structural)]
pub enum Proxy {
    IsAnError,
    IsNotAProxy,
    IsAProxy,
    IsADataCenterIpAddress,
}

/// The view of an optional string: its characters, where present.
pub open spec fn opt_view(x: Option<String>) -> Option<Seq<char>> {
    match x {
        Some(s) => Some(s@),
        None => None,
    }
}

/// A record of a Location database: one optional value per possible
/// column. `latitude` and `longitude` hold the raw bits of the stored
/// 32-bit floating-point values.
#[derive(Debug, Clone, PartialEq)]
pub struct LocationRecord {
    pub ip: IpAddress,
    pub country: Option<Country>,
    pub region: Option<String>,
    pub city: Option<String>,
    pub isp: Option<String>,
    pub latitude: Option<u32>,
    pub longitude: Option<u32>,
    pub domain: Option<String>,
    pub zip_code: Option<String>,
    pub time_zone: Option<String>,
    pub net_speed: Option<String>,
    pub idd_code: Option<String>,
    pub area_code: Option<String>,
    pub weather_station_code: Option<String>,
    pub weather_station_name: Option<String>,
    pub mcc: Option<String>,
    pub mnc: Option<String>,
    pub mobile_brand: Option<String>,
    pub elevation: Option<String>,
    pub usage_type: Option<String>,
    pub address_type: Option<String>,
    pub category: Option<String>,
}

/// The view of a `LocationRecord`: every string as characters.
pub struct LocationRecordV {
    pub ip: IpAddress,
    pub country: Option<CountryV>,
    pub region: Option<Seq<char>>,
    pub city: Option<Seq<char>>,
    pub isp: Option<Seq<char>>,
    pub latitude: Option<u32>,
    pub longitude: Option<u32>,
    pub domain: Option<Seq<char>>,
    pub zip_code: Option<Seq<char>>,
    pub time_zone: Option<Seq<char>>,
    pub net_speed: Option<Seq<char>>,
    pub idd_code: Option<Seq<char>>,
    pub area_code: Option<Seq<char>>,
    pub weather_station_code: Option<Seq<char>>,
    pub weather_station_name: Option<Seq<char>>,
    pub mcc: Option<Seq<char>>,
    pub mnc: Option<Seq<char>>,
    pub mobile_brand: Option<Seq<char>>,
    pub elevation: Option<Seq<char>>,
    pub usage_type: Option<Seq<char>>,
    pub address_type: Option<Seq<char>>,
    pub category: Option<Seq<char>>,
}

impl View for LocationRecord {
    type V = LocationRecordV;

    open spec fn view(&self) -> LocationRecordV {
        LocationRecordV {
            ip: self.ip,
            country: match self.country {
                Some(c) => Some(c@),
                None => None,
            },
            region: opt_view(self.region),
            city: opt_view(self.city),
            isp: opt_view(self.isp),
            latitude: self.latitude,
            longitude: self.longitude,
            domain: opt_view(self.domain),
            zip_code: opt_view(self.zip_code),
            time_zone: opt_view(self.time_zone),
            net_speed: opt_view(self.net_speed),
            idd_code: opt_view(self.idd_code),
            area_code: opt_view(self.area_code),
            weather_station_code: opt_view(self.weather_station_code),
            weather_station_name: opt_view(self.weather_station_name),
            mcc: opt_view(self.mcc),
            mnc: opt_view(self.mnc),
            mobile_brand: opt_view(self.mobile_brand),
            elevation: opt_view(self.elevation),
            usage_type: opt_view(self.usage_type),
            address_type: opt_view(self.address_type),
            category: opt_view(self.category),
        }
    }
}

/// A record of a Proxy database.
#[derive(Debug, Clone, PartialEq)]
pub struct ProxyRecord {
    pub ip: IpAddress,
    pub country: Option<Country>,
    pub region: Option<String>,
    pub city: Option<String>,
    pub isp: Option<String>,
    pub domain: Option<String>,
    pub is_proxy: Option<Proxy>,
    pub proxy_type: Option<String>,
    pub asn: Option<String>,
    pub as_: Option<String>,
    pub last_seen: Option<String>,
    pub threat: Option<String>,
    pub provider: Option<String>,
    pub usage_type: Option<String>,
}

/// The view of a `ProxyRecord`: every string as characters.
pub struct ProxyRecordV {
    pub ip: IpAddress,
    pub country: Option<CountryV>,
    pub region: Option<Seq<char>>,
    pub city: Option<Seq<char>>,
    pub isp: Option<Seq<char>>,
    pub domain: Option<Seq<char>>,
    pub is_proxy: Option<Proxy>,
    pub proxy_type: Option<Seq<char>>,
    pub asn: Option<Seq<char>>,
    pub as_: Option<Seq<char>>,
    pub last_seen: Option<Seq<char>>,
    pub threat: Option<Seq<char>>,
    pub provider: Option<Seq<char>>,
    pub usage_type: Option<Seq<char>>,
}

impl View for ProxyRecord {
    type V = ProxyRecordV;

    open spec fn view(&self) -> ProxyRecordV {
        ProxyRecordV {
            ip: self.ip,
            country: match self.country {
                Some(c) => Some(c@),
                None => None,
            },
            region: opt_view(self.region),
            city: opt_view(self.city),
            isp: opt_view(self.isp),
            domain: opt_view(self.domain),
            is_proxy: self.is_proxy,
            proxy_type: opt_view(self.proxy_type),
            asn: opt_view(self.asn),
            as_: opt_view(self.as_),
            last_seen: opt_view(self.last_seen),
            threat: opt_view(self.threat),
            provider: opt_view(self.provider),
            usage_type: opt_view(self.usage_type),
        }
    }
}

impl Default for ProxyRecord {
    /// An empty record: the unspecified address, every column unset, and
    /// the classification marked as erred until a lookup fills it.
    fn default() -> (r: ProxyRecord)
        ensures
            r.ip == IpAddress::V6(0),
            r.country is None,
            r.region is None,
            r.city is None,
            r.isp is None,
            r.domain is None,
            r.is_proxy == Some(Proxy::IsAnError),
            r.proxy_type is None,
            r.asn is None,
            r.as_ is None,
            r.last_seen is None,
            r.threat is None,
            r.provider is None,
            r.usage_type is None,
    {
        ProxyRecord {
            ip: IpAddress::V6(0),
            country: None,
            region: None,
            city: None,
            isp: None,
            domain: None,
            is_proxy: Some(Proxy::IsAnError),
            proxy_type: None,
            asn: None,
            as_: None,
            last_seen: None,
            threat: None,
            provider: None,
            usage_type: None,
        }
    }
}

/// The classification rule, over the raw payload bytes of the country
/// short code and the proxy-type column: a `-` country marks a row that
/// is no proxy; a `DCH` or `SES` proxy type marks a data-center (or
/// search-engine spider) address; anything else present is a proxy.
pub open spec fn classify_model(short: Seq<u8>, ptype: Option<Seq<u8>>) -> Proxy {
    if short == seq![45u8] {
        Proxy::IsNotAProxy
    } else if ptype == Some(seq![68u8, 67u8, 72u8]) || ptype == Some(seq![83u8, 69u8, 83u8]) {
        Proxy::IsADataCenterIpAddress
    } else {
        Proxy::IsAProxy
    }
}

/// The view of optional payload bytes.
pub open spec fn opt_bytes_view(x: Option<Vec<u8>>) -> Option<Seq<u8>> {
    match x {
        Some(v) => Some(v@),
        None => None,
    }
}

/// Classifies a row from the payload bytes of its country short code and
/// its proxy-type column.
pub fn classify(short: &Vec<u8>, ptype: &Option<Vec<u8>>) -> (r: Proxy)
    ensures
        r == classify_model(short@, opt_bytes_view(*ptype)),
{
    if short.len() == 1 && short[0] == 45 {
        proof {
            assert(short@ =~= seq![45u8]);
        }
        Proxy::IsNotAProxy
    } else {
        proof {
            assert(short@ != seq![45u8]) by {
                if short@ == seq![45u8] {
                    assert(short@.len() == 1 && short@[0] == 45u8);
                }
            }
        }
        match ptype {
            Some(p) => {
                if p.len() == 3 && p[0] == 68 && p[1] == 67 && p[2] == 72 {
                    proof {
                        assert(p@ =~= seq![68u8, 67u8, 72u8]);
                    }
                    Proxy::IsADataCenterIpAddress
                } else if p.len() == 3 && p[0] == 83 && p[1] == 69 && p[2] == 83 {
                    proof {
                        assert(p@ =~= seq![83u8, 69u8, 83u8]);
                    }
                    Proxy::IsADataCenterIpAddress
                } else {
                    proof {
                        assert(p@ != seq![68u8, 67u8, 72u8]) by {
                            if p@ == seq![68u8, 67u8, 72u8] {
                                assert(p@.len() == 3 && p@[0] == 68u8 && p@[1] == 67u8 && p@[2]
                                    == 72u8);
                            }
                        }
                        assert(p@ != seq![83u8, 69u8, 83u8]) by {
                            if p@ == seq![83u8, 69u8, 83u8] {
                                assert(p@.len() == 3 && p@[0] == 83u8 && p@[1] == 69u8 && p@[2]
                                    == 83u8);
                            }
                        }
                    }
                    Proxy::IsAProxy
                }
            },
            None => Proxy::IsAProxy,
        }
    }
}

} // verus!

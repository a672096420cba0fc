//! The BSS record: scan results, decoded from one nested BSS sub-tree of a
//! top-level attribute tree.

use vstd::prelude::*;

use crate::attr::{
    get_attribute, read_blob_field, read_u16_field, read_u32_field, spec_blob_field, spec_find,
    spec_u16_field, spec_u32_field, Attr, AttrV, ATTR_BSS, BSS_BEACON_INTERVAL, BSS_BSSID,
    BSS_FREQUENCY, BSS_SEEN_MS_AGO, BSS_SIGNAL_MBM, BSS_STATUS,
};
use crate::tlv::{parse_attrs, spec_parse};
use crate::WifiError;

verus! {

/// A detected access point as reported by one data message of a scan dump.
/// Every field is optional; absence is a value.
#[derive(Clone, Debug, PartialEq, Eq)]
pub struct Bss {
    /// BSSID of the detected network, a raw byte blob.
    pub bssid: Option<Vec<u8>>,
    /// Frequency in MHz.
    pub frequency: Option<u32>,
    /// Beacon interval of the detected network, in time units.
    pub beacon_interval: Option<u16>,
    /// Age of this BSS entry in milliseconds.
    pub seen_ms_ago: Option<u32>,
    /// Status, if this BSS is "used" (associated or joined).
    pub status: Option<u32>,
    /// Signal strength of the probe response or beacon, in mBm.
    pub signal: Option<u32>,
}

/// Mathematical image of a [`Bss`].
pub struct BssV {
    pub bssid: Option<Seq<u8>>,
    pub frequency: Option<u32>,
    pub beacon_interval: Option<u16>,
    pub seen_ms_ago: Option<u32>,
    pub status: Option<u32>,
    pub signal: Option<u32>,
}

impl View for Bss {
    type V = BssV;

    open spec fn view(&self) -> BssV {
        BssV {
            bssid: self.bssid.deep_view(),
            frequency: self.frequency,
            beacon_interval: self.beacon_interval,
            seen_ms_ago: self.seen_ms_ago,
            status: self.status,
            signal: self.signal,
        }
    }
}

impl DeepView for Bss {
    type V = BssV;

    open spec fn deep_view(&self) -> BssV {
        self.view()
    }
}

/// The all-absent BSS record.
pub open spec fn bss_absent() -> BssV {
    BssV {
        bssid: None,
        frequency: None,
        beacon_interval: None,
        seen_ms_ago: None,
        status: None,
        signal: None,
    }
}

/// Every recognized field of the BSS sub-tree decodes.
pub open spec fn bss_fields_ok(sub: Seq<AttrV>) -> bool {
    &&& spec_u32_field(sub, BSS_FREQUENCY) is Ok
    &&& spec_u16_field(sub, BSS_BEACON_INTERVAL) is Ok
    &&& spec_u32_field(sub, BSS_SEEN_MS_AGO) is Ok
    &&& spec_u32_field(sub, BSS_STATUS) is Ok
    &&& spec_u32_field(sub, BSS_SIGNAL_MBM) is Ok
}

/// The BSS record described by a BSS sub-tree.
pub open spec fn spec_bss_fields(sub: Seq<AttrV>) -> BssV {
    BssV {
        bssid: spec_blob_field(sub, BSS_BSSID),
        frequency: spec_u32_field(sub, BSS_FREQUENCY)->Ok_0,
        beacon_interval: spec_u16_field(sub, BSS_BEACON_INTERVAL)->Ok_0,
        seen_ms_ago: spec_u32_field(sub, BSS_SEEN_MS_AGO)->Ok_0,
        status: spec_u32_field(sub, BSS_STATUS)->Ok_0,
        signal: spec_u32_field(sub, BSS_SIGNAL_MBM)->Ok_0,
    }
}

/// Mapping a top-level tree to a BSS record succeeds: either there is no
/// BSS sub-attribute, or its payload parses and its recognized fields
/// decode.
pub open spec fn bss_decode_ok(ats: Seq<AttrV>) -> bool {
    match spec_find(ats, ATTR_BSS) {
        None => true,
        Some(info) => match spec_parse(info.payload) {
            None => false,
            Some(sub) => bss_fields_ok(sub),
        },
    }
}

/// The BSS record described by a top-level attribute tree.
pub open spec fn spec_bss(ats: Seq<AttrV>) -> BssV {
    match spec_find(ats, ATTR_BSS) {
        None => bss_absent(),
        Some(info) => match spec_parse(info.payload) {
            None => bss_absent(),
            Some(sub) => spec_bss_fields(sub),
        },
    }
}

impl Bss {
    /// The record with every field absent.
    pub fn default() -> (r: Bss)
        ensures
            r@ == bss_absent(),
    {
        Bss {
            bssid: None,
            frequency: None,
            beacon_interval: None,
            seen_ms_ago: None,
            status: None,
            signal: None,
        }
    }

    /// Map a decoded top-level attribute tree to a BSS record.
    pub fn from_attrs(ats: &Vec<Attr>) -> (r: Result<Bss, WifiError>)
        ensures
            r is Ok <==> bss_decode_ok(ats.deep_view()),
            r is Ok ==> r->Ok_0@ == spec_bss(ats.deep_view()),
            r is Err ==> r->Err_0 == WifiError::Decode,
    {
        let info = match get_attribute(ats, ATTR_BSS) {
            None => {
                return Ok(Bss::default());
            },
            Some(info) => info,
        };
        let sub = match parse_attrs(&info.payload) {
            Ok(sub) => sub,
            Err(e) => {
                return Err(e);
            },
        };
        let bssid = read_blob_field(&sub, BSS_BSSID);
        let frequency = match read_u32_field(&sub, BSS_FREQUENCY) {
            Ok(v) => v,
            Err(e) => {
                return Err(e);
            },
        };
        let beacon_interval = match read_u16_field(&sub, BSS_BEACON_INTERVAL) {
            Ok(v) => v,
            Err(e) => {
                return Err(e);
            },
        };
        let seen_ms_ago = match read_u32_field(&sub, BSS_SEEN_MS_AGO) {
            Ok(v) => v,
            Err(e) => {
                return Err(e);
            },
        };
        let status = match read_u32_field(&sub, BSS_STATUS) {
            Ok(v) => v,
            Err(e) => {
                return Err(e);
            },
        };
        let signal = match read_u32_field(&sub, BSS_SIGNAL_MBM) {
            Ok(v) => v,
            Err(e) => {
                return Err(e);
            },
        };
        Ok(Bss { bssid, frequency, beacon_interval, seen_ms_ago, status, signal })
    }
}

impl crate::nl80211traits::ParseNlAttr for Bss {
    fn parse(attrs: &Vec<Attr>) -> Result<Bss, WifiError> {
        Bss::from_attrs(attrs)
    }
}

} // verus!

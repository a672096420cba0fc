//! The attribute model: a tagged value with a raw byte payload, the closed
//! tag enumerations of the nl80211 attribute spaces, and the fixed-width
//! little-endian scalar readers used to interpret payloads.

use vstd::prelude::*;

use crate::WifiError;

verus! {

// ---------------------------------------------------------------------------
// Tag spaces
// ---------------------------------------------------------------------------

// Top-level attribute space of the nl80211 family.
pub const ATTR_WIPHY: u16 = 1;
pub const ATTR_IFINDEX: u16 = 3;
pub const ATTR_IFNAME: u16 = 4;
pub const ATTR_IFTYPE: u16 = 5;
pub const ATTR_MAC: u16 = 6;
pub const ATTR_STA_INFO: u16 = 21;
pub const ATTR_WIPHY_FREQ: u16 = 38;
pub const ATTR_BSS: u16 = 47;
pub const ATTR_SSID: u16 = 52;
pub const ATTR_WIPHY_TX_POWER_LEVEL: u16 = 62;
pub const ATTR_WDEV: u16 = 153;
pub const ATTR_CHANNEL_WIDTH: u16 = 159;

// Station-info sub-attribute space, nested inside `ATTR_STA_INFO`.
pub const STA_INFO_INACTIVE_TIME: u16 = 4;
pub const STA_INFO_RX_BYTES: u16 = 5;
pub const STA_INFO_TX_BYTES: u16 = 6;
pub const STA_INFO_SIGNAL: u16 = 7;
pub const STA_INFO_TX_BITRATE: u16 = 8;
pub const STA_INFO_RX_PACKETS: u16 = 9;
pub const STA_INFO_TX_PACKETS: u16 = 10;
pub const STA_INFO_TX_RETRIES: u16 = 11;
pub const STA_INFO_TX_FAILED: u16 = 12;
pub const STA_INFO_SIGNAL_AVG: u16 = 13;
pub const STA_INFO_RX_BITRATE: u16 = 14;
pub const STA_INFO_CONNECTED_TIME: u16 = 16;
pub const STA_INFO_BEACON_LOSS: u16 = 18;
pub const STA_INFO_T_OFFSET: u16 = 19;
pub const STA_INFO_RX_BYTES64: u16 = 20;
pub const STA_INFO_TX_BYTES64: u16 = 21;
pub const STA_INFO_RX_DROP_MISC: u16 = 22;
pub const STA_INFO_RX_DURATION: u16 = 32;
pub const STA_INFO_BEACON_RX: u16 = 33;
pub const STA_INFO_ACK_SIGNAL_AVG: u16 = 35;
pub const STA_INFO_BEACON_SIGNAL_AVG: u16 = 36;
pub const STA_INFO_ACK_SIGNAL: u16 = 37;
pub const STA_INFO_TX_DURATION: u16 = 39;

// Rate-info sub-attribute space, nested inside the bitrate sub-attributes.
pub const RATE_INFO_BITRATE32: u16 = 5;

// BSS sub-attribute space, nested inside `ATTR_BSS`.
pub const BSS_BSSID: u16 = 1;
pub const BSS_FREQUENCY: u16 = 2;
pub const BSS_BEACON_INTERVAL: u16 = 4;
pub const BSS_SIGNAL_MBM: u16 = 7;
pub const BSS_STATUS: u16 = 9;
pub const BSS_SEEN_MS_AGO: u16 = 10;

// Command codes of the three read-only queries the client issues.
pub const CMD_GET_INTERFACE: u8 = 5;
pub const CMD_GET_STATION: u8 = 17;
pub const CMD_GET_SCAN: u8 = 32;

// Netlink message header flag bits: every query is a dump request.
pub const NLM_F_REQUEST: u16 = 0x1;
pub const NLM_F_DUMP: u16 = 0x300;

// ---------------------------------------------------------------------------
// Attributes
// ---------------------------------------------------------------------------

/// One type-length-value attribute: a 14-bit type tag, the two marker bits
/// of the wire type field, and the raw payload bytes.
#[derive(Clone, Debug, PartialEq, Eq)]
pub struct Attr {
    /// Semantic type tag (the low 14 bits of the wire type field).
    pub tag: u16,
    /// The "payload is itself an attribute list" marker bit.
    pub nested: bool,
    /// The "payload is in network byte order" marker bit.
    pub network_order: bool,
    /// Raw payload bytes; their interpretation depends on `tag`.
    pub payload: Vec<u8>,
}

/// Mathematical image of an [`Attr`].
pub struct AttrV {
    pub tag: u16,
    pub nested: bool,
    pub network_order: bool,
    pub payload: Seq<u8>,
}

impl View for Attr {
    type V = AttrV;

    open spec fn view(&self) -> AttrV {
        AttrV {
            tag: self.tag,
            nested: self.nested,
            network_order: self.network_order,
            payload: self.payload@,
        }
    }
}

impl DeepView for Attr {
    type V = AttrV;

    open spec fn deep_view(&self) -> AttrV {
        self.view()
    }
}

impl AttrV {
    /// An attribute can be framed on the wire: the tag leaves the two marker
    /// bits free and the payload length fits the 16-bit length field.
    pub open spec fn wf(self) -> bool {
        self.tag < 0x4000 && self.payload.len() + 4 <= 0xffff
    }
}

/// All attributes of a tree can be framed on the wire.
pub open spec fn tree_wf(ats: Seq<AttrV>) -> bool {
    forall|i: int| 0 <= i < ats.len() ==> (#[trigger] ats[i]).wf()
}

// ---------------------------------------------------------------------------
// Lookup by type
// ---------------------------------------------------------------------------

/// First attribute of the tree carrying `tag`, if any; each type is expected
/// to appear at most once per tree level, so the first match is the match.
pub open spec fn spec_find(ats: Seq<AttrV>, tag: u16) -> Option<AttrV>
    decreases ats.len(),
{
    if ats.len() == 0 {
        None
    } else if ats[0].tag == tag {
        Some(ats[0])
    } else {
        spec_find(ats.drop_first(), tag)
    }
}

/// Look an attribute up by exact type tag; returns the first match.
pub fn get_attribute<'a>(ats: &'a Vec<Attr>, tag: u16) -> (r: Option<&'a Attr>)
    ensures
        match r {
            Some(a) => spec_find(ats.deep_view(), tag) == Some(a@),
            None => spec_find(ats.deep_view(), tag) is None,
        },
{
    let ghost all = ats.deep_view();
    proof {
        assert(all.skip(0) =~= all);
    }
    let mut i: usize = 0;
    while i < ats.len()
        invariant
            0 <= i <= ats.len(),
            all == ats.deep_view(),
            all.len() == ats.len(),
            spec_find(all.skip(i as int), tag) == spec_find(all, tag),
        decreases ats.len() - i,
    {
        proof {
            assert(all.skip(i as int)[0] == all[i as int]);
            assert(all.skip(i as int).drop_first() =~= all.skip(i as int + 1));
        }
        if ats[i].tag == tag {
            return Some(&ats[i]);
        }
        i = i + 1;
    }
    proof {
        assert(all.skip(ats.len() as int) =~= Seq::<AttrV>::empty());
    }
    None
}

// ---------------------------------------------------------------------------
// Little-endian scalar readers
// ---------------------------------------------------------------------------

/// Value of a 2-byte little-endian payload.
pub open spec fn le16(b: Seq<u8>) -> int {
    b[0] + 0x100 * b[1]
}

/// Value of a 4-byte little-endian payload.
pub open spec fn le32(b: Seq<u8>) -> int {
    b[0] + 0x100 * b[1] + 0x1_0000 * b[2] + 0x100_0000 * b[3]
}

/// Value of an 8-byte little-endian payload.
pub open spec fn le64(b: Seq<u8>) -> int {
    b[0] + 0x100 * b[1] + 0x1_0000 * b[2] + 0x100_0000 * b[3] + 0x1_0000_0000 * b[4]
        + 0x100_0000_0000 * b[5] + 0x1_0000_0000_0000 * b[6] + 0x100_0000_0000_0000 * b[7]
}

/// Value of a single byte read as a signed 8-bit quantity.
pub open spec fn signed8(b: u8) -> int {
    if b < 0x80 {
        b as int
    } else {
        b as int - 0x100
    }
}

/// Copy a payload into an owned byte vector.
pub fn copy_bytes(src: &Vec<u8>) -> (r: Vec<u8>)
    ensures
        r@ == src@,
{
    let mut r: Vec<u8> = Vec::new();
    let mut i: usize = 0;
    while i < src.len()
        invariant
            i <= src.len(),
            r@ == src@.take(i as int),
        decreases src.len() - i,
    {
        r.push(src[i]);
        proof {
            assert(src@.take(i + 1) =~= src@.take(i as int).push(src@[i as int]));
        }
        i = i + 1;
    }
    proof {
        assert(src@.take(src@.len() as int) =~= src@);
    }
    r
}

/// Read a payload as a 16-bit little-endian scalar. The caller asserts the
/// exact width: any other payload length is a decode failure.
pub fn read_u16(payload: &Vec<u8>) -> (r: Result<u16, WifiError>)
    ensures
        r is Ok <==> payload@.len() == 2,
        r is Ok ==> r->Ok_0 == le16(payload@),
        r is Err ==> r->Err_0 == WifiError::Decode,
{
    if payload.len() == 2 {
        Ok(payload[0] as u16 + 0x100 * payload[1] as u16)
    } else {
        Err(WifiError::Decode)
    }
}

/// Read a payload as a 32-bit little-endian scalar; exact width required.
pub fn read_u32(payload: &Vec<u8>) -> (r: Result<u32, WifiError>)
    ensures
        r is Ok <==> payload@.len() == 4,
        r is Ok ==> r->Ok_0 == le32(payload@),
        r is Err ==> r->Err_0 == WifiError::Decode,
{
    if payload.len() == 4 {
        Ok(payload[0] as u32 + 0x100 * payload[1] as u32 + 0x1_0000 * payload[2] as u32
            + 0x100_0000 * payload[3] as u32)
    } else {
        Err(WifiError::Decode)
    }
}

/// Read a payload as a 64-bit little-endian scalar; exact width required.
pub fn read_u64(payload: &Vec<u8>) -> (r: Result<u64, WifiError>)
    ensures
        r is Ok <==> payload@.len() == 8,
        r is Ok ==> r->Ok_0 == le64(payload@),
        r is Err ==> r->Err_0 == WifiError::Decode,
{
    if payload.len() == 8 {
        Ok(payload[0] as u64 + 0x100 * payload[1] as u64 + 0x1_0000 * payload[2] as u64
            + 0x100_0000 * payload[3] as u64 + 0x1_0000_0000 * payload[4] as u64
            + 0x100_0000_0000 * payload[5] as u64 + 0x1_0000_0000_0000 * payload[6] as u64
            + 0x100_0000_0000_0000 * payload[7] as u64)
    } else {
        Err(WifiError::Decode)
    }
}

/// Read a payload as a single signed byte; exact width required.
pub fn read_i8(payload: &Vec<u8>) -> (r: Result<i8, WifiError>)
    ensures
        r is Ok <==> payload@.len() == 1,
        r is Ok ==> r->Ok_0 == signed8(payload@[0]),
        r is Err ==> r->Err_0 == WifiError::Decode,
{
    if payload.len() == 1 {
        let b = payload[0];
        if b < 0x80 {
            Ok(b as i8)
        } else {
            Ok((b as i16 - 0x100) as i8)
        }
    } else {
        Err(WifiError::Decode)
    }
}

// ---------------------------------------------------------------------------
// Field extraction: lookup by tag plus fixed-width interpretation
// ---------------------------------------------------------------------------

/// Raw-blob field: the payload of the first attribute carrying `tag`,
/// preserved verbatim; absent attributes are absent fields, never errors.
pub open spec fn spec_blob_field(ats: Seq<AttrV>, tag: u16) -> Option<Seq<u8>> {
    match spec_find(ats, tag) {
        Some(a) => Some(a.payload),
        None => None,
    }
}

/// 16-bit scalar field: absent is `Ok(None)`, the wrong width is a decode
/// error, the right width is the little-endian value.
pub open spec fn spec_u16_field(ats: Seq<AttrV>, tag: u16) -> Result<Option<u16>, WifiError> {
    match spec_find(ats, tag) {
        None => Ok(None),
        Some(a) => if a.payload.len() == 2 {
            Ok(Some(le16(a.payload) as u16))
        } else {
            Err(WifiError::Decode)
        },
    }
}

/// 32-bit scalar field; same policy as [`spec_u16_field`].
pub open spec fn spec_u32_field(ats: Seq<AttrV>, tag: u16) -> Result<Option<u32>, WifiError> {
    match spec_find(ats, tag) {
        None => Ok(None),
        Some(a) => if a.payload.len() == 4 {
            Ok(Some(le32(a.payload) as u32))
        } else {
            Err(WifiError::Decode)
        },
    }
}

/// 64-bit scalar field; same policy as [`spec_u16_field`].
pub open spec fn spec_u64_field(ats: Seq<AttrV>, tag: u16) -> Result<Option<u64>, WifiError> {
    match spec_find(ats, tag) {
        None => Ok(None),
        Some(a) => if a.payload.len() == 8 {
            Ok(Some(le64(a.payload) as u64))
        } else {
            Err(WifiError::Decode)
        },
    }
}

/// Signed single-byte field; same policy as [`spec_u16_field`].
pub open spec fn spec_i8_field(ats: Seq<AttrV>, tag: u16) -> Result<Option<i8>, WifiError> {
    match spec_find(ats, tag) {
        None => Ok(None),
        Some(a) => if a.payload.len() == 1 {
            Ok(Some(signed8(a.payload[0]) as i8))
        } else {
            Err(WifiError::Decode)
        },
    }
}

/// Extract a raw-blob field, copying the payload verbatim.
pub fn read_blob_field(ats: &Vec<Attr>, tag: u16) -> (r: Option<Vec<u8>>)
    ensures
        r.deep_view() == spec_blob_field(ats.deep_view(), tag),
{
    match get_attribute(ats, tag) {
        Some(a) => Some(copy_bytes(&a.payload)),
        None => None,
    }
}

/// Extract a 16-bit scalar field.
pub fn read_u16_field(ats: &Vec<Attr>, tag: u16) -> (r: Result<Option<u16>, WifiError>)
    ensures
        r == spec_u16_field(ats.deep_view(), tag),
{
    match get_attribute(ats, tag) {
        None => Ok(None),
        Some(a) => match read_u16(&a.payload) {
            Ok(v) => Ok(Some(v)),
            Err(e) => Err(e),
        },
    }
}

/// Extract a 32-bit scalar field.
pub fn read_u32_field(ats: &Vec<Attr>, tag: u16) -> (r: Result<Option<u32>, WifiError>)
    ensures
        r == spec_u32_field(ats.deep_view(), tag),
{
    match get_attribute(ats, tag) {
        None => Ok(None),
        Some(a) => match read_u32(&a.payload) {
            Ok(v) => Ok(Some(v)),
            Err(e) => Err(e),
        },
    }
}

/// Extract a 64-bit scalar field.
pub fn read_u64_field(ats: &Vec<Attr>, tag: u16) -> (r: Result<Option<u64>, WifiError>)
    ensures
        r == spec_u64_field(ats.deep_view(), tag),
{
    match get_attribute(ats, tag) {
        None => Ok(None),
        Some(a) => match read_u64(&a.payload) {
            Ok(v) => Ok(Some(v)),
            Err(e) => Err(e),
        },
    }
}

/// Extract a signed single-byte field.
pub fn read_i8_field(ats: &Vec<Attr>, tag: u16) -> (r: Result<Option<i8>, WifiError>)
    ensures
        r == spec_i8_field(ats.deep_view(), tag),
{
    match get_attribute(ats, tag) {
        None => Ok(None),
        Some(a) => match read_i8(&a.payload) {
            Ok(v) => Ok(Some(v)),
            Err(e) => Err(e),
        },
    }
}

} // verus!

//! The station record: MAC from the top-level tree, every other field from
//! one nested station-info sub-tree, with the bitrates one nesting level
//! deeper and the dual-representation byte counters resolved by precedence.

use vstd::prelude::*;

use crate::attr::{
    get_attribute, le32, le64, read_blob_field, read_i8_field, read_u32, read_u32_field,
    read_u64, read_u64_field, spec_blob_field, spec_find, spec_i8_field, spec_u32_field,
    spec_u64_field, Attr, AttrV, ATTR_MAC, ATTR_STA_INFO, RATE_INFO_BITRATE32,
    STA_INFO_ACK_SIGNAL, STA_INFO_ACK_SIGNAL_AVG, STA_INFO_BEACON_LOSS, STA_INFO_BEACON_RX,
    STA_INFO_BEACON_SIGNAL_AVG, STA_INFO_CONNECTED_TIME, STA_INFO_INACTIVE_TIME,
    STA_INFO_RX_BITRATE, STA_INFO_RX_BYTES, STA_INFO_RX_BYTES64, STA_INFO_RX_DROP_MISC,
    STA_INFO_RX_DURATION, STA_INFO_RX_PACKETS, STA_INFO_SIGNAL, STA_INFO_SIGNAL_AVG,
    STA_INFO_T_OFFSET, STA_INFO_TX_BITRATE, STA_INFO_TX_BYTES, STA_INFO_TX_BYTES64,
    STA_INFO_TX_DURATION, STA_INFO_TX_FAILED, STA_INFO_TX_PACKETS, STA_INFO_TX_RETRIES,
};
use crate::tlv::{parse_attrs, spec_parse};
use crate::WifiError;

verus! {

/// A remote station (access point) as reported by one data message of a
/// station dump. Every field is optional; absence is a value.
#[derive(Clone, Debug, PartialEq, Eq)]
pub struct Station {
    /// Station bssid, a raw byte blob.
    pub bssid: Option<Vec<u8>>,
    /// Time since last activity, in milliseconds.
    pub inactive_time: Option<u32>,
    /// Total received bytes from this station.
    pub rx_bytes: Option<u64>,
    /// Total received packets (MSDUs and MMPDUs) from this station.
    pub rx_packets: Option<u32>,
    /// Total transmitted bytes to this station.
    pub tx_bytes: Option<u64>,
    /// Total transmitted packets (MSDUs and MMPDUs) to this station.
    pub tx_packets: Option<u32>,
    /// Total retries (MPDUs) to this station.
    pub tx_retries: Option<u32>,
    /// Total failed packets (MPDUs) to this station.
    pub tx_failed: Option<u32>,
    /// Number of beacons received from this peer.
    pub beacon_rx: Option<u64>,
    /// Count of times beacon loss was detected.
    pub beacon_loss: Option<u32>,
    /// Count of received packets dropped for unspecified reasons.
    pub rx_drop_misc: Option<u64>,
    /// Signal strength of the last received PPDU, in dBm.
    pub signal: Option<i8>,
    /// Signal strength average, in dBm.
    pub average_signal: Option<i8>,
    /// Signal strength average of received beacons, in dBm.
    pub beacon_signal_avg: Option<i8>,
    /// Timing offset with respect to this station.
    pub t_offset: Option<u64>,
    /// Transmission bitrate.
    pub tx_bitrate: Option<u32>,
    /// Reception bitrate.
    pub rx_bitrate: Option<u32>,
    /// Aggregate PPDU duration for all frames received from this station.
    pub rx_duration: Option<u64>,
    /// Aggregate PPDU duration for all frames sent to this station.
    pub tx_duration: Option<u64>,
    /// Signal strength of the last acknowledgement, in dBm.
    pub ack_signal: Option<i8>,
    /// Average signal strength of acknowledgements, in dBm.
    pub ack_signal_avg: Option<i8>,
    /// Time since the station was last connected, in seconds.
    pub connected_time: Option<u32>,
}

/// Mathematical image of a [`Station`].
pub struct StationV {
    pub bssid: Option<Seq<u8>>,
    pub inactive_time: Option<u32>,
    pub rx_bytes: Option<u64>,
    pub rx_packets: Option<u32>,
    pub tx_bytes: Option<u64>,
    pub tx_packets: Option<u32>,
    pub tx_retries: Option<u32>,
    pub tx_failed: Option<u32>,
    pub beacon_rx: Option<u64>,
    pub beacon_loss: Option<u32>,
    pub rx_drop_misc: Option<u64>,
    pub signal: Option<i8>,
    pub average_signal: Option<i8>,
    pub beacon_signal_avg: Option<i8>,
    pub t_offset: Option<u64>,
    pub tx_bitrate: Option<u32>,
    pub rx_bitrate: Option<u32>,
    pub rx_duration: Option<u64>,
    pub tx_duration: Option<u64>,
    pub ack_signal: Option<i8>,
    pub ack_signal_avg: Option<i8>,
    pub connected_time: Option<u32>,
}

impl View for Station {
    type V = StationV;

    open spec fn view(&self) -> StationV {
        StationV {
            bssid: self.bssid.deep_view(),
            inactive_time: self.inactive_time,
            rx_bytes: self.rx_bytes,
            rx_packets: self.rx_packets,
            tx_bytes: self.tx_bytes,
            tx_packets: self.tx_packets,
            tx_retries: self.tx_retries,
            tx_failed: self.tx_failed,
            beacon_rx: self.beacon_rx,
            beacon_loss: self.beacon_loss,
            rx_drop_misc: self.rx_drop_misc,
            signal: self.signal,
            average_signal: self.average_signal,
            beacon_signal_avg: self.beacon_signal_avg,
            t_offset: self.t_offset,
            tx_bitrate: self.tx_bitrate,
            rx_bitrate: self.rx_bitrate,
            rx_duration: self.rx_duration,
            tx_duration: self.tx_duration,
            ack_signal: self.ack_signal,
            ack_signal_avg: self.ack_signal_avg,
            connected_time: self.connected_time,
        }
    }
}

impl DeepView for Station {
    type V = StationV;

    open spec fn deep_view(&self) -> StationV {
        self.view()
    }
}

/// The station record with the given bssid and every other field absent.
pub open spec fn station_absent(bssid: Option<Seq<u8>>) -> StationV {
    StationV {
        bssid: bssid,
        inactive_time: None,
        rx_bytes: None,
        rx_packets: None,
        tx_bytes: None,
        tx_packets: None,
        tx_retries: None,
        tx_failed: None,
        beacon_rx: None,
        beacon_loss: None,
        rx_drop_misc: None,
        signal: None,
        average_signal: None,
        beacon_signal_avg: None,
        t_offset: None,
        tx_bitrate: None,
        rx_bitrate: None,
        rx_duration: None,
        tx_duration: None,
        ack_signal: None,
        ack_signal_avg: None,
        connected_time: None,
    }
}

/// Dual-representation byte counter: the 64-bit attribute takes precedence
/// whenever it is present; the legacy 32-bit attribute is only a fallback,
/// zero-extended to 64 bits; neither present is an absent field.
pub open spec fn spec_counter_field(sub: Seq<AttrV>, tag64: u16, tag32: u16) -> Result<
    Option<u64>,
    WifiError,
> {
    match spec_find(sub, tag64) {
        Some(a) => if a.payload.len() == 8 {
            Ok(Some(le64(a.payload) as u64))
        } else {
            Err(WifiError::Decode)
        },
        None => match spec_find(sub, tag32) {
            Some(a) => if a.payload.len() == 4 {
                Ok(Some(le32(a.payload) as u64))
            } else {
                Err(WifiError::Decode)
            },
            None => Ok(None),
        },
    }
}

/// Bitrate field: the sub-attribute is itself a nested rate-info tree, and
/// only its 32-bit bitrate member is read; a rate-info tree without that
/// member is an absent field.
pub open spec fn spec_bitrate_field(sub: Seq<AttrV>, tag: u16) -> Result<Option<u32>, WifiError> {
    match spec_find(sub, tag) {
        None => Ok(None),
        Some(a) => match spec_parse(a.payload) {
            None => Err(WifiError::Decode),
            Some(rates) => match spec_find(rates, RATE_INFO_BITRATE32) {
                None => Ok(None),
                Some(r) => if r.payload.len() == 4 {
                    Ok(Some(le32(r.payload) as u32))
                } else {
                    Err(WifiError::Decode)
                },
            },
        },
    }
}

/// Every recognized field of the station-info sub-tree decodes.
pub open spec fn sta_fields_ok(sub: Seq<AttrV>) -> bool {
    &&& spec_u32_field(sub, STA_INFO_INACTIVE_TIME) is Ok
    &&& spec_counter_field(sub, STA_INFO_RX_BYTES64, STA_INFO_RX_BYTES) is Ok
    &&& spec_counter_field(sub, STA_INFO_TX_BYTES64, STA_INFO_TX_BYTES) is Ok
    &&& spec_u32_field(sub, STA_INFO_RX_PACKETS) is Ok
    &&& spec_u32_field(sub, STA_INFO_TX_PACKETS) is Ok
    &&& spec_u32_field(sub, STA_INFO_TX_RETRIES) is Ok
    &&& spec_u32_field(sub, STA_INFO_TX_FAILED) is Ok
    &&& spec_u64_field(sub, STA_INFO_BEACON_RX) is Ok
    &&& spec_u32_field(sub, STA_INFO_BEACON_LOSS) is Ok
    &&& spec_u64_field(sub, STA_INFO_RX_DROP_MISC) is Ok
    &&& spec_i8_field(sub, STA_INFO_SIGNAL) is Ok
    &&& spec_i8_field(sub, STA_INFO_SIGNAL_AVG) is Ok
    &&& spec_i8_field(sub, STA_INFO_BEACON_SIGNAL_AVG) is Ok
    &&& spec_u64_field(sub, STA_INFO_T_OFFSET) is Ok
    &&& spec_bitrate_field(sub, STA_INFO_TX_BITRATE) is Ok
    &&& spec_bitrate_field(sub, STA_INFO_RX_BITRATE) is Ok
    &&& spec_u64_field(sub, STA_INFO_RX_DURATION) is Ok
    &&& spec_u64_field(sub, STA_INFO_TX_DURATION) is Ok
    &&& spec_i8_field(sub, STA_INFO_ACK_SIGNAL) is Ok
    &&& spec_i8_field(sub, STA_INFO_ACK_SIGNAL_AVG) is Ok
    &&& spec_u32_field(sub, STA_INFO_CONNECTED_TIME) is Ok
}

/// The station record described by a station-info sub-tree and a bssid.
pub open spec fn spec_station_fields(sub: Seq<AttrV>, bssid: Option<Seq<u8>>) -> StationV {
    StationV {
        bssid: bssid,
        inactive_time: spec_u32_field(sub, STA_INFO_INACTIVE_TIME)->Ok_0,
        rx_bytes: spec_counter_field(sub, STA_INFO_RX_BYTES64, STA_INFO_RX_BYTES)->Ok_0,
        rx_packets: spec_u32_field(sub, STA_INFO_RX_PACKETS)->Ok_0,
        tx_bytes: spec_counter_field(sub, STA_INFO_TX_BYTES64, STA_INFO_TX_BYTES)->Ok_0,
        tx_packets: spec_u32_field(sub, STA_INFO_TX_PACKETS)->Ok_0,
        tx_retries: spec_u32_field(sub, STA_INFO_TX_RETRIES)->Ok_0,
        tx_failed: spec_u32_field(sub, STA_INFO_TX_FAILED)->Ok_0,
        beacon_rx: spec_u64_field(sub, STA_INFO_BEACON_RX)->Ok_0,
        beacon_loss: spec_u32_field(sub, STA_INFO_BEACON_LOSS)->Ok_0,
        rx_drop_misc: spec_u64_field(sub, STA_INFO_RX_DROP_MISC)->Ok_0,
        signal: spec_i8_field(sub, STA_INFO_SIGNAL)->Ok_0,
        average_signal: spec_i8_field(sub, STA_INFO_SIGNAL_AVG)->Ok_0,
        beacon_signal_avg: spec_i8_field(sub, STA_INFO_BEACON_SIGNAL_AVG)->Ok_0,
        t_offset: spec_u64_field(sub, STA_INFO_T_OFFSET)->Ok_0,
        tx_bitrate: spec_bitrate_field(sub, STA_INFO_TX_BITRATE)->Ok_0,
        rx_bitrate: spec_bitrate_field(sub, STA_INFO_RX_BITRATE)->Ok_0,
        rx_duration: spec_u64_field(sub, STA_INFO_RX_DURATION)->Ok_0,
        tx_duration: spec_u64_field(sub, STA_INFO_TX_DURATION)->Ok_0,
        ack_signal: spec_i8_field(sub, STA_INFO_ACK_SIGNAL)->Ok_0,
        ack_signal_avg: spec_i8_field(sub, STA_INFO_ACK_SIGNAL_AVG)->Ok_0,
        connected_time: spec_u32_field(sub, STA_INFO_CONNECTED_TIME)->Ok_0,
    }
}

/// Mapping a top-level tree to a station record succeeds: either there is
/// no station-info sub-attribute, or its payload parses as an attribute
/// tree whose recognized fields all decode.
pub open spec fn station_decode_ok(ats: Seq<AttrV>) -> bool {
    match spec_find(ats, ATTR_STA_INFO) {
        None => true,
        Some(info) => match spec_parse(info.payload) {
            None => false,
            Some(sub) => sta_fields_ok(sub),
        },
    }
}

/// The station record described by a top-level attribute tree.
pub open spec fn spec_station(ats: Seq<AttrV>) -> StationV {
    let bssid = spec_blob_field(ats, ATTR_MAC);
    match spec_find(ats, ATTR_STA_INFO) {
        None => station_absent(bssid),
        Some(info) => match spec_parse(info.payload) {
            None => station_absent(bssid),
            Some(sub) => spec_station_fields(sub, bssid),
        },
    }
}

impl Station {
    /// The record with every field absent.
    pub fn default() -> (r: Station)
        ensures
            r@ == station_absent(None),
    {
        Station {
            bssid: None,
            inactive_time: None,
            rx_bytes: None,
            rx_packets: None,
            tx_bytes: None,
            tx_packets: None,
            tx_retries: None,
            tx_failed: None,
            beacon_rx: None,
            beacon_loss: None,
            rx_drop_misc: None,
            signal: None,
            average_signal: None,
            beacon_signal_avg: None,
            t_offset: None,
            tx_bitrate: None,
            rx_bitrate: None,
            rx_duration: None,
            tx_duration: None,
            ack_signal: None,
            ack_signal_avg: None,
            connected_time: None,
        }
    }

    /// Map a decoded top-level attribute tree to a station record.
    #[verifier::rlimit(100)]
    pub fn from_attrs(ats: &Vec<Attr>) -> (r: Result<Station, WifiError>)
        ensures
            r is Ok <==> station_decode_ok(ats.deep_view()),
            r is Ok ==> r->Ok_0@ == spec_station(ats.deep_view()),
            r is Err ==> r->Err_0 == WifiError::Decode,
    {
        let bssid = read_blob_field(ats, ATTR_MAC);
        let info = match get_attribute(ats, ATTR_STA_INFO) {
            None => {
                let mut r = Station::default();
                r.bssid = bssid;
                return Ok(r);
            },
            Some(info) => info,
        };
        let sub = match parse_attrs(&info.payload) {
            Ok(sub) => sub,
            Err(e) => {
                return Err(e);
            },
        };
        let inactive_time = match read_u32_field(&sub, STA_INFO_INACTIVE_TIME) {
            Ok(v) => v,
            Err(e) => {
                return Err(e);
            },
        };
        let rx_bytes = match read_counter_field(&sub, STA_INFO_RX_BYTES64, STA_INFO_RX_BYTES) {
            Ok(v) => v,
            Err(e) => {
                return Err(e);
            },
        };
        let tx_bytes = match read_counter_field(&sub, STA_INFO_TX_BYTES64, STA_INFO_TX_BYTES) {
            Ok(v) => v,
            Err(e) => {
                return Err(e);
            },
        };
        let rx_packets = match read_u32_field(&sub, STA_INFO_RX_PACKETS) {
            Ok(v) => v,
            Err(e) => {
                return Err(e);
            },
        };
        let tx_packets = match read_u32_field(&sub, STA_INFO_TX_PACKETS) {
            Ok(v) => v,
            Err(e) => {
                return Err(e);
            },
        };
        let tx_retries = match read_u32_field(&sub, STA_INFO_TX_RETRIES) {
            Ok(v) => v,
            Err(e) => {
                return Err(e);
            },
        };
        let tx_failed = match read_u32_field(&sub, STA_INFO_TX_FAILED) {
            Ok(v) => v,
            Err(e) => {
                return Err(e);
            },
        };
        let beacon_rx = match read_u64_field(&sub, STA_INFO_BEACON_RX) {
            Ok(v) => v,
            Err(e) => {
                return Err(e);
            },
        };
        let beacon_loss = match read_u32_field(&sub, STA_INFO_BEACON_LOSS) {
            Ok(v) => v,
            Err(e) => {
                return Err(e);
            },
        };
        let rx_drop_misc = match read_u64_field(&sub, STA_INFO_RX_DROP_MISC) {
            Ok(v) => v,
            Err(e) => {
                return Err(e);
            },
        };
        let signal = match read_i8_field(&sub, STA_INFO_SIGNAL) {
            Ok(v) => v,
            Err(e) => {
                return Err(e);
            },
        };
        let average_signal = match read_i8_field(&sub, STA_INFO_SIGNAL_AVG) {
            Ok(v) => v,
            Err(e) => {
                return Err(e);
            },
        };
        let beacon_signal_avg = match read_i8_field(&sub, STA_INFO_BEACON_SIGNAL_AVG) {
            Ok(v) => v,
            Err(e) => {
                return Err(e);
            },
        };
        let t_offset = match read_u64_field(&sub, STA_INFO_T_OFFSET) {
            Ok(v) => v,
            Err(e) => {
                return Err(e);
            },
        };
        let tx_bitrate = match read_bitrate_field(&sub, STA_INFO_TX_BITRATE) {
            Ok(v) => v,
            Err(e) => {
                return Err(e);
            },
        };
        let rx_bitrate = match read_bitrate_field(&sub, STA_INFO_RX_BITRATE) {
            Ok(v) => v,
            Err(e) => {
                return Err(e);
            },
        };
        let rx_duration = match read_u64_field(&sub, STA_INFO_RX_DURATION) {
            Ok(v) => v,
            Err(e) => {
                return Err(e);
            },
        };
        let tx_duration = match read_u64_field(&sub, STA_INFO_TX_DURATION) {
            Ok(v) => v,
            Err(e) => {
                return Err(e);
            },
        };
        let ack_signal = match read_i8_field(&sub, STA_INFO_ACK_SIGNAL) {
            Ok(v) => v,
            Err(e) => {
                return Err(e);
            },
        };
        let ack_signal_avg = match read_i8_field(&sub, STA_INFO_ACK_SIGNAL_AVG) {
            Ok(v) => v,
            Err(e) => {
                return Err(e);
            },
        };
        let connected_time = match read_u32_field(&sub, STA_INFO_CONNECTED_TIME) {
            Ok(v) => v,
            Err(e) => {
                return Err(e);
            },
        };
        Ok(
            Station {
                bssid,
                inactive_time,
                rx_bytes,
                rx_packets,
                tx_bytes,
                tx_packets,
                tx_retries,
                tx_failed,
                beacon_rx,
                beacon_loss,
                rx_drop_misc,
                signal,
                average_signal,
                beacon_signal_avg,
                t_offset,
                tx_bitrate,
                rx_bitrate,
                rx_duration,
                tx_duration,
                ack_signal,
                ack_signal_avg,
                connected_time,
            },
        )
    }
}

/// Extract a dual-representation byte counter, preferring the 64-bit form.
pub fn read_counter_field(sub: &Vec<Attr>, tag64: u16, tag32: u16) -> (r: Result<
    Option<u64>,
    WifiError,
>)
    ensures
        r == spec_counter_field(sub.deep_view(), tag64, tag32),
{
    match get_attribute(sub, tag64) {
        Some(a) => match read_u64(&a.payload) {
            Ok(v) => Ok(Some(v)),
            Err(e) => Err(e),
        },
        None => match get_attribute(sub, tag32) {
            Some(a) => match read_u32(&a.payload) {
                Ok(v) => Ok(Some(v as u64)),
                Err(e) => Err(e),
            },
            None => Ok(None),
        },
    }
}

/// Extract a bitrate field from its nested rate-info sub-tree.
pub fn read_bitrate_field(sub: &Vec<Attr>, tag: u16) -> (r: Result<Option<u32>, WifiError>)
    ensures
        r == spec_bitrate_field(sub.deep_view(), tag),
{
    match get_attribute(sub, tag) {
        None => Ok(None),
        Some(a) => match parse_attrs(&a.payload) {
            Err(e) => Err(e),
            Ok(rates) => match get_attribute(&rates, RATE_INFO_BITRATE32) {
                None => Ok(None),
                Some(r) => match read_u32(&r.payload) {
                    Ok(v) => Ok(Some(v)),
                    Err(e) => Err(e),
                },
            },
        },
    }
}

impl crate::nl80211traits::ParseNlAttr for Station {
    fn parse(attrs: &Vec<Attr>) -> Result<Station, WifiError> {
        Station::from_attrs(attrs)
    }
}

/// The byte-counter precedence law, over every combination of presence of
/// the two representations: both present yields the 64-bit value, only one
/// present yields that value (the 32-bit one zero-extended), neither
/// present yields an absent field.
pub proof fn lemma_counter_precedence(sub: Seq<AttrV>, tag64: u16, tag32: u16)
    requires
        spec_counter_field(sub, tag64, tag32) is Ok,
    ensures
        spec_find(sub, tag64) is Some ==> spec_counter_field(sub, tag64, tag32)
            == Ok::<Option<u64>, WifiError>(Some(le64(spec_find(sub, tag64)->Some_0.payload) as u64)),
        spec_find(sub, tag64) is None && spec_find(sub, tag32) is Some
            ==> spec_counter_field(sub, tag64, tag32) == Ok::<Option<u64>, WifiError>(
            Some(le32(spec_find(sub, tag32)->Some_0.payload) as u64),
        ),
        spec_find(sub, tag64) is None && spec_find(sub, tag32) is None ==> spec_counter_field(
            sub,
            tag64,
            tag32,
        ) == Ok::<Option<u64>, WifiError>(None),
{
}

} // verus!

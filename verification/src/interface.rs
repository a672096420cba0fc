//! The interface record: a single pass over a top-level attribute tree,
//! copying raw blobs verbatim and decoding the fixed-width scalars.

use vstd::prelude::*;

use crate::attr::{
    read_blob_field, read_u32_field, read_u64_field, spec_blob_field, spec_u32_field,
    spec_u64_field, Attr, ATTR_CHANNEL_WIDTH, ATTR_IFINDEX, ATTR_IFNAME, ATTR_MAC, ATTR_SSID,
    ATTR_WDEV, ATTR_WIPHY, ATTR_WIPHY_FREQ, ATTR_WIPHY_TX_POWER_LEVEL,
};
use crate::WifiError;

verus! {

/// A wifi interface as reported by one data message of an interface dump.
/// Every field is optional: the kernel may omit any attribute, and absence
/// is a value, not an error.
#[derive(Clone, Debug, PartialEq, Eq)]
pub struct Interface {
    /// Netlink interface index, preserved verbatim as a byte blob so it can
    /// be re-used as a filter value for subsequent queries.
    pub index: Option<Vec<u8>>,
    /// Interface essid.
    pub ssid: Option<Vec<u8>>,
    /// Interface MAC address, a raw 6-byte blob.
    pub mac: Option<Vec<u8>>,
    /// Interface name bytes.
    pub name: Option<Vec<u8>>,
    /// Frequency of the selected channel in MHz.
    pub frequency: Option<u32>,
    /// Channel width.
    pub channel: Option<u32>,
    /// Transmit power level in signed mBm units.
    pub power: Option<u32>,
    /// Index of the wiphy to operate on.
    pub phy: Option<u32>,
    /// Wireless device identifier, for pseudo-devices without a netdev.
    pub device: Option<u64>,
}

/// Mathematical image of an [`Interface`].
pub struct InterfaceV {
    pub index: Option<Seq<u8>>,
    pub ssid: Option<Seq<u8>>,
    pub mac: Option<Seq<u8>>,
    pub name: Option<Seq<u8>>,
    pub frequency: Option<u32>,
    pub channel: Option<u32>,
    pub power: Option<u32>,
    pub phy: Option<u32>,
    pub device: Option<u64>,
}

impl View for Interface {
    type V = InterfaceV;

    open spec fn view(&self) -> InterfaceV {
        InterfaceV {
            index: self.index.deep_view(),
            ssid: self.ssid.deep_view(),
            mac: self.mac.deep_view(),
            name: self.name.deep_view(),
            frequency: self.frequency,
            channel: self.channel,
            power: self.power,
            phy: self.phy,
            device: self.device,
        }
    }
}

impl DeepView for Interface {
    type V = InterfaceV;

    open spec fn deep_view(&self) -> InterfaceV {
        self.view()
    }
}

/// The all-absent interface record.
pub open spec fn interface_absent() -> InterfaceV {
    InterfaceV {
        index: None,
        ssid: None,
        mac: None,
        name: None,
        frequency: None,
        channel: None,
        power: None,
        phy: None,
        device: None,
    }
}

/// Every recognized fixed-width attribute of the tree carries its exact
/// width, so mapping the tree to an interface record succeeds.
pub open spec fn interface_decode_ok(ats: Seq<crate::attr::AttrV>) -> bool {
    &&& spec_u32_field(ats, ATTR_WIPHY_FREQ) is Ok
    &&& spec_u32_field(ats, ATTR_CHANNEL_WIDTH) is Ok
    &&& spec_u32_field(ats, ATTR_WIPHY_TX_POWER_LEVEL) is Ok
    &&& spec_u32_field(ats, ATTR_WIPHY) is Ok
    &&& spec_u64_field(ats, ATTR_WDEV) is Ok
}

/// The interface record described by a top-level attribute tree: each field
/// is the first attribute of its tag, blobs verbatim, scalars little-endian.
pub open spec fn spec_interface(ats: Seq<crate::attr::AttrV>) -> InterfaceV {
    InterfaceV {
        index: spec_blob_field(ats, ATTR_IFINDEX),
        ssid: spec_blob_field(ats, ATTR_SSID),
        mac: spec_blob_field(ats, ATTR_MAC),
        name: spec_blob_field(ats, ATTR_IFNAME),
        frequency: spec_u32_field(ats, ATTR_WIPHY_FREQ)->Ok_0,
        channel: spec_u32_field(ats, ATTR_CHANNEL_WIDTH)->Ok_0,
        power: spec_u32_field(ats, ATTR_WIPHY_TX_POWER_LEVEL)->Ok_0,
        phy: spec_u32_field(ats, ATTR_WIPHY)->Ok_0,
        device: spec_u64_field(ats, ATTR_WDEV)->Ok_0,
    }
}

impl Interface {
    /// The record with every field absent.
    pub fn default() -> (r: Interface)
        ensures
            r@ == interface_absent(),
    {
        Interface {
            index: None,
            ssid: None,
            mac: None,
            name: None,
            frequency: None,
            channel: None,
            power: None,
            phy: None,
            device: None,
        }
    }

    /// Map a decoded top-level attribute tree to an interface record.
    /// Attributes of unrecognized type are skipped; a recognized scalar
    /// attribute of the wrong width is a decode error.
    pub fn from_attrs(ats: &Vec<Attr>) -> (r: Result<Interface, WifiError>)
        ensures
            r is Ok <==> interface_decode_ok(ats.deep_view()),
            r is Ok ==> r->Ok_0@ == spec_interface(ats.deep_view()),
            r is Err ==> r->Err_0 == WifiError::Decode,
    {
        let index = read_blob_field(ats, ATTR_IFINDEX);
        let ssid = read_blob_field(ats, ATTR_SSID);
        let mac = read_blob_field(ats, ATTR_MAC);
        let name = read_blob_field(ats, ATTR_IFNAME);
        let frequency = match read_u32_field(ats, ATTR_WIPHY_FREQ) {
            Ok(v) => v,
            Err(e) => {
                return Err(e);
            },
        };
        let channel = match read_u32_field(ats, ATTR_CHANNEL_WIDTH) {
            Ok(v) => v,
            Err(e) => {
                return Err(e);
            },
        };
        let power = match read_u32_field(ats, ATTR_WIPHY_TX_POWER_LEVEL) {
            Ok(v) => v,
            Err(e) => {
                return Err(e);
            },
        };
        let phy = match read_u32_field(ats, ATTR_WIPHY) {
            Ok(v) => v,
            Err(e) => {
                return Err(e);
            },
        };
        let device = match read_u64_field(ats, ATTR_WDEV) {
            Ok(v) => v,
            Err(e) => {
                return Err(e);
            },
        };
        Ok(Interface { index, ssid, mac, name, frequency, channel, power, phy, device })
    }
}

impl crate::nl80211traits::ParseNlAttr for Interface {
    fn parse(attrs: &Vec<Attr>) -> Result<Interface, WifiError> {
        Interface::from_attrs(attrs)
    }
}

} // verus!

//! A verified client core for the nl80211 generic-netlink family.
//!
//! The library covers the protocol logic of a wireless-information query:
//! building request envelopes, framing and parsing the generic-netlink
//! type-length-value attribute streams, driving a dump exchange to
//! completion, and mapping decoded attribute trees onto typed records for
//! interfaces, stations and scan results. The raw socket transport is an
//! external collaborator and lives outside this crate.

use vstd::prelude::*;

pub mod attr;
pub mod bss;
pub mod dump;
pub mod genl;
pub mod interface;
pub mod nl80211traits;
pub mod station;
pub mod tlv;

verus! {

/// Name of the generic-netlink family this client talks to.
pub const NL_80211_GENL_NAME: &'static str = "nl80211";

/// Protocol version byte carried in every request envelope.
pub const NL_80211_GENL_VERSION: u8 = 1;

/// Failure taxonomy of the query core.
///
/// `Connection` and `Transport` are produced by the unverified transport
/// adapters; the protocol core itself only ever reports `Decode` (malformed
/// attribute framing) and `Kernel` (an explicit error message in a dump).
#[derive(Clone, Copy, Debug, PartialEq, Eq, Structural)]
pub enum WifiError {
    /// Family resolution failed or the channel could not be opened.
    Connection,
    /// A byte-level write or read on the channel failed.
    Transport,
    /// An attribute sequence or scalar payload was malformed.
    Decode,
    /// The kernel answered the in-flight dump with an error message.
    Kernel,
}

} // verus!

//! The parsing trait shared by the domain records.

use vstd::prelude::*;

use crate::attr::Attr;
use crate::WifiError;

verus! {

/// Parse a decoded attribute tree returned by an nl80211 command into a
/// typed domain record.
pub trait ParseNlAttr: Sized {
    /// Map a decoded top-level attribute tree to a record of this type.
    fn parse(attrs: &Vec<Attr>) -> Result<Self, WifiError>;
}

} // verus!

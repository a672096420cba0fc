//! Request envelopes and the generic-netlink payload framing: a command
//! byte, a version byte, two reserved bytes, then the attribute stream.

use vstd::prelude::*;

use crate::attr::{tree_wf, Attr, AttrV, ATTR_IFINDEX, CMD_GET_INTERFACE, CMD_GET_SCAN,
    CMD_GET_STATION, NLM_F_DUMP, NLM_F_REQUEST};
use crate::tlv::{encode_attrs, parse_attrs, spec_encode, spec_parse};
use crate::WifiError;
use crate::NL_80211_GENL_VERSION;

verus! {

/// A request ready to hand to the transport: command code, protocol
/// version, netlink flag bits, and at most one filtering attribute.
pub struct RequestEnvelope {
    /// Command code of the query.
    pub cmd: u8,
    /// Protocol version byte.
    pub version: u8,
    /// Netlink header flag bits.
    pub flags: u16,
    /// Attribute payload of the request.
    pub attrs: Vec<Attr>,
}

/// Mathematical image of a [`RequestEnvelope`].
pub struct RequestEnvelopeV {
    pub cmd: u8,
    pub version: u8,
    pub flags: u16,
    pub attrs: Seq<AttrV>,
}

impl View for RequestEnvelope {
    type V = RequestEnvelopeV;

    open spec fn view(&self) -> RequestEnvelopeV {
        RequestEnvelopeV {
            cmd: self.cmd,
            version: self.version,
            flags: self.flags,
            attrs: self.attrs.deep_view(),
        }
    }
}

/// The filtering attribute of a request: an interface index carried
/// verbatim as a byte blob, with no marker bits set.
pub open spec fn spec_filter_attr(if_index: Seq<u8>) -> AttrV {
    AttrV { tag: ATTR_IFINDEX, nested: false, network_order: false, payload: if_index }
}

/// The envelope every query sends: the given command, the fixed protocol
/// version, the request and dump flag bits, and the optional filter.
pub open spec fn spec_request(cmd: u8, filter: Option<Seq<u8>>) -> RequestEnvelopeV {
    RequestEnvelopeV {
        cmd: cmd,
        version: NL_80211_GENL_VERSION,
        flags: NLM_F_REQUEST | NLM_F_DUMP,
        attrs: match filter {
            None => Seq::empty(),
            Some(f) => seq![spec_filter_attr(f)],
        },
    }
}

/// Build a request envelope for `cmd`, optionally filtered to one
/// interface index. Pure and total over the inputs the wire format admits.
pub fn build_request(cmd: u8, filter: Option<&Vec<u8>>) -> (r: RequestEnvelope)
    requires
        filter is Some ==> filter->0@.len() + 4 <= 0xffff,
    ensures
        r@ == spec_request(
            cmd,
            match filter {
                Some(f) => Some(f@),
                None => None,
            },
        ),
        tree_wf(r@.attrs),
{
    let mut attrs: Vec<Attr> = Vec::new();
    match filter {
        None => {},
        Some(f) => {
            attrs.push(
                Attr {
                    tag: ATTR_IFINDEX,
                    nested: false,
                    network_order: false,
                    payload: crate::attr::copy_bytes(f),
                },
            );
        },
    }
    let r = RequestEnvelope {
        cmd,
        version: NL_80211_GENL_VERSION,
        flags: NLM_F_REQUEST | NLM_F_DUMP,
        attrs,
    };
    proof {
        match filter {
            Some(f) => {
                assert(r@.attrs =~= seq![spec_filter_attr(f@)]);
            },
            None => {
                assert(r@.attrs =~= Seq::<AttrV>::empty());
            },
        }
    }
    r
}

/// Build the unfiltered interface-enumeration request.
pub fn build_get_interfaces_request() -> (r: RequestEnvelope)
    ensures
        r@ == spec_request(CMD_GET_INTERFACE, None),
        tree_wf(r@.attrs),
{
    build_request(CMD_GET_INTERFACE, None)
}

/// Build the station query request, filtered to one interface index.
pub fn build_get_station_request(if_index: &Vec<u8>) -> (r: RequestEnvelope)
    requires
        if_index@.len() + 4 <= 0xffff,
    ensures
        r@ == spec_request(CMD_GET_STATION, Some(if_index@)),
        tree_wf(r@.attrs),
{
    build_request(CMD_GET_STATION, Some(if_index))
}

/// Build the scan (BSS) query request, filtered to one interface index.
pub fn build_get_bss_request(if_index: &Vec<u8>) -> (r: RequestEnvelope)
    requires
        if_index@.len() + 4 <= 0xffff,
    ensures
        r@ == spec_request(CMD_GET_SCAN, Some(if_index@)),
        tree_wf(r@.attrs),
{
    build_request(CMD_GET_SCAN, Some(if_index))
}

/// Generic-netlink payload bytes of a request: command byte, version byte,
/// two reserved zero bytes, then the canonical attribute stream.
pub open spec fn spec_genl_payload(cmd: u8, version: u8, attrs: Seq<AttrV>) -> Seq<u8> {
    seq![cmd, version, 0u8, 0u8] + spec_encode(attrs)
}

/// Frame a request envelope into its generic-netlink payload bytes.
pub fn encode_genl_payload(env: &RequestEnvelope) -> (r: Vec<u8>)
    requires
        tree_wf(env@.attrs),
    ensures
        r@ == spec_genl_payload(env@.cmd, env@.version, env@.attrs),
{
    let mut r: Vec<u8> = Vec::new();
    r.push(env.cmd);
    r.push(env.version);
    r.push(0u8);
    r.push(0u8);
    let mut rest = encode_attrs(&env.attrs);
    r.append(&mut rest);
    proof {
        assert(r@ =~= spec_genl_payload(env@.cmd, env@.version, env@.attrs));
    }
    r
}

/// Attribute tree carried by the generic-netlink payload of a response:
/// everything after the 4-byte generic-netlink header. A payload too short
/// to hold that header is a decode failure.
pub open spec fn spec_parse_genl(bytes: Seq<u8>) -> Option<Seq<AttrV>> {
    if bytes.len() < 4 {
        None
    } else {
        spec_parse(bytes.skip(4))
    }
}

/// Parse the attribute tree out of a response's generic-netlink payload.
pub fn parse_genl_payload(bytes: &Vec<u8>) -> (r: Result<Vec<Attr>, WifiError>)
    ensures
        match r {
            Ok(ats) => spec_parse_genl(bytes@) == Some(ats.deep_view()),
            Err(e) => spec_parse_genl(bytes@) is None && e == WifiError::Decode,
        },
{
    if bytes.len() < 4 {
        return Err(WifiError::Decode);
    }
    let mut tail: Vec<u8> = Vec::new();
    let mut i: usize = 4;
    while i < bytes.len()
        invariant
            4 <= i <= bytes@.len(),
            tail@ == bytes@.subrange(4, i as int),
        decreases bytes.len() - i,
    {
        tail.push(bytes[i]);
        proof {
            assert(bytes@.subrange(4, i + 1) =~= bytes@.subrange(4, i as int).push(
                bytes@[i as int],
            ));
        }
        i = i + 1;
    }
    proof {
        assert(tail@ =~= bytes@.skip(4));
    }
    parse_attrs(&tail)
}

} // verus!

//! The dump collector: the protocol state machine that classifies every
//! inbound message of a dump exchange, accumulates data messages under the
//! caller's policy, and detects termination or failure.
//!
//! The machine is written once, over plain values; the synchronous and the
//! suspending transport adapters both drive it and differ only in how they
//! wait for the next batch.

use vstd::prelude::*;

use crate::attr::Attr;
use crate::attr::AttrV;
use crate::bss::{bss_decode_ok, spec_bss, Bss, BssV};
use crate::genl::spec_parse_genl;
use crate::interface::{interface_decode_ok, spec_interface, Interface, InterfaceV};
use crate::station::{spec_station, station_absent, station_decode_ok, Station, StationV};
use crate::WifiError;

verus! {

/// Netlink message kind tag for a no-operation message.
pub const NLMSG_NOOP: u16 = 1;

/// Netlink message kind tag for an error message.
pub const NLMSG_ERROR: u16 = 2;

/// Netlink message kind tag for the dump-termination sentinel.
pub const NLMSG_DONE: u16 = 3;

/// One classified inbound message of a dump exchange. A data message
/// carries the raw generic-netlink payload bytes of the response.
#[derive(Clone, Debug, PartialEq, Eq)]
pub enum NlMessage {
    /// A no-operation message; the loop ignores it.
    Noop,
    /// An explicit error message from the kernel; fatal for the exchange.
    Error,
    /// The sentinel terminating the dump successfully.
    Done,
    /// A data message: its generic-netlink payload bytes.
    Data(Vec<u8>),
}

/// Mathematical image of an [`NlMessage`].
pub enum NlMessageV {
    Noop,
    Error,
    Done,
    Data(Seq<u8>),
}

impl View for NlMessage {
    type V = NlMessageV;

    open spec fn view(&self) -> NlMessageV {
        match self {
            NlMessage::Noop => NlMessageV::Noop,
            NlMessage::Error => NlMessageV::Error,
            NlMessage::Done => NlMessageV::Done,
            NlMessage::Data(bytes) => NlMessageV::Data(bytes@),
        }
    }
}

impl DeepView for NlMessage {
    type V = NlMessageV;

    open spec fn deep_view(&self) -> NlMessageV {
        self.view()
    }
}

/// Classify one physical message by its netlink header type: the three
/// reserved control kinds, and everything else as a data message.
pub fn classify_message(nl_type: u16, payload: Vec<u8>) -> (r: NlMessage)
    ensures
        nl_type == NLMSG_NOOP ==> r@ == NlMessageV::Noop,
        nl_type == NLMSG_ERROR ==> r@ == NlMessageV::Error,
        nl_type == NLMSG_DONE ==> r@ == NlMessageV::Done,
        !(nl_type == NLMSG_NOOP || nl_type == NLMSG_ERROR || nl_type == NLMSG_DONE) ==> r@
            == NlMessageV::Data(payload@),
{
    if nl_type == NLMSG_NOOP {
        NlMessage::Noop
    } else if nl_type == NLMSG_ERROR {
        NlMessage::Error
    } else if nl_type == NLMSG_DONE {
        NlMessage::Done
    } else {
        NlMessage::Data(payload)
    }
}

/// Accumulation policy of a dump: enumerations append every record, while
/// single-target queries keep only the most recent one.
#[derive(Clone, Copy, Debug, PartialEq, Eq, Structural)]
pub enum DumpPolicy {
    /// Append every decoded tree, preserving arrival order.
    Append,
    /// Keep only the most recently decoded tree.
    KeepLast,
}

/// State of a dump exchange.
#[derive(Clone, Copy, Debug, PartialEq, Eq, Structural)]
pub enum DumpStatus {
    /// More messages are expected.
    Running,
    /// The termination sentinel arrived; the collected trees stand.
    Finished,
    /// The exchange failed; nothing collected may be returned.
    Failed(WifiError),
}

/// The dump collector: policy, status, and the collected attribute trees.
pub struct DumpCollector {
    /// Accumulation policy of this exchange.
    pub policy: DumpPolicy,
    /// Current state of the exchange.
    pub status: DumpStatus,
    /// Decoded attribute trees accumulated so far.
    pub trees: Vec<Vec<Attr>>,
}

/// Mathematical image of a [`DumpCollector`].
pub struct DumpModel {
    pub policy: DumpPolicy,
    pub status: DumpStatus,
    pub trees: Seq<Seq<AttrV>>,
}

impl View for DumpCollector {
    type V = DumpModel;

    open spec fn view(&self) -> DumpModel {
        DumpModel { policy: self.policy, status: self.status, trees: self.trees.deep_view() }
    }
}

/// The collector a fresh exchange starts from.
pub open spec fn spec_init(policy: DumpPolicy) -> DumpModel {
    DumpModel { policy: policy, status: DumpStatus::Running, trees: Seq::empty() }
}

/// One decoded tree added under the policy.
pub open spec fn spec_accumulate(policy: DumpPolicy, trees: Seq<Seq<AttrV>>, t: Seq<AttrV>) -> Seq<
    Seq<AttrV>,
> {
    match policy {
        DumpPolicy::Append => trees.push(t),
        DumpPolicy::KeepLast => seq![t],
    }
}

/// The state machine: one classified message applied to the collector.
/// After termination or failure every further message is ignored.
pub open spec fn spec_step(s: DumpModel, m: NlMessageV) -> DumpModel {
    if !(s.status is Running) {
        s
    } else {
        match m {
            NlMessageV::Noop => s,
            NlMessageV::Error => DumpModel {
                policy: s.policy,
                status: DumpStatus::Failed(WifiError::Kernel),
                trees: s.trees,
            },
            NlMessageV::Done => DumpModel {
                policy: s.policy,
                status: DumpStatus::Finished,
                trees: s.trees,
            },
            NlMessageV::Data(bytes) => match spec_parse_genl(bytes) {
                None => DumpModel {
                    policy: s.policy,
                    status: DumpStatus::Failed(WifiError::Decode),
                    trees: s.trees,
                },
                Some(tree) => DumpModel {
                    policy: s.policy,
                    status: s.status,
                    trees: spec_accumulate(s.policy, s.trees, tree),
                },
            },
        }
    }
}

/// The state machine folded over a message sequence, in arrival order.
pub open spec fn spec_run(s: DumpModel, msgs: Seq<NlMessageV>) -> DumpModel
    decreases msgs.len(),
{
    if msgs.len() == 0 {
        s
    } else {
        spec_run(spec_step(s, msgs[0]), msgs.drop_first())
    }
}

/// What a finished exchange yields: the collected trees on the sentinel, the
/// failure on an error, and a transport failure if the exchange was cut off
/// while still running.
pub open spec fn spec_outcome(s: DumpModel) -> Result<Seq<Seq<AttrV>>, WifiError> {
    match s.status {
        DumpStatus::Finished => Ok(s.trees),
        DumpStatus::Failed(e) => Err(e),
        DumpStatus::Running => Err(WifiError::Transport),
    }
}

/// Outcome of a whole dump under a policy: the machine run from the fresh
/// state over all messages.
pub open spec fn spec_collect(policy: DumpPolicy, msgs: Seq<NlMessageV>) -> Result<
    Seq<Seq<AttrV>>,
    WifiError,
> {
    spec_outcome(spec_run(spec_init(policy), msgs))
}

impl DumpCollector {
    /// Start a fresh exchange under `policy`.
    pub fn new(policy: DumpPolicy) -> (r: DumpCollector)
        ensures
            r@ == spec_init(policy),
    {
        let r = DumpCollector { policy, status: DumpStatus::Running, trees: Vec::new() };
        proof {
            assert(r@.trees =~= Seq::<Seq<AttrV>>::empty());
        }
        r
    }

    /// The exchange still expects messages.
    pub fn is_running(&self) -> (r: bool)
        ensures
            r == (self@.status is Running),
    {
        match self.status {
            DumpStatus::Running => true,
            _ => false,
        }
    }

    /// Apply one classified message to the collector.
    pub fn step(&mut self, msg: NlMessage)
        ensures
            final(self)@ == spec_step(old(self)@, msg@),
    {
        match self.status {
            DumpStatus::Running => {},
            _ => {
                return ;
            },
        }
        match msg {
            NlMessage::Noop => {},
            NlMessage::Error => {
                self.status = DumpStatus::Failed(WifiError::Kernel);
            },
            NlMessage::Done => {
                self.status = DumpStatus::Finished;
            },
            NlMessage::Data(bytes) => {
                match crate::genl::parse_genl_payload(&bytes) {
                    Err(e) => {
                        self.status = DumpStatus::Failed(e);
                    },
                    Ok(tree) => {
                        let ghost pre = self.trees.deep_view();
                        match self.policy {
                            DumpPolicy::Append => {
                                self.trees.push(tree);
                                proof {
                                    assert(self.trees.deep_view() =~= pre.push(tree.deep_view()));
                                }
                            },
                            DumpPolicy::KeepLast => {
                                self.trees.clear();
                                self.trees.push(tree);
                                proof {
                                    assert(self.trees.deep_view() =~= seq![tree.deep_view()]);
                                }
                            },
                        }
                    },
                }
            },
        }
    }

    /// Apply a whole received batch to the collector, in arrival order.
    pub fn feed(&mut self, msgs: Vec<NlMessage>)
        ensures
            final(self)@ == spec_run(old(self)@, msgs.deep_view()),
    {
        let ghost all = msgs.deep_view();
        let mut msgs = msgs;
        while msgs.len() > 0
            invariant
                spec_run(old(self)@, all) == spec_run(self@, msgs.deep_view()),
            decreases msgs.len(),
        {
            let ghost before = msgs.deep_view();
            let msg = msgs.remove(0);
            proof {
                assert(msg.deep_view() == before[0]);
                assert(msgs.deep_view() =~= before.drop_first());
            }
            self.step(msg);
        }
        proof {
            assert(msgs.deep_view() =~= Seq::<NlMessageV>::empty());
        }
    }

    /// Yield the outcome of the exchange.
    pub fn into_result(self) -> (r: Result<Vec<Vec<Attr>>, WifiError>)
        ensures
            match r {
                Ok(trees) => spec_outcome(self@) == Ok::<Seq<Seq<AttrV>>, WifiError>(
                    trees.deep_view(),
                ),
                Err(e) => spec_outcome(self@) == Err::<Seq<Seq<AttrV>>, WifiError>(e),
            },
    {
        match self.status {
            DumpStatus::Finished => Ok(self.trees),
            DumpStatus::Failed(e) => Err(e),
            DumpStatus::Running => Err(WifiError::Transport),
        }
    }
}

/// Run a complete dump message sequence through the collector.
pub fn collect_trees(policy: DumpPolicy, msgs: Vec<NlMessage>) -> (r: Result<
    Vec<Vec<Attr>>,
    WifiError,
>)
    ensures
        match r {
            Ok(trees) => spec_collect(policy, msgs.deep_view()) == Ok::<
                Seq<Seq<AttrV>>,
                WifiError,
            >(trees.deep_view()),
            Err(e) => spec_collect(policy, msgs.deep_view()) == Err::<Seq<Seq<AttrV>>, WifiError>(
                e,
            ),
        },
{
    let mut c = DumpCollector::new(policy);
    c.feed(msgs);
    c.into_result()
}

/// Interface records of a list of decoded trees, in order; the first tree
/// that fails to decode fails the whole mapping.
pub open spec fn spec_map_interfaces(trees: Seq<Seq<AttrV>>) -> Result<Seq<InterfaceV>, WifiError>
    decreases trees.len(),
{
    if trees.len() == 0 {
        Ok(Seq::empty())
    } else if !interface_decode_ok(trees[0]) {
        Err(WifiError::Decode)
    } else {
        match spec_map_interfaces(trees.drop_first()) {
            Ok(rest) => Ok(seq![spec_interface(trees[0])] + rest),
            Err(e) => Err(e),
        }
    }
}

/// Outcome of an interface-enumeration dump: every data message decoded and
/// mapped, in arrival order.
pub open spec fn spec_interfaces_from_dump(msgs: Seq<NlMessageV>) -> Result<
    Seq<InterfaceV>,
    WifiError,
> {
    match spec_collect(DumpPolicy::Append, msgs) {
        Ok(trees) => spec_map_interfaces(trees),
        Err(e) => Err(e),
    }
}

/// Outcome of a station dump: the most recent record, or the all-absent
/// record when the dump finished without data — absence is not a fault.
pub open spec fn spec_station_from_dump(msgs: Seq<NlMessageV>) -> Result<StationV, WifiError> {
    match spec_collect(DumpPolicy::KeepLast, msgs) {
        Err(e) => Err(e),
        Ok(trees) => if trees.len() == 0 {
            Ok(station_absent(None))
        } else if station_decode_ok(trees.last()) {
            Ok(spec_station(trees.last()))
        } else {
            Err(WifiError::Decode)
        },
    }
}

/// Outcome of a scan dump: the most recent BSS record, or the all-absent
/// record when the dump finished without data.
pub open spec fn spec_bss_from_dump(msgs: Seq<NlMessageV>) -> Result<BssV, WifiError> {
    match spec_collect(DumpPolicy::KeepLast, msgs) {
        Err(e) => Err(e),
        Ok(trees) => if trees.len() == 0 {
            Ok(crate::bss::bss_absent())
        } else if bss_decode_ok(trees.last()) {
            Ok(spec_bss(trees.last()))
        } else {
            Err(WifiError::Decode)
        },
    }
}

/// Compute the interface list of a complete interface dump.
#[verifier::loop_isolation(false)]
pub fn interfaces_from_dump(msgs: Vec<NlMessage>) -> (r: Result<Vec<Interface>, WifiError>)
    ensures
        match r {
            Ok(list) => spec_interfaces_from_dump(msgs.deep_view()) == Ok::<
                Seq<InterfaceV>,
                WifiError,
            >(list.deep_view()),
            Err(e) => spec_interfaces_from_dump(msgs.deep_view()) == Err::<
                Seq<InterfaceV>,
                WifiError,
            >(e),
        },
{
    let ghost m0 = msgs.deep_view();
    let trees = match collect_trees(DumpPolicy::Append, msgs) {
        Ok(t) => t,
        Err(e) => {
            return Err(e);
        },
    };
    let ghost all = trees.deep_view();
    let mut out: Vec<Interface> = Vec::new();
    let mut k: usize = 0;
    proof {
        assert(all.skip(0) =~= all);
        assert(out.deep_view() =~= Seq::<InterfaceV>::empty());
    }
    while k < trees.len()
        invariant
            k <= trees.len(),
            all == trees.deep_view(),
            all.len() == trees.len(),
            spec_collect(DumpPolicy::Append, m0) == Ok::<Seq<Seq<AttrV>>, WifiError>(all),
            spec_map_interfaces(all) == (match spec_map_interfaces(all.skip(k as int)) {
                Ok(rest) => Ok::<Seq<InterfaceV>, WifiError>(out.deep_view() + rest),
                Err(e) => Err::<Seq<InterfaceV>, WifiError>(e),
            }),
        decreases trees.len() - k,
    {
        proof {
            assert(all.skip(k as int)[0] == all[k as int]);
            assert(trees[k as int].deep_view() == all[k as int]);
            assert(all.skip(k as int).drop_first() =~= all.skip(k as int + 1));
        }
        let rec = match Interface::from_attrs(&trees[k]) {
            Ok(x) => x,
            Err(e) => {
                proof {
                    assert(!interface_decode_ok(all.skip(k as int)[0]));
                    assert(spec_map_interfaces(all.skip(k as int)) == Err::<
                        Seq<InterfaceV>,
                        WifiError,
                    >(WifiError::Decode));
                }
                return Err(e);
            },
        };
        let ghost pre = out.deep_view();
        out.push(rec);
        proof {
            assert(out.deep_view() =~= pre.push(rec@));
            if spec_map_interfaces(all.skip(k as int + 1)) is Ok {
                let rest = spec_map_interfaces(all.skip(k as int + 1))->Ok_0;
                assert(pre + (seq![spec_interface(all[k as int])] + rest) =~= pre.push(rec@)
                    + rest);
            }
        }
        k = k + 1;
    }
    proof {
        assert(all.skip(trees.len() as int) =~= Seq::<Seq<AttrV>>::empty());
        assert(out.deep_view() + Seq::<InterfaceV>::empty() =~= out.deep_view());
    }
    Ok(out)
}

/// Compute the station record of a complete station dump.
pub fn station_from_dump(msgs: Vec<NlMessage>) -> (r: Result<Station, WifiError>)
    ensures
        match r {
            Ok(s) => spec_station_from_dump(msgs.deep_view()) == Ok::<StationV, WifiError>(s@),
            Err(e) => spec_station_from_dump(msgs.deep_view()) == Err::<StationV, WifiError>(e),
        },
{
    let trees = match collect_trees(DumpPolicy::KeepLast, msgs) {
        Ok(t) => t,
        Err(e) => {
            return Err(e);
        },
    };
    if trees.len() == 0 {
        proof {
            assert(trees.deep_view().len() == 0);
        }
        Ok(Station::default())
    } else {
        proof {
            assert(trees[trees.len() - 1].deep_view() == trees.deep_view().last());
        }
        Station::from_attrs(&trees[trees.len() - 1])
    }
}

/// Compute the BSS record of a complete scan dump.
pub fn bss_from_dump(msgs: Vec<NlMessage>) -> (r: Result<Bss, WifiError>)
    ensures
        match r {
            Ok(b) => spec_bss_from_dump(msgs.deep_view()) == Ok::<BssV, WifiError>(b@),
            Err(e) => spec_bss_from_dump(msgs.deep_view()) == Err::<BssV, WifiError>(e),
        },
{
    let trees = match collect_trees(DumpPolicy::KeepLast, msgs) {
        Ok(t) => t,
        Err(e) => {
            return Err(e);
        },
    };
    if trees.len() == 0 {
        proof {
            assert(trees.deep_view().len() == 0);
        }
        Ok(Bss::default())
    } else {
        proof {
            assert(trees[trees.len() - 1].deep_view() == trees.deep_view().last());
        }
        Bss::from_attrs(&trees[trees.len() - 1])
    }
}

} // verus!

use neli_wifi::attr::{Attr, ATTR_IFINDEX};
use neli_wifi::bss::Bss;
use neli_wifi::dump::{
    bss_from_dump, classify_message, collect_trees, interfaces_from_dump, station_from_dump,
    DumpCollector, DumpPolicy, DumpStatus, NlMessage, NLMSG_DONE, NLMSG_ERROR, NLMSG_NOOP,
};
use neli_wifi::interface::Interface;
use neli_wifi::station::Station;
use neli_wifi::tlv::encode_attrs;
use neli_wifi::WifiError;

/// A data message whose generic-netlink payload carries the given tree.
fn genl_data(attrs: &Vec<Attr>) -> NlMessage {
    let mut v = vec![0u8, 1, 0, 0];
    v.extend(encode_attrs(attrs));
    NlMessage::Data(v)
}

fn iface_tree(ix: u8) -> Vec<Attr> {
    vec![Attr { tag: ATTR_IFINDEX, nested: false, network_order: false, payload: vec![ix, 0, 0, 0] }]
}

fn iface_record(ix: u8) -> Interface {
    Interface { index: Some(vec![ix, 0, 0, 0]), ..Interface::default() }
}

#[test]
fn append_policy_yields_data_in_order_and_skips_noops() {
    let msgs = vec![
        NlMessage::Noop,
        genl_data(&iface_tree(1)),
        NlMessage::Noop,
        genl_data(&iface_tree(2)),
        NlMessage::Done,
    ];
    let got = interfaces_from_dump(msgs).unwrap();
    assert_eq!(got, vec![iface_record(1), iface_record(2)]);
}

#[test]
fn keep_last_policy_yields_the_most_recent_record() {
    let msgs = vec![
        NlMessage::Noop,
        genl_data(&iface_tree(1)),
        NlMessage::Noop,
        genl_data(&iface_tree(2)),
        NlMessage::Done,
    ];
    let got = collect_trees(DumpPolicy::KeepLast, msgs).unwrap();
    assert_eq!(got, vec![iface_tree(2)]);
}

#[test]
fn empty_dump_under_append_yields_the_empty_list() {
    let got = interfaces_from_dump(vec![NlMessage::Done]).unwrap();
    assert_eq!(got, Vec::<Interface>::new());
}

#[test]
fn empty_dump_under_keep_last_yields_the_default_record() {
    assert_eq!(station_from_dump(vec![NlMessage::Done]), Ok(Station::default()));
    assert_eq!(bss_from_dump(vec![NlMessage::Done]), Ok(Bss::default()));
}

#[test]
fn a_kernel_error_is_fatal_and_discards_collected_data() {
    let msgs = vec![genl_data(&iface_tree(1)), NlMessage::Error];
    assert_eq!(interfaces_from_dump(msgs), Err(WifiError::Kernel));
    let msgs = vec![genl_data(&iface_tree(1)), NlMessage::Error, NlMessage::Done];
    assert_eq!(collect_trees(DumpPolicy::Append, msgs), Err(WifiError::Kernel));
}

#[test]
fn a_dump_cut_off_while_running_is_a_transport_failure() {
    let msgs = vec![genl_data(&iface_tree(1))];
    assert_eq!(interfaces_from_dump(msgs), Err(WifiError::Transport));
}

#[test]
fn a_malformed_data_message_is_a_decode_failure() {
    // too short for the generic-netlink header
    assert_eq!(
        interfaces_from_dump(vec![NlMessage::Data(vec![1, 2]), NlMessage::Done]),
        Err(WifiError::Decode)
    );
    // attribute length smaller than its own header
    assert_eq!(
        interfaces_from_dump(vec![NlMessage::Data(vec![0, 1, 0, 0, 3, 0, 1, 0]), NlMessage::Done]),
        Err(WifiError::Decode)
    );
}

#[test]
fn classification_follows_the_header_type() {
    assert_eq!(classify_message(NLMSG_NOOP, vec![1]), NlMessage::Noop);
    assert_eq!(classify_message(NLMSG_ERROR, vec![1]), NlMessage::Error);
    assert_eq!(classify_message(NLMSG_DONE, vec![1]), NlMessage::Done);
    assert_eq!(classify_message(0x1c, vec![1, 2, 3]), NlMessage::Data(vec![1, 2, 3]));
}

#[test]
fn the_collector_ignores_messages_after_termination() {
    let mut c = DumpCollector::new(DumpPolicy::Append);
    assert!(c.is_running());
    c.step(NlMessage::Done);
    assert!(!c.is_running());
    assert_eq!(c.status, DumpStatus::Finished);
    c.step(genl_data(&iface_tree(1)));
    assert_eq!(c.into_result(), Ok(vec![]));
}

#[test]
fn the_collector_ignores_messages_after_failure() {
    let mut c = DumpCollector::new(DumpPolicy::Append);
    c.step(NlMessage::Error);
    c.step(NlMessage::Done);
    assert_eq!(c.into_result(), Err(WifiError::Kernel));
}

use neli_wifi::attr::{
    Attr, ATTR_BSS, ATTR_IFINDEX, ATTR_MAC, ATTR_STA_INFO, BSS_BEACON_INTERVAL, BSS_BSSID,
    BSS_FREQUENCY, BSS_SEEN_MS_AGO, BSS_SIGNAL_MBM, BSS_STATUS, CMD_GET_INTERFACE, CMD_GET_SCAN,
    CMD_GET_STATION, STA_INFO_RX_BYTES, STA_INFO_RX_BYTES64, STA_INFO_SIGNAL,
    STA_INFO_TX_BYTES, STA_INFO_TX_BYTES64,
};
use neli_wifi::bss::Bss;
use neli_wifi::genl::{
    build_get_bss_request, build_get_interfaces_request, build_get_station_request,
    encode_genl_payload, parse_genl_payload,
};
use neli_wifi::station::Station;
use neli_wifi::tlv::encode_attrs;
use neli_wifi::WifiError;
use neli_wifi::NL_80211_GENL_VERSION;

fn plain(tag: u16, payload: Vec<u8>) -> Attr {
    Attr { tag, nested: false, network_order: false, payload }
}

/// A top-level tree holding one station-info sub-tree.
fn sta_top(sub: &Vec<Attr>) -> Vec<Attr> {
    vec![plain(ATTR_STA_INFO, encode_attrs(sub))]
}

#[test]
fn counter_prefers_the_64_bit_form_when_both_are_present() {
    let sub = vec![
        plain(STA_INFO_RX_BYTES, 7u32.to_le_bytes().to_vec()),
        plain(STA_INFO_RX_BYTES64, 1000u64.to_le_bytes().to_vec()),
        plain(STA_INFO_TX_BYTES64, 2000u64.to_le_bytes().to_vec()),
        plain(STA_INFO_TX_BYTES, 9u32.to_le_bytes().to_vec()),
    ];
    let s = Station::from_attrs(&sta_top(&sub)).unwrap();
    assert_eq!(s.rx_bytes, Some(1000));
    assert_eq!(s.tx_bytes, Some(2000));
}

#[test]
fn counter_uses_the_64_bit_form_alone() {
    let sub = vec![plain(STA_INFO_RX_BYTES64, 1000u64.to_le_bytes().to_vec())];
    let s = Station::from_attrs(&sta_top(&sub)).unwrap();
    assert_eq!(s.rx_bytes, Some(1000));
}

#[test]
fn counter_falls_back_to_the_zero_extended_32_bit_form() {
    let sub = vec![plain(STA_INFO_RX_BYTES, 0xfffffff0u32.to_le_bytes().to_vec())];
    let s = Station::from_attrs(&sta_top(&sub)).unwrap();
    assert_eq!(s.rx_bytes, Some(0xfffffff0u64));
}

#[test]
fn counter_is_absent_when_neither_form_is_present() {
    let sub = vec![plain(STA_INFO_SIGNAL, vec![218])];
    let s = Station::from_attrs(&sta_top(&sub)).unwrap();
    assert_eq!(s.rx_bytes, None);
    assert_eq!(s.tx_bytes, None);
}

#[test]
fn signal_byte_218_reads_as_minus_38() {
    let sub = vec![plain(STA_INFO_SIGNAL, vec![218])];
    let s = Station::from_attrs(&sta_top(&sub)).unwrap();
    assert_eq!(s.signal, Some(-38));
}

#[test]
fn interface_index_is_preserved_verbatim_as_a_blob() {
    let tree = vec![plain(ATTR_IFINDEX, vec![3, 0, 0, 0])];
    let i = neli_wifi::interface::Interface::from_attrs(&tree).unwrap();
    assert_eq!(i.index, Some(vec![3, 0, 0, 0]));
}

#[test]
fn a_recognized_scalar_of_the_wrong_width_fails_the_mapping() {
    let sub = vec![plain(STA_INFO_SIGNAL, vec![218, 0])];
    assert_eq!(Station::from_attrs(&sta_top(&sub)), Err(WifiError::Decode));
    let sub = vec![plain(STA_INFO_RX_BYTES64, vec![1, 2, 3, 4])];
    assert_eq!(Station::from_attrs(&sta_top(&sub)), Err(WifiError::Decode));
}

#[test]
fn a_station_tree_without_station_info_keeps_only_the_mac() {
    let tree = vec![plain(ATTR_MAC, vec![1, 2, 3, 4, 5, 6])];
    let s = Station::from_attrs(&tree).unwrap();
    assert_eq!(s, Station { bssid: Some(vec![1, 2, 3, 4, 5, 6]), ..Station::default() });
}

#[test]
fn bss_fields_come_from_the_nested_sub_tree() {
    let sub = vec![
        plain(BSS_BSSID, vec![1, 2, 3, 4, 5, 6]),
        plain(BSS_FREQUENCY, 2437u32.to_le_bytes().to_vec()),
        plain(BSS_BEACON_INTERVAL, 100u16.to_le_bytes().to_vec()),
        plain(BSS_SEEN_MS_AGO, 40u32.to_le_bytes().to_vec()),
        plain(BSS_STATUS, 1u32.to_le_bytes().to_vec()),
        plain(BSS_SIGNAL_MBM, 0xffffee4cu32.to_le_bytes().to_vec()),
    ];
    let tree = vec![plain(ATTR_BSS, encode_attrs(&sub))];
    let b = Bss::from_attrs(&tree).unwrap();
    let expected = Bss {
        bssid: Some(vec![1, 2, 3, 4, 5, 6]),
        frequency: Some(2437),
        beacon_interval: Some(100),
        seen_ms_ago: Some(40),
        status: Some(1),
        signal: Some(0xffffee4c),
    };
    assert_eq!(b, expected);
}

#[test]
fn a_bss_tree_without_the_bss_attribute_is_all_absent() {
    let tree = vec![plain(ATTR_MAC, vec![1, 2, 3, 4, 5, 6])];
    assert_eq!(Bss::from_attrs(&tree), Ok(Bss::default()));
}

#[test]
fn request_builders_set_command_version_flags_and_filter() {
    let r = build_get_interfaces_request();
    assert_eq!(r.cmd, CMD_GET_INTERFACE);
    assert_eq!(r.version, NL_80211_GENL_VERSION);
    assert_eq!(r.flags, 0x301);
    assert!(r.attrs.is_empty());

    let r = build_get_station_request(&vec![3, 0, 0, 0]);
    assert_eq!(r.cmd, CMD_GET_STATION);
    assert_eq!(r.flags, 0x301);
    assert_eq!(r.attrs.len(), 1);
    assert_eq!(r.attrs[0].tag, ATTR_IFINDEX);
    assert!(!r.attrs[0].nested);
    assert!(!r.attrs[0].network_order);
    assert_eq!(r.attrs[0].payload, vec![3, 0, 0, 0]);

    let r = build_get_bss_request(&vec![3, 0, 0, 0]);
    assert_eq!(r.cmd, CMD_GET_SCAN);
}

#[test]
fn the_genl_payload_framing_is_bit_exact() {
    let r = build_get_station_request(&vec![3, 0, 0, 0]);
    let bytes = encode_genl_payload(&r);
    assert_eq!(bytes, vec![17, 1, 0, 0, 8, 0, 3, 0, 3, 0, 0, 0]);
}

#[test]
fn response_payload_parsing_skips_the_genl_header() {
    let bytes = vec![0, 1, 0, 0, 8, 0, 3, 0, 3, 0, 0, 0];
    let ats = parse_genl_payload(&bytes).unwrap();
    assert_eq!(ats, vec![plain(ATTR_IFINDEX, vec![3, 0, 0, 0])]);
    assert_eq!(parse_genl_payload(&vec![0, 1]), Err(WifiError::Decode));
}

use neli_wifi::attr::{get_attribute, read_i8, read_u16, read_u32, read_u64, Attr};
use neli_wifi::tlv::{encode_attrs, parse_attrs};
use neli_wifi::WifiError;

#[test]
fn scalar_readers_return_exact_little_endian_values() {
    assert_eq!(read_u16(&vec![0x34, 0x12]), Ok(0x1234u16));
    assert_eq!(read_u32(&vec![0x78, 0x56, 0x34, 0x12]), Ok(0x12345678u32));
    assert_eq!(
        read_u64(&vec![0xf0, 0xde, 0xbc, 0x9a, 0x78, 0x56, 0x34, 0x12]),
        Ok(0x123456789abcdef0u64)
    );
    assert_eq!(read_i8(&vec![218]), Ok(-38i8));
    assert_eq!(read_i8(&vec![127]), Ok(127i8));
}

#[test]
fn scalar_readers_reject_the_wrong_width() {
    assert_eq!(read_u16(&vec![1]), Err(WifiError::Decode));
    assert_eq!(read_u32(&vec![1, 2, 3]), Err(WifiError::Decode));
    assert_eq!(read_u32(&vec![1, 2, 3, 4, 5]), Err(WifiError::Decode));
    assert_eq!(read_u64(&vec![1, 2, 3, 4]), Err(WifiError::Decode));
    assert_eq!(read_i8(&vec![]), Err(WifiError::Decode));
}

#[test]
fn parse_then_encode_reproduces_canonical_bytes() {
    let bytes = vec![
        8, 0, 3, 0, 3, 0, 0, 0, // 4-byte payload, no padding
        5, 0, 7, 0, 218, 0, 0, 0, // 1-byte payload, 3 bytes of padding
        10, 0, 52, 0, 1, 2, 3, 4, 5, 6, 0, 0, // 6-byte payload, 2 bytes of padding
    ];
    let ats = parse_attrs(&bytes).unwrap();
    assert_eq!(ats.len(), 3);
    assert_eq!(encode_attrs(&ats), bytes);
}

#[test]
fn encode_then_parse_reproduces_the_tree() {
    let tree = vec![
        Attr { tag: 3, nested: false, network_order: true, payload: vec![1, 2, 3] },
        Attr { tag: 0x3fff, nested: true, network_order: false, payload: vec![] },
        Attr { tag: 21, nested: true, network_order: true, payload: vec![9; 7] },
    ];
    let bytes = encode_attrs(&tree);
    assert_eq!(parse_attrs(&bytes).unwrap(), tree);
}

#[test]
fn parse_decodes_type_field_markers() {
    // type field 0xc015: nested and network-order bits over tag 0x15
    let bytes = vec![4, 0, 0x15, 0xc0];
    let ats = parse_attrs(&bytes).unwrap();
    assert_eq!(ats.len(), 1);
    assert_eq!(ats[0].tag, 0x15);
    assert!(ats[0].nested);
    assert!(ats[0].network_order);
    assert!(ats[0].payload.is_empty());
}

#[test]
fn parse_accepts_a_truncated_final_padding() {
    let bytes = vec![5, 0, 7, 0, 218];
    let ats = parse_attrs(&bytes).unwrap();
    assert_eq!(ats.len(), 1);
    assert_eq!(ats[0].payload, vec![218]);
}

#[test]
fn parse_rejects_malformed_headers() {
    // shorter than one header
    assert_eq!(parse_attrs(&vec![1, 2, 3]), Err(WifiError::Decode));
    // declared length runs past the available bytes
    assert_eq!(parse_attrs(&vec![9, 0, 1, 0, 0, 0, 0, 0]), Err(WifiError::Decode));
    // declared length smaller than the header itself
    assert_eq!(parse_attrs(&vec![3, 0, 1, 0]), Err(WifiError::Decode));
}

#[test]
fn parse_of_the_empty_span_is_the_empty_tree() {
    assert_eq!(parse_attrs(&vec![]), Ok(vec![]));
    assert_eq!(encode_attrs(&vec![]), Vec::<u8>::new());
}

#[test]
fn lookup_returns_the_first_match() {
    let tree = vec![
        Attr { tag: 7, nested: false, network_order: false, payload: vec![1] },
        Attr { tag: 9, nested: false, network_order: false, payload: vec![2] },
        Attr { tag: 7, nested: false, network_order: false, payload: vec![3] },
    ];
    let a = get_attribute(&tree, 7).unwrap();
    assert_eq!(a.payload, vec![1]);
    assert!(get_attribute(&tree, 8).is_none());
}

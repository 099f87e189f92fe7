use packeter::SockError;
use packeter::if_req::IfReq;
use packeter::ll_addr::SockAddrLl;

#[test]
fn name_round_trips_zero_padded() {
    let req = IfReq::with_if_name("eth0").expect("short name must build");
    let mut expected: Vec<u8> = b"eth0".to_vec();
    expected.resize(16, 0u8);
    assert_eq!(req.ifr_name, expected);
    assert_eq!(req.union_data.data, vec![0u8; 24]);
}

#[test]
fn fifteen_byte_name_still_fits() {
    let name = "abcdefghijklmno";
    assert_eq!(name.len(), 15);
    let req = IfReq::with_if_name(name).expect("fifteen bytes leave room for the terminator");
    assert_eq!(&req.ifr_name[..15], name.as_bytes());
    assert_eq!(req.ifr_name[15], 0u8);
}

#[test]
fn sixteen_byte_name_is_too_long() {
    let name = "abcdefghijklmnop";
    assert_eq!(name.len(), 16);
    assert_eq!(IfReq::with_if_name(name), Err(SockError::NameTooLong));
}

#[test]
fn twenty_byte_name_is_too_long() {
    let name = "abcdefghijklmnopqrst";
    assert_eq!(name.len(), 20);
    assert_eq!(IfReq::with_if_name(name), Err(SockError::NameTooLong));
}

#[test]
fn default_request_is_all_zero() {
    let req = IfReq::default();
    assert_eq!(req.ifr_name, vec![0u8; 16]);
    assert_eq!(req.union_data.data, vec![0u8; 24]);
}

#[test]
fn index_decodes_big_endian() {
    let mut req = IfReq::with_if_name("eth0").expect("short name must build");
    let mut union_bytes = vec![0u8; 24];
    union_bytes[0] = 0x12;
    union_bytes[1] = 0x34;
    union_bytes[2] = 0x56;
    union_bytes[3] = 0x78;
    req.fill_union(&union_bytes);
    assert_eq!(req.ifr_ifindex(), 0x12345678);
    assert_eq!(req.ifr_media(), 0x12345678);
}

#[test]
fn index_of_small_value_decodes() {
    let mut req = IfReq::with_if_name("lo").expect("short name must build");
    let mut union_bytes = vec![0u8; 24];
    union_bytes[3] = 5;
    req.fill_union(&union_bytes);
    assert_eq!(req.ifr_ifindex(), 5);
}

#[test]
fn index_decodes_negative_values() {
    let mut req = IfReq::with_if_name("eth0").expect("short name must build");
    let mut union_bytes = vec![0xFFu8; 24];
    union_bytes[3] = 0xFE;
    req.fill_union(&union_bytes);
    assert_eq!(req.ifr_ifindex(), -2);
}

#[test]
fn flags_decode_big_endian() {
    let mut req = IfReq::with_if_name("eth0").expect("short name must build");
    let mut union_bytes = vec![0u8; 24];
    union_bytes[0] = 0x10;
    union_bytes[1] = 0x43;
    req.fill_union(&union_bytes);
    assert_eq!(req.ifr_flags(), 0x1043);
    union_bytes[0] = 0x80;
    union_bytes[1] = 0x01;
    req.fill_union(&union_bytes);
    assert_eq!(req.ifr_flags(), -32767);
}

#[test]
fn hardware_address_decodes() {
    let mut req = IfReq::with_if_name("eth0").expect("short name must build");
    let mut union_bytes = vec![0u8; 24];
    union_bytes[0] = 0x00;
    union_bytes[1] = 0x01;
    union_bytes[2] = 0xDE;
    union_bytes[3] = 0xAD;
    union_bytes[4] = 0x01;
    req.fill_union(&union_bytes);
    let addr = req.ifr_hwaddr();
    assert_eq!(addr.sa_family, 1);
    assert_eq!(addr.sa_data.len(), 14);
    assert_eq!(addr.sa_data[0], -34i8);
    assert_eq!(addr.sa_data[1], -83i8);
    assert_eq!(addr.sa_data[2], 1i8);
    assert_eq!(addr.sa_data[3], 0i8);
    let broad = req.ifr_broadaddr();
    assert_eq!(broad.sa_family, addr.sa_family);
    assert_eq!(broad.sa_data, addr.sa_data);
}

#[test]
fn link_layer_address_stores_protocol_network_order() {
    let addr = SockAddrLl::build(7, 0x0800);
    assert_eq!(addr.sll_family, 17);
    assert_eq!(addr.sll_protocol, vec![0x08u8, 0x00u8]);
    assert_eq!(addr.sll_ifindex, 7);
    assert_eq!(addr.sll_hatype, 0);
    assert_eq!(addr.sll_pkttype, 0);
    assert_eq!(addr.sll_halen, 0);
    assert_eq!(addr.sll_addr, vec![0u8; 8]);
}

#[test]
fn link_layer_address_keeps_index_host_order() {
    let addr = SockAddrLl::build(-3, 0x0003);
    assert_eq!(addr.sll_ifindex, -3);
    assert_eq!(addr.sll_protocol, vec![0x00u8, 0x03u8]);
}

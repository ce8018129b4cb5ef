use cloudcafe::net::{address_from_echo, echo_address_payload, ipv4, socket_v4, AddressError, SocketAddress};
use cloudcafe::ports::{
    prefixed_port, ServerEndpoints, AVATAR_PACKET_PORT, CLIENT_INFO_PORT, SEND_BACK_PORT, SERVER_STATUS_PORT,
    VOICE_COMM_PORT,
};

#[test]
fn ipv4_octets_are_big_endian() {
    assert_eq!(ipv4(127, 0, 0, 1), 0x7f00_0001);
    assert_eq!(ipv4(74, 207, 246, 102), 0x4acf_f666);
}

#[test]
fn echo_payload_of_v4_matches_bincode_layout() {
    let addr = socket_v4(127, 0, 0, 1, 4083);
    let payload = echo_address_payload(addr);
    assert_eq!(payload, vec![0, 0, 0, 0, 127, 0, 0, 1, 0xf3, 0x0f]);
}

#[test]
fn echo_payload_of_v6_matches_bincode_layout() {
    // [2001:db8::7]:6200
    let addr = SocketAddress::V6 { ip: 0x2001_0db8_0000_0000_0000_0000_0000_0007, port: 6200, flowinfo: 9, scope_id: 3 };
    let payload = echo_address_payload(addr);
    assert_eq!(
        payload,
        vec![1, 0, 0, 0, 0x20, 0x01, 0x0d, 0xb8, 0, 0, 0, 0, 0, 0, 0, 0, 0, 0, 0, 0x07, 0x38, 0x18]
    );
}

#[test]
fn echo_roundtrip_v4() {
    let addr = socket_v4(10, 1, 2, 3, 65535);
    assert_eq!(address_from_echo(&echo_address_payload(addr)), Ok(addr));
}

#[test]
fn echo_roundtrip_v6_drops_flowinfo_and_scope() {
    let addr = SocketAddress::V6 { ip: 0x2001_0db8_0000_0000_0000_0000_0000_0001, port: 80, flowinfo: 5, scope_id: 6 };
    let back = address_from_echo(&echo_address_payload(addr));
    assert_eq!(
        back,
        Ok(SocketAddress::V6 { ip: 0x2001_0db8_0000_0000_0000_0000_0000_0001, port: 80, flowinfo: 0, scope_id: 0 })
    );
}

#[test]
fn echo_with_trailing_bytes_is_accepted() {
    let mut payload = echo_address_payload(socket_v4(1, 2, 3, 4, 5));
    payload.push(99);
    assert_eq!(address_from_echo(&payload), Ok(socket_v4(1, 2, 3, 4, 5)));
}

#[test]
fn malformed_echo_is_rejected() {
    assert_eq!(address_from_echo(&[]), Err(AddressError::Malformed));
    assert_eq!(address_from_echo(&[0, 0, 0, 0, 1, 2, 3]), Err(AddressError::Malformed));
    assert_eq!(address_from_echo(&[2, 0, 0, 0, 1, 2, 3, 4, 5, 6]), Err(AddressError::Malformed));
    // variant 1 needs twenty-two bytes
    assert_eq!(address_from_echo(&[1, 0, 0, 0, 1, 2, 3, 4, 5, 6]), Err(AddressError::Malformed));
}

#[test]
fn server_endpoints_use_the_well_known_ports() {
    let ip = ipv4(127, 0, 0, 1);
    let e = ServerEndpoints::new(ip);
    assert_eq!(e.status, SocketAddress::V4 { ip, port: SERVER_STATUS_PORT });
    assert_eq!(e.info, SocketAddress::V4 { ip, port: CLIENT_INFO_PORT });
    assert_eq!(e.avatar, SocketAddress::V4 { ip, port: AVATAR_PACKET_PORT });
    assert_eq!(e.audio, SocketAddress::V4 { ip, port: VOICE_COMM_PORT });
    assert_eq!(e.send_back, SocketAddress::V4 { ip, port: SEND_BACK_PORT });
    assert_eq!(SERVER_STATUS_PORT, 4800);
    assert_eq!(AVATAR_PACKET_PORT, 4801);
    assert_eq!(VOICE_COMM_PORT, 4082);
    assert_eq!(CLIENT_INFO_PORT, 4083);
}

#[test]
fn prefixed_port_concatenates_digits() {
    assert_eq!(prefixed_port(6, 0), 60);
    assert_eq!(prefixed_port(6, 7), 67);
    assert_eq!(prefixed_port(6, 42), 642);
    assert_eq!(prefixed_port(7, 255), 7255);
    assert_eq!(prefixed_port(6, 100), 6100);
    for r in 0..=255u8 {
        assert_eq!(prefixed_port(6, r).to_string(), format!("6{}", r));
    }
}

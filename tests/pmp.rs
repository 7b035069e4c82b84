use fport::dotted::dotted_quad_string;
use fport::pmp::{ADDRESS_RESPONSE_LEN, MAPPING_RESPONSE_LEN, PORT, RECEIVE_BUFFER_LEN, TIMEOUT};
use fport::{
    address_reply, address_request, gen_mapping_request, get_result, mapping_reply,
    AddressResponse, MappingResponse, MappingType, PMPResultCode, PmpError,
};

fn mapping_with_code(code: u16) -> MappingResponse {
    let mut data = [0u8, 130, 0, 0, 0, 0, 0, 1, 0x1F, 0x90, 0x1F, 0x90, 0, 0, 0x0E, 0x10];
    data[2] = (code >> 8) as u8;
    data[3] = (code & 0xff) as u8;
    MappingResponse::new(&data).unwrap()
}

#[test]
fn address_scenario_decodes_public_ip() {
    let data = [0u8, 128, 0, 0, 0, 0, 0, 0, 203, 0, 113, 5];
    let r = AddressResponse::new(&data).unwrap();
    assert_eq!(r.result_code, 0);
    assert_eq!(r.ip_address, "203.0.113.5");
    assert_eq!(get_result(&r), Ok("Success"));
}

#[test]
fn address_fields_are_big_endian() {
    let data = [0u8, 128, 0x01, 0x02, 0x00, 0x01, 0x51, 0x80, 192, 168, 1, 254];
    let r = AddressResponse::new(&data).unwrap();
    assert_eq!(r.version, 0);
    assert_eq!(r.op_code, 128);
    assert_eq!(r.result_code, 0x0102);
    assert_eq!(r.time_since_init, 86400);
    assert_eq!(r.ip_address, "192.168.1.254");
    assert_eq!(r.get_result_code(), 0x0102);
}

#[test]
fn address_octets_read_back() {
    for octets in [[0u8, 0, 0, 0], [255, 255, 255, 255], [10, 99, 100, 9], [1, 20, 200, 7]] {
        let mut data = [0u8, 128, 0, 0, 0, 0, 0, 0, 0, 0, 0, 0];
        data[8..12].copy_from_slice(&octets);
        let r = AddressResponse::new(&data).unwrap();
        let back: Vec<u8> = r.ip_address.split('.').map(|p| p.parse().unwrap()).collect();
        assert_eq!(back, octets.to_vec());
    }
}

#[test]
fn dotted_quad_text() {
    assert_eq!(dotted_quad_string(0, 9, 10, 255), "0.9.10.255");
    assert_eq!(dotted_quad_string(100, 99, 1, 200), "100.99.1.200");
}

#[test]
fn address_wrong_length() {
    assert_eq!(AddressResponse::new(&[]).unwrap_err(), PmpError::InvalidLength);
    assert_eq!(AddressResponse::new(&[0u8, 128, 0, 0, 0, 0, 0, 0, 1, 2, 3]).unwrap_err(), PmpError::InvalidLength);
    assert_eq!(AddressResponse::new(&[0u8; 16]).unwrap_err(), PmpError::InvalidLength);
    assert_eq!(AddressResponse::new(&[7u8; 13]).unwrap_err(), PmpError::InvalidLength);
}

#[test]
fn address_wrong_version() {
    let data = [1u8, 128, 0, 0, 0, 0, 0, 0, 203, 0, 113, 5];
    assert_eq!(AddressResponse::new(&data).unwrap_err(), PmpError::UnsupportedVersion);
}

#[test]
fn address_wrong_op_code() {
    let data = [0u8, 129, 0, 0, 0, 0, 0, 0, 203, 0, 113, 5];
    assert_eq!(AddressResponse::new(&data).unwrap_err(), PmpError::InvalidOpCode);
    let data = [0u8, 0, 0, 0, 0, 0, 0, 0, 203, 0, 113, 5];
    assert_eq!(AddressResponse::new(&data).unwrap_err(), PmpError::InvalidOpCode);
}

#[test]
fn mapping_decodes_fields() {
    let data = [0u8, 130, 0, 0, 0, 0, 0x0E, 0x10, 0x1F, 0x90, 0x22, 0xB8, 0, 1, 0x51, 0x80];
    let m = MappingResponse::new(&data).unwrap();
    assert_eq!(m.version, 0);
    assert_eq!(m.op_code, 130);
    assert_eq!(m.result_code, 0);
    assert_eq!(m.time_since_init, 3600);
    assert_eq!(m.private_port, 8080);
    assert_eq!(m.public_port, 8888);
    assert_eq!(m.lifetime, 86400);
    assert_eq!(m.mapping_type, MappingType::Tcp);
}

#[test]
fn mapping_protocol_follows_op_code() {
    let mut data = [0u8; 16];
    data[1] = 129;
    assert_eq!(MappingResponse::new(&data).unwrap().mapping_type, MappingType::Udp);
    data[1] = 130;
    assert_eq!(MappingResponse::new(&data).unwrap().mapping_type, MappingType::Tcp);
    data[1] = 1;
    assert_eq!(MappingResponse::new(&data).unwrap_err(), PmpError::InvalidOpCode);
    data[1] = 2;
    assert_eq!(MappingResponse::new(&data).unwrap_err(), PmpError::InvalidOpCode);
    data[1] = 128;
    assert_eq!(MappingResponse::new(&data).unwrap_err(), PmpError::InvalidOpCode);
}

#[test]
fn mapping_wrong_length() {
    assert_eq!(MappingResponse::new(&[]).unwrap_err(), PmpError::InvalidLength);
    assert_eq!(MappingResponse::new(&[0u8, 130, 0, 0, 0, 0, 0, 0, 0, 0, 0, 0]).unwrap_err(), PmpError::InvalidLength);
    assert_eq!(MappingResponse::new(&[0u8; 17]).unwrap_err(), PmpError::InvalidLength);
}

#[test]
fn mapping_wrong_version() {
    let mut data = [0u8; 16];
    data[0] = 2;
    data[1] = 129;
    assert_eq!(MappingResponse::new(&data).unwrap_err(), PmpError::UnsupportedVersion);
}

#[test]
fn tcp_mapping_request_bytes() {
    let r = gen_mapping_request(MappingType::Tcp, 8080, 8080, 3600);
    assert_eq!(r, [0, 2, 0, 0, 0x1F, 0x90, 0x1F, 0x90, 0, 0, 0x0E, 0x10]);
}

#[test]
fn udp_mapping_request_bytes() {
    let r = gen_mapping_request(MappingType::Udp, 443, 8443, 86400);
    assert_eq!(r, [0, 1, 0, 0, 0x20, 0xFB, 0x01, 0xBB, 0, 0x01, 0x51, 0x80]);
    let r = gen_mapping_request(MappingType::Udp, 65535, 0, u32::MAX);
    assert_eq!(r, [0, 1, 0, 0, 0, 0, 0xFF, 0xFF, 0xFF, 0xFF, 0xFF, 0xFF]);
}

#[test]
fn address_request_bytes() {
    assert_eq!(address_request(), [0, 0]);
}

#[test]
fn result_codes_have_fixed_texts() {
    assert_eq!(get_result(&mapping_with_code(0)), Ok("Success"));
    assert_eq!(get_result(&mapping_with_code(1)), Err("Unsupported version"));
    assert_eq!(get_result(&mapping_with_code(2)), Err("Not authorized / Refused"));
    assert_eq!(get_result(&mapping_with_code(3)), Err("Network failure"));
    assert_eq!(get_result(&mapping_with_code(4)), Err("Out of resources"));
    assert_eq!(get_result(&mapping_with_code(5)), Err("Unsupported operation code"));
    assert_eq!(get_result(&mapping_with_code(6)), Err("Unknown"));
    assert_eq!(get_result(&mapping_with_code(256)), Err("Unknown"));
    assert_eq!(get_result(&mapping_with_code(u16::MAX)), Err("Unknown"));
}

#[test]
fn refused_mapping_decodes_but_fails() {
    let data = [0u8, 130, 0, 2, 0, 0, 0, 9, 0x1F, 0x90, 0x1F, 0x90, 0, 0, 0, 0];
    let m = mapping_reply(Some(&data)).unwrap();
    assert_eq!(m.result_code, 2);
    assert_eq!(get_result(&m), Err("Not authorized / Refused"));
}

#[test]
fn no_reply_is_network_error() {
    assert_eq!(address_reply(None).unwrap_err(), PmpError::NetworkError);
    assert_eq!(mapping_reply(None).unwrap_err(), PmpError::NetworkError);
    assert_eq!(PmpError::NetworkError.message(), "Networking error.");
}

#[test]
fn reply_decodes_received_bytes() {
    let data = [0u8, 128, 0, 3, 0, 0, 0, 0, 8, 8, 4, 4];
    let r = address_reply(Some(&data)).unwrap();
    assert_eq!(r.ip_address, "8.8.4.4");
    assert_eq!(get_result(&r), Err("Network failure"));
    assert_eq!(address_reply(Some(&data[..11])).unwrap_err(), PmpError::InvalidLength);
}

#[test]
fn error_messages() {
    assert_eq!(PmpError::InvalidLength.message(), "Invalid response length.");
    assert_eq!(PmpError::UnsupportedVersion.message(), "Unsupported protocol version.");
    assert_eq!(PmpError::InvalidOpCode.message(), "Invalid operation code received.");
}

#[test]
fn transport_constants() {
    assert_eq!(PORT, 5351);
    assert_eq!(TIMEOUT, 200);
    assert_eq!(RECEIVE_BUFFER_LEN, 16);
    assert_eq!(ADDRESS_RESPONSE_LEN, 12);
    assert_eq!(MAPPING_RESPONSE_LEN, 16);
}

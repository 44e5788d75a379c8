use ads::address::{AmsAddress, AmsNetId};
use ads::error::AdsError;
use ads::header::{AmsHeader, AmsTcpHeader};
use ads::request::{ReadRequest, Request};
use ads::types::{AdsCommandId, StateFlags};

#[test]
fn ams_header_write_to_test() {
    let mut buffer: Vec<u8> = Vec::new();

    let port = 30000;

    let ams_header = AmsHeader::new(
        AmsAddress::new(AmsNetId::parse("192.168.1.1.1.1").unwrap(), port),
        AmsAddress::new(AmsNetId::new(192, 168, 1, 1, 1, 2), port),
        StateFlags::resp_default(),
        111,
        Request::Read(ReadRequest::new(259, 259, 4)),
    );

    ams_header.write_to(&mut buffer);

    let compare: Vec<u8> = vec![
        192, 168, 1, 1, 1, 1, 48, 117, //target
        192, 168, 1, 1, 1, 2, 48, 117, //source
        2, 0, //command id: read
        5, 0, //state flags
        12, 0, 0, 0, //payload length
        0, 0, 0, 0, //error code
        111, 0, 0, 0, //invoke id
        3, 1, 0, 0, 3, 1, 0, 0, 4, 0, 0, 0, //read request
    ];
    assert_eq!(compare, buffer);
}

#[test]
fn ams_header_read_from_test() {
    let data: Vec<u8> = vec![
        192, 168, 1, 1, 1, 1, 48, 117, //
        192, 168, 1, 1, 1, 2, 48, 117, //
        2, 0, //
        4, 0, //
        12, 0, 0, 0, //
        0, 0, 0, 0, //
        111, 0, 0, 0, //
        3, 1, 0, 0, 3, 1, 0, 0, 4, 0, 0, 0,
    ];

    let ams_header = AmsHeader::read_from(data.as_slice()).unwrap();
    assert_eq!(
        ams_header.ams_address_targed.ams_net_id.net_id(),
        [192, 168, 1, 1, 1, 1]
    );
    assert_eq!(
        ams_header.ams_address_source.ams_net_id.net_id(),
        [192, 168, 1, 1, 1, 2]
    );
    assert_eq!(ams_header.ams_address_targed.port, 30000);
    assert_eq!(ams_header.ams_address_source.port, 30000);
    assert_eq!(ams_header.command_id, AdsCommandId::Read);
    assert_eq!(ams_header.state_flags.value(), 4);
    assert_eq!(ams_header.length, 12);
    assert_eq!(ams_header.ads_error, AdsError::ErrNoError);
    assert_eq!(ams_header.invoke_id, 111);
    assert_eq!(ams_header.data, [3, 1, 0, 0, 3, 1, 0, 0, 4, 0, 0, 0]);
}

#[test]
fn ams_header_len_test() {
    let port = 30000;
    let ams_header = AmsHeader::new(
        AmsAddress::new(AmsNetId::parse("192.168.1.1.1.1").unwrap(), port),
        AmsAddress::new(AmsNetId::new(192, 168, 1, 1, 1, 2), port),
        StateFlags::req_default(),
        111,
        Request::Read(ReadRequest::new(259, 259, 4)),
    );

    assert_eq!(ams_header.header_len(), 44);
}

#[test]
fn ams_tcp_header_write_to_test() {
    let mut buffer: Vec<u8> = Vec::new();

    let port = 30000;

    let ams_header = AmsHeader::new(
        AmsAddress::new(AmsNetId::parse("192.168.1.1.1.1").unwrap(), port),
        AmsAddress::new(AmsNetId::new(192, 168, 1, 1, 1, 2), port),
        StateFlags::req_default(),
        111,
        Request::Read(ReadRequest::new(259, 259, 4)),
    );

    let ams_tcp_header = AmsTcpHeader::from(ams_header);
    ams_tcp_header.write_to(&mut buffer);

    let compare: Vec<u8> = vec![
        0, 0, //reserved
        44, 0, 0, 0, //length
        192, 168, 1, 1, 1, 1, 48, 117, //
        192, 168, 1, 1, 1, 2, 48, 117, //
        2, 0, //
        4, 0, //
        12, 0, 0, 0, //
        0, 0, 0, 0, //
        111, 0, 0, 0, //
        3, 1, 0, 0, 3, 1, 0, 0, 4, 0, 0, 0,
    ];
    assert_eq!(compare, buffer);
}

#[test]
fn ams_tcp_header_read_from_test() {
    let data: Vec<u8> = vec![
        0, 0, //
        44, 0, 0, 0, //
        192, 168, 1, 1, 1, 1, 48, 117, //
        192, 168, 1, 1, 1, 2, 48, 117, //
        2, 0, //
        4, 0, //
        12, 0, 0, 0, //
        0, 0, 0, 0, //
        111, 0, 0, 0, //
        3, 1, 0, 0, 3, 1, 0, 0, 4, 0, 0, 0,
    ];

    let ams_tcp_header = AmsTcpHeader::read_from(data.as_slice()).unwrap();
    assert_eq!(ams_tcp_header.reserved, [0, 0]);
    assert_eq!(ams_tcp_header.length, 44);
    assert_eq!(
        ams_tcp_header.ams_header.ams_address_targed.ams_net_id.net_id(),
        [192, 168, 1, 1, 1, 1]
    );
    assert_eq!(
        ams_tcp_header.ams_header.ams_address_source.ams_net_id.net_id(),
        [192, 168, 1, 1, 1, 2]
    );
    assert_eq!(ams_tcp_header.ams_header.ams_address_targed.port, 30000);
    assert_eq!(ams_tcp_header.ams_header.ams_address_source.port, 30000);
    assert_eq!(ams_tcp_header.ams_header.command_id, AdsCommandId::Read);
    assert_eq!(ams_tcp_header.ams_header.state_flags.value(), 4);
    assert_eq!(ams_tcp_header.ams_header.length, 12);
    assert_eq!(ams_tcp_header.ams_header.ads_error, AdsError::ErrNoError);
    assert_eq!(ams_tcp_header.ams_header.invoke_id, 111);
    assert_eq!(
        ams_tcp_header.ams_header.data,
        [3, 1, 0, 0, 3, 1, 0, 0, 4, 0, 0, 0]
    );
}

#[test]
fn frame_round_trip_and_short_payload() {
    let header = AmsHeader::new(
        AmsAddress::new(AmsNetId::new(10, 0, 0, 1, 1, 1), 851),
        AmsAddress::new(AmsNetId::new(10, 0, 0, 2, 1, 1), 32905),
        StateFlags::req_default(),
        7,
        Request::Read(ReadRequest::new(0xF005, 4, 4)),
    );
    let frame = AmsTcpHeader::from(header);
    let mut buf = Vec::new();
    frame.write_to(&mut buf);
    assert_eq!(AmsTcpHeader::declared_len(&buf), Ok(44));
    let back = AmsTcpHeader::read_from(&buf).unwrap();
    assert_eq!(back, frame);
    // A frame that declares more payload than it holds is malformed.
    assert!(AmsTcpHeader::read_from(&buf[..buf.len() - 1]).is_err());
    // An unknown command id is malformed.
    let mut bad = buf.clone();
    bad[6 + 16] = 42;
    assert!(AmsTcpHeader::read_from(&bad).is_err());
}

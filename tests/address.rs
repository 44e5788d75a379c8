use ads::address::{AmsAddress, AmsNetId, ToAmsId};
use ads::error::AmsAddressError;

#[test]
fn parse_ams_net_id() {
    let mut id1 = AmsNetId::new(127, 0, 0, 1, 1, 1);
    let id2 = AmsNetId::parse("127.0.0.1.1.1");
    assert_eq!(Ok(id1), id2);
    id1 = AmsNetId::from([127, 0, 0, 1, 1, 1]);
    assert_eq!(Ok(id1), id2);
}

#[test]
fn into_ams_net_id() {
    let id1 = "127.0.0.1.1.1".to_ams_id();
    let id2 = "127.0.0.1.1.1".to_string().to_ams_id();
    assert_eq!(id1, id2);
}

#[test]
fn ams_net_id_new_test() {
    let ams_net_id = AmsNetId::new(192, 168, 1, 1, 1, 1);
    assert_eq!(ams_net_id.net_id, [192, 168, 1, 1, 1, 1]);
}

#[test]
fn ams_net_id_from_test() {
    let ams_net_id = AmsNetId::from([192, 168, 1, 1, 1, 1]);
    assert_eq!(ams_net_id.net_id, [192, 168, 1, 1, 1, 1]);
}

#[test]
fn ams_net_id_parse_test() {
    let ams_net_id = AmsNetId::parse("192.168.1.1.1.1").unwrap();
    assert_eq!(ams_net_id.net_id, [192, 168, 1, 1, 1, 1]);

    let ams_parse_error = AmsNetId::parse("192.168.1.1.1.1.1").unwrap_err();
    assert_eq!(
        ams_parse_error,
        AmsAddressError::InvalidAddressLength { length: 7 }
    );

    let ams_parse_error = AmsNetId::parse("999.168.1.1.1.1").unwrap_err();
    assert_eq!(ams_parse_error, AmsAddressError::ParseError { index: 0 });
}

#[test]
fn ams_net_id_parse_rejects_bad_parts() {
    assert_eq!(
        AmsNetId::parse("1.2.3.x.5.6").unwrap_err(),
        AmsAddressError::ParseError { index: 3 }
    );
    assert_eq!(
        AmsNetId::parse("1.2.3.4.5.").unwrap_err(),
        AmsAddressError::ParseError { index: 5 }
    );
    assert_eq!(
        AmsNetId::parse("").unwrap_err(),
        AmsAddressError::InvalidAddressLength { length: 1 }
    );
    assert_eq!(
        AmsNetId::parse("1.2.3.256.5.6").unwrap_err(),
        AmsAddressError::ParseError { index: 3 }
    );
    assert_eq!(
        AmsNetId::parse("+1.002.3.255.0.6").unwrap().net_id,
        [1, 2, 3, 255, 0, 6]
    );
}

#[test]
fn ams_net_id_write_to_test() {
    let ams_net_id = AmsNetId::from([192, 168, 1, 1, 1, 1]);
    let mut buffer: Vec<u8> = Vec::new();
    ams_net_id.write_to(&mut buffer);
    assert_eq!(buffer, [192, 168, 1, 1, 1, 1]);
}

#[test]
fn ams_net_id_read_from_test() {
    let data: Vec<u8> = vec![192, 168, 1, 1, 1, 1, 99, 6, 33]; //Read only the first 6 bytes!
    let ams_net_id = AmsNetId::read_from(data.as_slice(), 0).unwrap();
    assert_eq!(ams_net_id.net_id, [192, 168, 1, 1, 1, 1]);
}

#[test]
fn ams_address_new_test() {
    let ams_net_id = AmsNetId::parse("192.168.1.1.1.1").unwrap();
    let port = 30000;
    let ams_address = AmsAddress::new(ams_net_id.clone(), port);

    assert_eq!(ams_address.port, port);
    assert_eq!(ams_address.ams_net_id.net_id, ams_net_id.net_id);
}

#[test]
fn ams_address_write_to_test() {
    let ams_net_id = AmsNetId::parse("192.168.1.1.1.1").unwrap();
    let port = 30000;
    let ams_address = AmsAddress::new(ams_net_id.clone(), port);

    let mut buffer: Vec<u8> = Vec::new();
    ams_address.write_to(&mut buffer);

    assert_eq!(buffer, [192, 168, 1, 1, 1, 1, 48, 117]);
}

#[test]
fn ams_address_read_from_test() {
    let data: Vec<u8> = vec![192, 168, 1, 1, 1, 1, 48, 117];
    let ams_address = AmsAddress::read_from(data.as_slice(), 0).unwrap();
    assert_eq!(ams_address.ams_net_id.net_id, [192, 168, 1, 1, 1, 1]);
    assert_eq!(ams_address.port, 30000);
}

#[test]
fn ams_address_read_from_short_input() {
    let data: Vec<u8> = vec![192, 168, 1, 1, 1, 1, 48];
    assert!(AmsAddress::read_from(data.as_slice(), 0).is_err());
    assert!(AmsNetId::read_from(data.as_slice(), 2).is_err());
}

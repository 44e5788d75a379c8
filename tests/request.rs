use ads::request::{
    AddDeviceNotificationRequest, DeleteDeviceNotificationRequest, ReadRequest, ReadWriteRequest,
    Request, WriteControlRequest, WriteRequest,
};
use ads::types::{AdsCommandId, AdsState, AdsTransMode, READ_WRITE_SYMVAL_BY_HANDLE};

#[test]
fn read_request_test() {
    let mut buffer: Vec<u8> = Vec::new();
    Request::Read(ReadRequest::new(259, 259, 4)).write_to(&mut buffer);

    let compare: Vec<u8> = vec![3, 1, 0, 0, 3, 1, 0, 0, 4, 0, 0, 0];
    assert_eq!(compare, buffer);
}

#[test]
fn read_request_read_from_test() {
    let reader: Vec<u8> = vec![3, 1, 0, 0, 3, 1, 0, 0, 4, 0, 0, 0];
    let read_request = ReadRequest::read_from(reader.as_slice()).unwrap();

    let compare = ReadRequest::new(259, 259, 4);
    assert_eq!(read_request.index_group, compare.index_group);
    assert_eq!(read_request.index_offset, compare.index_offset);
    assert_eq!(read_request.length, compare.length);
}

#[test]
fn write_uint_request_test() {
    let mut buffer: Vec<u8> = Vec::new();
    let data: u32 = 12000;
    Request::Write(WriteRequest::new(259, 259, 4, data.to_le_bytes().to_vec())).write_to(&mut buffer);

    let compare: Vec<u8> = vec![3, 1, 0, 0, 3, 1, 0, 0, 4, 0, 0, 0, 224, 46, 0, 0];
    assert_eq!(compare, buffer);
}

#[test]
fn write_float_request_test() {
    let mut buffer: Vec<u8> = Vec::new();
    let data: f32 = 12000.33;
    Request::Write(WriteRequest::new(259, 259, 4, data.to_le_bytes().to_vec())).write_to(&mut buffer);

    let compare: Vec<u8> = vec![3, 1, 0, 0, 3, 1, 0, 0, 4, 0, 0, 0, 82, 129, 59, 70];
    assert_eq!(compare, buffer);
}

#[test]
fn write_request_read_from_test() {
    let reader: Vec<u8> = vec![4, 1, 0, 0, 4, 1, 0, 0, 4, 0, 0, 0, 225, 46, 0, 0];
    let read_request = WriteRequest::read_from(reader.as_slice()).unwrap();
    let data_value: u32 = 12001;
    let data = data_value.to_le_bytes();
    let compare = WriteRequest::new(260, 260, 4, data.to_vec());

    assert_eq!(read_request.index_group, compare.index_group, "Wrong index group");
    assert_eq!(read_request.index_offset, compare.index_offset, "Wrong index offset");
    assert_eq!(read_request.length, compare.length, "Wrong length");
    assert_eq!(read_request.data, data, "Data not as expected");
}

#[test]
fn write_request_stops_at_declared_length() {
    let reader: Vec<u8> = vec![1, 0, 0, 0, 2, 0, 0, 0, 0, 0, 0, 0, 7];
    let request = WriteRequest::read_from(reader.as_slice()).unwrap();
    assert_eq!(request.length, 0);
    assert!(request.data.is_empty());
    let short: Vec<u8> = vec![1, 0, 0, 0, 2, 0, 0, 0, 3, 0, 0, 0, 7, 8];
    assert!(WriteRequest::read_from(short.as_slice()).is_err());
    let short: Vec<u8> = vec![1, 0, 9, 0, 2, 0, 0, 0, 7];
    assert!(WriteControlRequest::read_from(short.as_slice()).is_err());
}

#[test]
fn write_control_request_test() {
    let mut buffer: Vec<u8> = Vec::new();
    let data: u8 = 0;
    Request::WriteControl(WriteControlRequest::new(
        AdsState::AdsStateIdle,
        296,
        1,
        data.to_le_bytes().to_vec(),
    ))
    .write_to(&mut buffer);

    let compare: Vec<u8> = vec![1, 0, 40, 1, 1, 0, 0, 0, 0];
    assert_eq!(compare, buffer);
}

#[test]
fn write_contro_request_read_from_test() {
    // The declared data length is 1: only the first data byte belongs to the
    // request.
    let reader: Vec<u8> = vec![1, 0, 40, 1, 1, 0, 0, 0, 0, 0, 0, 0];
    let request = WriteControlRequest::read_from(reader.as_slice()).unwrap();
    let data_value: u8 = 0;
    let data = data_value.to_le_bytes();
    let compare = WriteControlRequest::new(AdsState::AdsStateIdle, 296, 1, data.to_vec());

    assert_eq!(request.ads_state, compare.ads_state, "Wrong Ads state");
    assert_eq!(request.device_state, compare.device_state, "Wrong device state");
    assert_eq!(request.length, compare.length, "Wrong length");
    assert_eq!(request.data, data, "Data not as expected");
}

#[test]
fn read_write_request_test() {
    let mut buffer: Vec<u8> = Vec::new();
    let data: u32 = 40000;
    let data: Vec<u8> = data.to_le_bytes().to_vec();
    Request::ReadWrite(ReadWriteRequest::new(259, 259, 4, 4, data)).write_to(&mut buffer);

    let compare: Vec<u8> = vec![3, 1, 0, 0, 3, 1, 0, 0, 4, 0, 0, 0, 4, 0, 0, 0, 64, 156, 0, 0];
    assert_eq!(compare, buffer);
}

#[test]
fn read_write_request_read_from_test() {
    // The declared write length is 4 but only two data bytes follow.
    let reader: Vec<u8> = vec![3, 1, 0, 0, 3, 1, 0, 0, 4, 0, 0, 0, 4, 0, 0, 0, 0, 0];
    assert_eq!(
        ReadWriteRequest::read_from(reader.as_slice()),
        Err(ads::error::MalformedFrame)
    );
    let reader: Vec<u8> = vec![3, 1, 0, 0, 3, 1, 0, 0, 4, 0, 0, 0, 4, 0, 0, 0, 0, 0, 0, 0];
    let request = ReadWriteRequest::read_from(reader.as_slice()).unwrap();
    let data_value: u32 = 0;
    let data = data_value.to_le_bytes();
    let compare = ReadWriteRequest::new(259, 259, 4, 4, data.to_vec());

    assert_eq!(request.index_group, compare.index_group, "Wrong index group");
    assert_eq!(request.index_offset, compare.index_offset, "Wrong index offset");
    assert_eq!(request.read_length, compare.read_length, "Wrong read length");
    assert_eq!(request.write_length, compare.write_length, "Wrong write length");
    assert_eq!(request.command_id(), compare.command_id(), "Wrong command id");
    assert_eq!(request.data, data, "Data not as expected");
}

#[test]
fn add_device_notification_request_test() {
    let mut buffer: Vec<u8> = Vec::new();
    Request::AddDeviceNotification(AddDeviceNotificationRequest::new(
        259,
        259,
        4,
        AdsTransMode::Cyclic,
        1,
        1,
    ))
    .write_to(&mut buffer);

    let compare: Vec<u8> = vec![
        3, 1, 0, 0, 3, 1, 0, 0, 4, 0, 0, 0, 3, 0, 0, 0, 1, 0, 0, 0, 1, 0, 0, 0, 0, 0, 0, 0, 0, 0,
        0, 0, 0, 0, 0, 0, 0, 0, 0, 0,
    ];
    assert_eq!(compare, buffer);
}

#[test]
fn add_device_notification_request_read_from_test() {
    let reader: Vec<u8> = vec![
        3, 1, 0, 0, 3, 1, 0, 0, 4, 0, 0, 0, 3, 0, 0, 0, 5, 0, 0, 0, 1, 0, 0, 0, 0, 0, 0, 0, 0, 0,
        0, 0, 0, 0, 0, 0, 0, 0, 0, 0,
    ];
    let request = AddDeviceNotificationRequest::read_from(reader.as_slice()).unwrap();
    let compare = AddDeviceNotificationRequest::new(259, 259, 4, AdsTransMode::Cyclic, 5, 1);

    assert_eq!(request.index_group, compare.index_group, "Wrong index group");
    assert_eq!(request.index_offset, compare.index_offset, "Wrong index offset");
    assert_eq!(request.length, compare.length, "Wrong length");
    assert_eq!(
        request.transmission_mode, compare.transmission_mode,
        "Wrong transmission mode"
    );
    assert_eq!(request.max_delay, compare.max_delay, "Wrong max delay wrong");
    assert_eq!(request.cycle_time, compare.cycle_time, "Wrong cycle time");
    assert_eq!(request.reserved(), compare.reserved(), "Reserved not as expected");
}

#[test]
fn delete_device_notification_request_test() {
    let mut buffer: Vec<u8> = Vec::new();
    let notification_handle = DeleteDeviceNotificationRequest::new(1234);
    Request::DeleteDeviceNotification(notification_handle).write_to(&mut buffer);

    let compare: Vec<u8> = vec![210, 4, 0, 0];
    assert_eq!(compare, buffer);
}

#[test]
fn delete_device_notification_request_read_from_test() {
    let reader: Vec<u8> = vec![210, 4, 0, 0];
    let request = DeleteDeviceNotificationRequest::read_from(reader.as_slice()).unwrap();
    let compare = DeleteDeviceNotificationRequest::new(1234);

    assert_eq!(request.handle, compare.handle, "Wrong handle");
    assert_eq!(request.command_id(), compare.command_id(), "Wrong command id");
}

#[test]
fn read_request_by_handle_layout() {
    // A read at the by-handle group, handle 4, four bytes.
    let mut buffer: Vec<u8> = Vec::new();
    Request::Read(ReadRequest::new(READ_WRITE_SYMVAL_BY_HANDLE, 4, 4)).write_to(&mut buffer);
    assert_eq!(buffer, vec![0x05, 0xF0, 0, 0, 4, 0, 0, 0, 4, 0, 0, 0]);
}

#[test]
fn request_round_trip_every_variant() {
    let requests = vec![
        Request::Read(ReadRequest::new(1, 2, 3)),
        Request::Write(WriteRequest::new(1, 2, 0, vec![])),
        Request::Write(WriteRequest::new(1, 2, 3, vec![9, 8, 7])),
        Request::WriteControl(WriteControlRequest::new(AdsState::AdsStateRun, 7, 2, vec![1, 2])),
        Request::AddDeviceNotification(AddDeviceNotificationRequest::new(
            1,
            2,
            3,
            AdsTransMode::OnChange,
            u32::MAX,
            5,
        )),
        Request::DeleteDeviceNotification(DeleteDeviceNotificationRequest::new(77)),
        Request::ReadWrite(ReadWriteRequest::new(0xF003, 0, 4, 3, vec![b'a', b'b', b'c'])),
    ];
    for r in requests {
        let mut buf = Vec::new();
        r.write_to(&mut buf);
        let back = Request::read_from(r.command_id(), &buf).unwrap();
        assert_eq!(back, r);
    }
    assert_eq!(
        Request::read_from(AdsCommandId::Read, &[1, 2, 3]),
        Err(ads::error::MalformedFrame)
    );
    assert!(WriteControlRequest::read_from(&[99, 0, 0, 0, 0, 0, 0, 0]).is_err());
}

use ads::error::AdsError;
use ads::notification::{AdsNotificationSample, AdsNotificationStream, AdsStampHeader};
use ads::response::{
    AddDeviceNotificationResponse, DeleteDeviceNotificationResponse, ReadDeviceInfoResponse,
    ReadResponse, ReadStateResponse, Response, WriteControlResponse, WriteResponse,
};
use ads::types::{AdsCommandId, AdsState};

#[test]
fn read_device_info_response_write_to_test() {
    let mut buffer: Vec<u8> = Vec::new();
    let mut device_name: [u8; 16] = [0; 16];

    for (n, b) in "Device".as_bytes().iter().enumerate() {
        device_name[n] = *b;
    }

    let device_info_response =
        ReadDeviceInfoResponse::new(AdsError::ErrAccessDenied, 1, 2, 10, device_name);

    let response_data: Vec<u8> = vec![
        30, 0, 0, 0, 1, 2, 10, 0, 68, 101, 118, 105, 99, 101, 0, 0, 0, 0, 0, 0, 0, 0, 0, 0,
    ];

    device_info_response.write_to(&mut buffer);

    assert_eq!(buffer, response_data);
}

#[test]
fn read_device_info_response_test() {
    let response_data: Vec<u8> = vec![
        30, 0, 0, 0, 2, 14, 1, 1, 72, 101, 108, 108, 111, 32, 87, 111, 114, 108, 100, 0, 0, 0, 0,
        0,
    ];

    let read_device_info_response =
        ReadDeviceInfoResponse::read_from(response_data.as_slice()).unwrap();

    let response = Response::ReadDeviceInfo(read_device_info_response.clone());
    assert_eq!(response.command_id(), AdsCommandId::ReadDeviceInfo);

    assert_eq!(read_device_info_response.result, AdsError::ErrAccessDenied);
    assert_eq!(read_device_info_response.major_version, 2);
    assert_eq!(read_device_info_response.minor_version, 14);
    assert_eq!(read_device_info_response.version_build, 257);

    let expected_device_name: [u8; 16] = [
        72, 101, 108, 108, 111, 32, 87, 111, 114, 108, 100, 0, 0, 0, 0, 0,
    ]; //Hello World
    assert_eq!(read_device_info_response.device_name, expected_device_name);
}

#[test]
fn device_info_scenario() {
    let mut payload: Vec<u8> = vec![0, 0, 0, 0, 1, 2, 10, 0];
    payload.extend_from_slice(b"Device");
    payload.resize(24, 0);
    let info = ReadDeviceInfoResponse::read_from(&payload).unwrap();
    assert_eq!(info.result, AdsError::ErrNoError);
    assert_eq!(info.major_version, 1);
    assert_eq!(info.minor_version, 2);
    assert_eq!(info.version_build, 10);
    assert_eq!(&info.device_name[..6], b"Device");
    assert!(info.device_name[6..].iter().all(|b| *b == 0));
    assert!(ReadDeviceInfoResponse::read_from(&payload[..23]).is_err());
}

#[test]
fn read_response_test() {
    let response_data: Vec<u8> = vec![4, 0, 0, 0, 2, 0, 0, 0, 255, 2];

    let read_response = ReadResponse::read_from(response_data.as_slice()).unwrap();

    assert_eq!(read_response.result, AdsError::ErrInsertMailBox);
    assert_eq!(read_response.length, 2);
    assert_eq!(read_response.data, vec![255, 2]);
}

#[test]
fn read_response_stops_at_declared_length() {
    let data: Vec<u8> = vec![0, 0, 0, 0, 1, 0, 0, 0, 7, 8, 9];
    let r = ReadResponse::read_from(&data).unwrap();
    assert_eq!(r.data, vec![7]);
    let short: Vec<u8> = vec![0, 0, 0, 0, 5, 0, 0, 0, 7, 8];
    assert!(ReadResponse::read_from(&short).is_err());
}

#[test]
fn read_response_write_to_test() {
    let mut buffer: Vec<u8> = Vec::new();
    let data: u32 = 90000;
    let read_response = ReadResponse::new(AdsError::ErrAccessDenied, data.to_le_bytes().to_vec());
    read_response.write_to(&mut buffer);
    assert_eq!(buffer, [30, 0, 0, 0, 4, 0, 0, 0, 144, 95, 1, 0]);
}

#[test]
fn write_response_test() {
    let response_data: Vec<u8> = vec![4, 0, 0, 0];

    let write_response = WriteResponse::read_from(response_data.as_slice()).unwrap();

    assert_eq!(write_response.result, AdsError::from(4));
}

#[test]
fn write_response_write_to_test() {
    let mut buffer: Vec<u8> = Vec::new();
    let write_response = WriteResponse::new(AdsError::ErrAccessDenied);
    write_response.write_to(&mut buffer);
    assert_eq!(buffer, [30, 0, 0, 0]);
}

#[test]
fn read_state_response_test() {
    let response_data: Vec<u8> = vec![4, 0, 0, 0, 9, 0, 1, 1];

    let read_state_response = ReadStateResponse::read_from(response_data.as_slice()).unwrap();

    assert_eq!(read_state_response.result, AdsError::ErrInsertMailBox);
    assert_eq!(read_state_response.ads_state, AdsState::AdsStatePowerFailure);
    assert_eq!(read_state_response.device_state, 257);
}

#[test]
fn read_state_response_write_to_test() {
    let mut buffer: Vec<u8> = Vec::new();
    let read_state_response =
        ReadStateResponse::new(AdsError::ErrAccessDenied, AdsState::AdsStateConfig, 4);
    read_state_response.write_to(&mut buffer);
    assert_eq!(buffer, [30, 0, 0, 0, 15, 0, 4, 0]);
}

#[test]
fn write_control_response_test() {
    let response_data: Vec<u8> = vec![30, 0, 0, 0];

    let write_control_response = WriteControlResponse::read_from(response_data.as_slice()).unwrap();

    assert_eq!(write_control_response.result, AdsError::ErrAccessDenied);
}

#[test]
fn write_control_response_write_to_test() {
    let mut buffer: Vec<u8> = Vec::new();
    let write_control_response = WriteControlResponse::new(AdsError::ErrAccessDenied);
    write_control_response.write_to(&mut buffer);
    assert_eq!(buffer, [30, 0, 0, 0]);
}

#[test]
fn add_device_notification_response_test() {
    let response_data: Vec<u8> = vec![4, 0, 0, 0, 10, 0, 0, 0];

    let add_device_notification_response =
        AddDeviceNotificationResponse::read_from(response_data.as_slice()).unwrap();

    assert_eq!(
        add_device_notification_response.result,
        AdsError::ErrInsertMailBox
    );
    assert_eq!(add_device_notification_response.notification_handle, 10);
}

#[test]
fn add_device_notification_response_write_to_test() {
    let mut buffer: Vec<u8> = Vec::new();
    let add_device_notification_response =
        AddDeviceNotificationResponse::new(AdsError::ErrInsertMailBox, 10);
    add_device_notification_response.write_to(&mut buffer);
    assert_eq!(buffer, [4, 0, 0, 0, 10, 0, 0, 0]);
}

#[test]
fn delete_device_notification_response_test() {
    let response_data: Vec<u8> = vec![4, 0, 0, 0];

    let delete_device_notification_response =
        DeleteDeviceNotificationResponse::read_from(response_data.as_slice()).unwrap();

    assert_eq!(
        delete_device_notification_response.result,
        AdsError::ErrInsertMailBox
    );
}

#[test]
fn delete_device_notification_response_write_to_test() {
    let mut buffer: Vec<u8> = Vec::new();
    let delete_device_notification_response =
        DeleteDeviceNotificationResponse::new(AdsError::ErrAccessDenied);
    delete_device_notification_response.write_to(&mut buffer);
    assert_eq!(buffer, [30, 0, 0, 0]);
}

#[test]
fn ads_notification_stream_test() {
    let notification_sample1: Vec<u8> = vec![4, 0, 0, 0, 2, 0, 0, 0, 6, 0];
    let notification_sample2: Vec<u8> = vec![4, 0, 0, 0, 4, 0, 0, 0, 9, 0, 0, 0];

    let mut stamp_header: Vec<u8> = vec![255, 0, 0, 0, 0, 0, 0, 0, 2, 0, 0, 0];
    stamp_header.extend(notification_sample1);
    stamp_header.extend(notification_sample2);

    let mut notification_stream: Vec<u8> = vec![68, 0, 0, 0, 2, 0, 0, 0];
    notification_stream.extend(stamp_header.clone());
    notification_stream.extend(stamp_header);

    let notification_data = AdsNotificationStream::read_from(notification_stream.as_slice()).unwrap();

    assert_eq!(notification_data.length, 68, "Wrong data stream length");
    assert_eq!(notification_data.stamps, 2, "Wrong data stream stamp count");
    assert_eq!(notification_data.ads_stamp_headers.len(), 2, "Wrong stamp header vec length");
    for n in 0..2 {
        let stamp = &notification_data.ads_stamp_headers[n];
        assert_eq!(stamp.notification_samples.len(), 2, "Wrong notification sample vec len [{}]", n);
        assert_eq!(stamp.samples, 2, "Wrong notification samples count [{}]", n);
        assert_eq!(stamp.time_stamp, 255, "Wrong time stamp [{}]", n);
        assert_eq!(stamp.notification_samples[0].notification_handle, 4, "Wrong notification handle [{}][0]", n);
        assert_eq!(stamp.notification_samples[0].sample_size, 2, "Wrong sample size [{}][0]", n);
        assert_eq!(stamp.notification_samples[0].data, vec![6, 0], "Wrong data [{}][0]", n);
        assert_eq!(stamp.notification_samples[1].notification_handle, 4, "Wrong notification handle [{}][1]", n);
        assert_eq!(stamp.notification_samples[1].sample_size, 4, "Wrong sample size [{}][1]", n);
        assert_eq!(stamp.notification_samples[1].data, vec![9, 0, 0, 0], "Wrong data [{}][1]", n);
    }
    assert_eq!(notification_data.notification_handles(), vec![4, 4, 4, 4]);
}

#[test]
fn ads_notification_stream_write_to_test() {
    //4+4+4=12byte
    let sample_data1: u32 = 1000;
    let notification_sample1 = AdsNotificationSample {
        notification_handle: 10,
        sample_size: 4,
        data: sample_data1.to_le_bytes().to_vec(),
    };

    //4+4+2=10byte
    let sample_data2: u16 = 2000;
    let notification_sample2 = AdsNotificationSample {
        notification_handle: 20,
        sample_size: 2,
        data: sample_data2.to_le_bytes().to_vec(),
    };

    //4+4+8=16byte
    let sample_data3: u64 = 3000;
    let notification_sample3 = AdsNotificationSample {
        notification_handle: 30,
        sample_size: 8,
        data: sample_data3.to_le_bytes().to_vec(),
    };

    //8+4+12+10=34byte
    let notification_samples = vec![notification_sample1, notification_sample2];
    let stamp_header1 = AdsStampHeader::new(1234567890, 2, notification_samples);

    //8+4+16=28byte
    let notification_samples = vec![notification_sample3];
    let stamp_header2 = AdsStampHeader::new(1234567890, 1, notification_samples);

    let stamp_headers = vec![stamp_header1, stamp_header2];

    let mut len: usize = 0;
    for header in &stamp_headers {
        len += header.stamp_len();
    }

    let expected_len: usize = 62;
    assert_eq!(&len, &expected_len, "Wrong number of bytes");

    //4+4+34+28=70byte
    let ads_notification_stream =
        AdsNotificationStream::new(len as u32, stamp_headers.len() as u32, stamp_headers);

    let expected_len: usize = 70;
    assert_eq!(&ads_notification_stream.stream_len(), &expected_len, "Wrong number of bytes");

    let mut buffer: Vec<u8> = Vec::new();

    ads_notification_stream.write_to(&mut buffer);

    let expected_data = [
        62, 0, 0, 0, //stream length
        2, 0, 0, 0, //stamps
        210, 2, 150, 73, 0, 0, 0, 0, //time stamp 1
        2, 0, 0, 0, //samples
        10, 0, 0, 0, 4, 0, 0, 0, 232, 3, 0, 0, //sample 1
        20, 0, 0, 0, 2, 0, 0, 0, 208, 7, //sample 2
        210, 2, 150, 73, 0, 0, 0, 0, //time stamp 2
        1, 0, 0, 0, //samples
        30, 0, 0, 0, 8, 0, 0, 0, 184, 11, 0, 0, 0, 0, 0, 0, //sample 3
    ];

    assert_eq!(buffer, expected_data, "Data in buffer is not as expected");
}

#[test]
fn notification_stream_round_trip_equal_stamps() {
    let stamp = |t: u64| {
        AdsStampHeader::new(
            t,
            2,
            vec![
                AdsNotificationSample::new(7, vec![1, 2, 3]),
                AdsNotificationSample::new(8, vec![4, 5, 6]),
            ],
        )
    };
    let stamps = vec![stamp(1), stamp(2), stamp(3)];
    let len: usize = stamps.iter().map(|s| s.stamp_len()).sum();
    let stream = AdsNotificationStream::new(len as u32, 3, stamps);
    let mut buf = Vec::new();
    stream.write_to(&mut buf);
    assert_eq!(buf.len(), stream.stream_len());
    let back = AdsNotificationStream::read_from(&buf).unwrap();
    assert_eq!(back, stream);
    assert_eq!(back.notification_handles(), vec![7, 8, 7, 8, 7, 8]);
    // Truncated input is malformed.
    assert!(AdsNotificationStream::read_from(&buf[..buf.len() - 1]).is_err());
}

#[test]
fn notification_stream_without_stamps() {
    let stream = AdsNotificationStream::new(0, 0, vec![]);
    let mut buf = Vec::new();
    stream.write_to(&mut buf);
    assert_eq!(buf, vec![0, 0, 0, 0, 0, 0, 0, 0]);
    assert_eq!(AdsNotificationStream::read_from(&buf).unwrap(), stream);
}

#[test]
fn response_round_trip_every_variant() {
    let responses = vec![
        Response::ReadDeviceInfo(ReadDeviceInfoResponse::new(AdsError::ErrNoError, 3, 1, 4000, [b'x'; 16])),
        Response::Read(ReadResponse::new(AdsError::ErrNoError, vec![])),
        Response::Read(ReadResponse::new(AdsError::AdsErrDeviceBusy, vec![1, 2, 3])),
        Response::Write(WriteResponse::new(AdsError::Unknown(0x9999))),
        Response::ReadState(ReadStateResponse::new(AdsError::ErrNoError, AdsState::AdsStateRun, 0)),
        Response::WriteControl(WriteControlResponse::new(AdsError::ErrNoError)),
        Response::AddDeviceNotification(AddDeviceNotificationResponse::new(AdsError::ErrNoError, 12)),
        Response::DeleteDeviceNotification(DeleteDeviceNotificationResponse::new(AdsError::ErrNoError)),
        Response::DeviceNotification(AdsNotificationStream::new(
            22,
            1,
            vec![AdsStampHeader::new(5, 1, vec![AdsNotificationSample::new(1, vec![9, 9])])],
        )),
        Response::ReadWrite(ReadResponse::new(AdsError::ErrNoError, vec![4, 0, 0, 0])),
    ];
    for r in responses {
        let mut buf = Vec::new();
        r.write_to(&mut buf);
        let back = Response::read_from(r.command_id(), &buf).unwrap();
        assert_eq!(back, r);
    }
    assert!(Response::read_from(AdsCommandId::Invalid, &[]).is_err());
}

#[test]
fn error_codes_map_both_ways() {
    assert_eq!(AdsError::from(0x711), AdsError::AdsErrDeviceSymbolVersionInvalid);
    assert_eq!(AdsError::AdsErrDeviceSymbolVersionInvalid.as_u32(), 1809);
    assert_eq!(AdsError::from(0x1234), AdsError::Unknown(0x1234));
    assert_eq!(AdsError::Unknown(0x1234).as_u32(), 0x1234);
    assert_eq!(AdsError::ErrAccessDenied.as_u32(), 30);
    assert!(AdsError::ErrNoError.is_ok());
    assert!(!AdsError::ErrInternal.is_ok());
}

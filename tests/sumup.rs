use ads::error::{AdsError, ClientError};
use ads::request::{ReadRequest, ReadWriteRequest, WriteRequest};
use ads::response::ReadWriteResponse;
use ads::sumup::{
    read_sumup_write_results, sumup_read_request, sumup_read_write_request, sumup_write_request,
    SumupReadWriteResponse,
};
use ads::types::{SUMUP_READ_EX, SUMUP_READ_WRITE, SUMUP_WRITE};
use byteorder::{LittleEndian, ReadBytesExt};

#[test]
fn sum_read_write_write_to_test() {
    let response_group: Vec<ReadWriteResponse> = vec![
        ReadWriteResponse::new(AdsError::ErrNoError, vec![1, 0]),
        ReadWriteResponse::new(AdsError::ErrNoError, vec![2, 0, 0, 0]),
        ReadWriteResponse::new(AdsError::ErrNoError, vec![3, 0, 0, 0, 0, 0, 0, 0]),
    ];

    let sum_read_write_response = SumupReadWriteResponse::new(response_group);
    let mut buf: Vec<u8> = Vec::new();
    sum_read_write_response.write_to(&mut buf);

    let compare_data = vec![
        0, 0, 0, 0, //result response 1
        2, 0, 0, 0, //data length response 1
        0, 0, 0, 0, //result response 2
        4, 0, 0, 0, //data length response 2
        0, 0, 0, 0, //result response 3
        8, 0, 0, 0, //data length response 3
        1, 0, //data response 1
        2, 0, 0, 0, //data response 2
        3, 0, 0, 0, 0, 0, 0, 0, //data response 3
    ];

    assert_eq!(buf, compare_data);
}

#[test]
fn sum_read_write_read_from_test() {
    let data = vec![
        0, 0, 0, 0, //
        2, 0, 0, 0, //
        0, 0, 0, 0, //
        4, 0, 0, 0, //
        0, 0, 0, 0, //
        8, 0, 0, 0, //
        1, 0, //
        2, 0, 0, 0, //
        3, 0, 0, 0, 0, 0, 0, 0,
    ];

    let sum_read_write_response = SumupReadWriteResponse::read_from(data.as_slice(), 3).unwrap();

    let response_1 = ReadWriteResponse::new(AdsError::ErrNoError, vec![1, 0]);
    let response_2 = ReadWriteResponse::new(AdsError::ErrNoError, vec![2, 0, 0, 0]);
    let response_3 = ReadWriteResponse::new(AdsError::ErrNoError, vec![3, 0, 0, 0, 0, 0, 0, 0]);

    assert_eq!(sum_read_write_response.read_write_responses[0], response_1);
    assert_eq!(sum_read_write_response.read_write_responses[1], response_2);
    assert_eq!(sum_read_write_response.read_write_responses[2], response_3);

    let value_1: u16 = sum_read_write_response.read_write_responses[0]
        .data
        .as_slice()
        .read_u16::<LittleEndian>()
        .unwrap();
    assert_eq!(value_1, 1);
    assert_eq!(sum_read_write_response.read_write_responses[0].result, AdsError::ErrNoError);
    assert_eq!(sum_read_write_response.read_write_responses[0].length, 2);
    let value_2: u32 = sum_read_write_response.read_write_responses[1]
        .data
        .as_slice()
        .read_u32::<LittleEndian>()
        .unwrap();
    assert_eq!(value_2, 2);
    assert_eq!(sum_read_write_response.read_write_responses[1].result, AdsError::ErrNoError);
    assert_eq!(sum_read_write_response.read_write_responses[1].length, 4);
    let value_3: u64 = sum_read_write_response.read_write_responses[2]
        .data
        .as_slice()
        .read_u64::<LittleEndian>()
        .unwrap();
    assert_eq!(value_3, 3);
    assert_eq!(sum_read_write_response.read_write_responses[2].result, AdsError::ErrNoError);
    assert_eq!(sum_read_write_response.read_write_responses[2].length, 8);
}

#[test]
fn sumup_order_is_kept_up_to_the_cap() {
    for n in [1usize, 2, 17, 500] {
        let items: Vec<ReadWriteResponse> = (0..n)
            .map(|i| {
                let code = if i % 7 == 3 { AdsError::AdsErrDeviceInvalidOffset } else { AdsError::ErrNoError };
                ReadWriteResponse::new(code, vec![(i % 251) as u8; i % 5])
            })
            .collect();
        let batch = SumupReadWriteResponse::new(items.clone());
        let mut buf = Vec::new();
        batch.write_to(&mut buf);
        let back = SumupReadWriteResponse::read_from(&buf, n).unwrap();
        assert_eq!(back.read_write_responses, items);
    }
}

#[test]
fn sumup_decode_rejects_short_input() {
    let data = vec![0, 0, 0, 0, 4, 0, 0, 0, 1, 2, 3];
    assert!(SumupReadWriteResponse::read_from(&data, 1).is_err());
    assert!(SumupReadWriteResponse::read_from(&data, 2).is_err());
}

#[test]
fn sumup_read_request_layout() {
    let reads = vec![ReadRequest::new(0xF005, 1, 4), ReadRequest::new(0xF005, 2, 2)];
    let req = sumup_read_request(&reads).unwrap();
    assert_eq!(req.index_group, SUMUP_READ_EX);
    assert_eq!(req.index_offset, 2);
    assert_eq!(req.read_length, 8 + 4 + 8 + 2);
    assert_eq!(req.write_length, 24);
    assert_eq!(
        req.data,
        vec![5, 0xF0, 0, 0, 1, 0, 0, 0, 4, 0, 0, 0, 5, 0xF0, 0, 0, 2, 0, 0, 0, 2, 0, 0, 0]
    );
}

#[test]
fn sumup_write_request_layout() {
    let writes = vec![
        WriteRequest::new(0xF005, 1, 2, vec![9, 9]),
        WriteRequest::new(0xF005, 2, 1, vec![7]),
    ];
    let req = sumup_write_request(&writes).unwrap();
    assert_eq!(req.index_group, SUMUP_WRITE);
    assert_eq!(req.index_offset, 2);
    assert_eq!(req.read_length, 8);
    assert_eq!(
        req.data,
        vec![5, 0xF0, 0, 0, 1, 0, 0, 0, 2, 0, 0, 0, 5, 0xF0, 0, 0, 2, 0, 0, 0, 1, 0, 0, 0, 9, 9, 7]
    );
    assert_eq!(req.write_length, 27);
}

#[test]
fn sumup_read_write_request_layout() {
    let lookups = vec![
        ReadWriteRequest::new(0xF003, 0, 4, 1, vec![b'a']),
        ReadWriteRequest::new(0xF003, 0, 4, 2, vec![b'b', b'c']),
    ];
    let req = sumup_read_write_request(&lookups).unwrap();
    assert_eq!(req.index_group, SUMUP_READ_WRITE);
    assert_eq!(req.index_offset, 2);
    assert_eq!(req.read_length, 24);
    assert_eq!(req.write_length, 35);
    assert_eq!(&req.data[32..], b"abc");
}

#[test]
fn sumup_batches_over_the_cap_are_rejected() {
    let reads = vec![ReadRequest::new(0xF005, 1, 1); 501];
    assert_eq!(sumup_read_request(&reads).unwrap_err(), ClientError::BatchTooLarge);
    let reads = vec![ReadRequest::new(0xF005, 1, 1); 500];
    assert!(sumup_read_request(&reads).is_ok());
    let writes = vec![WriteRequest::new(0xF005, 1, 1, vec![0]); 501];
    assert_eq!(sumup_write_request(&writes).unwrap_err(), ClientError::BatchTooLarge);
}

#[test]
fn sumup_write_results() {
    let codes = read_sumup_write_results(&[0, 0, 0, 0, 0x11, 7, 0, 0], 2).unwrap();
    assert_eq!(codes, vec![AdsError::ErrNoError, AdsError::AdsErrDeviceSymbolVersionInvalid]);
    assert!(read_sumup_write_results(&[0, 0, 0], 1).is_err());
}

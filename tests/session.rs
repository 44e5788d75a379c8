use ads::address::{AmsAddress, AmsNetId};
use ads::client::{
    check_ads_error, complete_add_notification, complete_delete_notification, complete_read,
    complete_sumup_read, complete_sumup_symbol_lookup, complete_sumup_write,
    complete_symbol_lookup, complete_write, missing_symbols, read_request_for, request_frame,
    route_frame, sumup_read_request_for, sumup_symbol_lookup_request, sumup_write_request_for,
    symbol_lookup_request, write_request_for, Route,
};
use ads::error::{AdsError, ClientError};
use ads::header::{AmsHeader, AmsTcpHeader};
use ads::notification::{AdsNotificationSample, AdsNotificationStream, AdsStampHeader};
use ads::request::{ReadRequest, Request};
use ads::response::{
    AddDeviceNotificationResponse, DeleteDeviceNotificationResponse, ReadResponse, Response,
    WriteResponse,
};
use ads::session::{CallTable, Subscriptions, SymbolCache, SymbolHandle};
use ads::sumup::SumupReadWriteResponse;
use ads::types::{AdsCommandId, PlcTypes, StateFlags, Var, GET_SYMHANDLE_BY_NAME};

fn var(name: &str, t: PlcTypes) -> Var {
    Var::new(name.to_string(), t, None)
}

fn handle_answer(h: u32) -> Result<Response, ClientError> {
    Ok(Response::ReadWrite(ReadResponse::new(AdsError::ErrNoError, h.to_le_bytes().to_vec())))
}

#[test]
fn symbol_lookup_request_layout() {
    let req = symbol_lookup_request(&"Main.x".to_string());
    assert_eq!(req.index_group, GET_SYMHANDLE_BY_NAME);
    assert_eq!(req.index_offset, 0);
    assert_eq!(req.read_length, 4);
    assert_eq!(req.write_length, 6);
    assert_eq!(req.data, b"Main.x".to_vec());
}

#[test]
fn cache_hit_after_resolve_and_miss_after_invalidation() {
    let mut cache = SymbolCache::new();
    let x = var("X", PlcTypes::DInt);
    assert_eq!(cache.lookup(&x.name), None);
    let h = complete_symbol_lookup(&mut cache, &x, handle_answer(0x1234)).unwrap();
    assert_eq!(h, SymbolHandle { handle: 0x1234, plc_type: PlcTypes::DInt });
    // A second resolve is answered from the cache with the same handle.
    assert_eq!(cache.lookup(&x.name), Some(h));
    assert_eq!(
        read_request_for(&cache, &x).unwrap(),
        ReadRequest::new(0xF005, 0x1234, 4)
    );
    cache.invalidate_all();
    assert_eq!(cache.lookup(&x.name), None);
    assert_eq!(read_request_for(&cache, &x).unwrap_err(), ClientError::SymbolHandleMissing);
}

#[test]
fn symbol_lookup_failures() {
    let mut cache = SymbolCache::new();
    let x = var("X", PlcTypes::Int);
    let short = Ok(Response::ReadWrite(ReadResponse::new(AdsError::ErrNoError, vec![1, 2])));
    assert_eq!(complete_symbol_lookup(&mut cache, &x, short).unwrap_err(), ClientError::MalformedFrame);
    let denied = Ok(Response::ReadWrite(ReadResponse::new(AdsError::AdsErrDeviceSymbolNotFound, vec![])));
    assert_eq!(
        complete_symbol_lookup(&mut cache, &x, denied).unwrap_err(),
        ClientError::Device(AdsError::AdsErrDeviceSymbolNotFound)
    );
    let wrong = Ok(Response::Write(WriteResponse::new(AdsError::ErrNoError)));
    assert_eq!(complete_symbol_lookup(&mut cache, &x, wrong).unwrap_err(), ClientError::MalformedFrame);
    assert_eq!(cache.lookup(&x.name), None);
}

#[test]
fn symbol_version_change_empties_cache_on_read_and_write() {
    let mut cache = SymbolCache::new();
    let a = var("A", PlcTypes::Bool);
    let b = var("B", PlcTypes::LReal);
    complete_symbol_lookup(&mut cache, &a, handle_answer(1)).unwrap();
    complete_symbol_lookup(&mut cache, &b, handle_answer(2)).unwrap();
    let stale = Ok(Response::Read(ReadResponse::new(AdsError::AdsErrDeviceSymbolVersionInvalid, vec![])));
    assert_eq!(
        complete_read(&mut cache, stale).unwrap_err(),
        ClientError::Device(AdsError::AdsErrDeviceSymbolVersionInvalid)
    );
    assert_eq!(cache.lookup(&a.name), None);
    assert_eq!(cache.lookup(&b.name), None);

    complete_symbol_lookup(&mut cache, &a, handle_answer(1)).unwrap();
    let stale = Ok(Response::Write(WriteResponse::new(AdsError::AdsErrDeviceSymbolVersionInvalid)));
    assert!(complete_write(&mut cache, stale).is_err());
    assert_eq!(cache.lookup(&a.name), None);

    // Reported in the header rather than the payload, it has the same effect.
    complete_symbol_lookup(&mut cache, &a, handle_answer(1)).unwrap();
    let stale = Err(ClientError::Device(AdsError::AdsErrDeviceSymbolVersionInvalid));
    assert!(complete_read(&mut cache, stale).is_err());
    assert_eq!(cache.lookup(&a.name), None);
}

#[test]
fn other_errors_keep_the_cache() {
    let mut cache = SymbolCache::new();
    let a = var("A", PlcTypes::Bool);
    complete_symbol_lookup(&mut cache, &a, handle_answer(5)).unwrap();
    let busy = Ok(Response::Read(ReadResponse::new(AdsError::AdsErrDeviceBusy, vec![])));
    assert!(complete_read(&mut cache, busy).is_err());
    assert!(cache.lookup(&a.name).is_some());
    let ok = Ok(Response::Read(ReadResponse::new(AdsError::ErrNoError, vec![1])));
    assert_eq!(complete_read(&mut cache, ok).unwrap(), vec![1]);
    let ok = Ok(Response::Write(WriteResponse::new(AdsError::ErrNoError)));
    assert_eq!(complete_write(&mut cache, ok), Ok(()));
    let w = write_request_for(&cache, &a, vec![1]).unwrap();
    assert_eq!((w.index_group, w.index_offset, w.length, w.data), (0xF005, 5, 1, vec![1]));
}

#[test]
fn calls_match_their_own_answer_in_reverse_order() {
    let mut table: CallTable<String> = CallTable::new();
    for id in 1..=5u32 {
        table.register(id, format!("caller {}", id)).unwrap();
    }
    assert_eq!(table.register(3, "again".to_string()), Err(ClientError::DuplicateInvokeId));
    for id in (1..=5u32).rev() {
        assert_eq!(table.take(id), Some(format!("caller {}", id)));
    }
    assert_eq!(table.take(3), None);
    assert!(!table.contains(1));
}

#[test]
fn teardown_takes_every_waiter() {
    let mut table: CallTable<u8> = CallTable::new();
    table.register(1, 10).unwrap();
    table.register(2, 20).unwrap();
    let all = table.take_all();
    assert_eq!(all.len(), 2);
    assert_eq!(table.take(1), None);
}

#[test]
fn add_then_delete_leaves_no_subscription() {
    let mut subs: Subscriptions<&str> = Subscriptions::new();
    let other = "Main.other".to_string();
    subs.activate(&other, 9, "other channel");
    let mut cache = SymbolCache::new();
    let added = Ok(Response::AddDeviceNotification(AddDeviceNotificationResponse::new(AdsError::ErrNoError, 4)));
    let handle = complete_add_notification(&mut cache, added).unwrap();
    let name = "Main.x".to_string();
    subs.activate(&name, handle, "x channel");
    assert_eq!(subs.handle_of(&name), Ok(4));
    let deleted = Ok(Response::DeleteDeviceNotification(DeleteDeviceNotificationResponse::new(AdsError::ErrNoError)));
    assert_eq!(complete_delete_notification(deleted), Ok(()));
    assert_eq!(subs.close(&name), Some("x channel"));
    assert_eq!(subs.handle_of(&name), Err(ClientError::NoSuchSubscription));
    assert_eq!(subs.channel(4), None);
    // The unrelated subscription is untouched.
    assert_eq!(subs.channel(9), Some(&"other channel"));
    assert_eq!(subs.close(&other), Some("other channel"));
    assert_eq!(subs.close(&other), None);
    assert!(subs.take_all().is_empty());
}

#[test]
fn request_frame_for_a_read() {
    let target = AmsAddress::new(AmsNetId::new(192, 168, 0, 150, 1, 1), 851);
    let source = AmsAddress::new(AmsNetId::new(192, 168, 0, 2, 1, 1), 30000);
    let frame = request_frame(target, source, 9, Request::Read(ReadRequest::new(0x0000F005, 4, 4)));
    assert_eq!(frame.len(), 6 + 32 + 12);
    assert_eq!(&frame[..6], &[0, 0, 44, 0, 0, 0]);
    assert_eq!(&frame[22..26], &[2, 0, 4, 0]);
    assert_eq!(&frame[26..30], &[12, 0, 0, 0]);
    assert_eq!(&frame[34..38], &[9, 0, 0, 0]);
    assert_eq!(&frame[38..], &[0x05, 0xF0, 0, 0, 4, 0, 0, 0, 4, 0, 0, 0]);
}

fn answer_frame(cmd_payload: Response, invoke_id: u32, error: AdsError) -> AmsTcpHeader {
    let mut data = Vec::new();
    cmd_payload.write_to(&mut data);
    let header = AmsHeader {
        ams_address_targed: AmsAddress::new(AmsNetId::new(1, 1, 1, 1, 1, 1), 1),
        ams_address_source: AmsAddress::new(AmsNetId::new(2, 2, 2, 2, 1, 1), 851),
        command_id: cmd_payload.command_id(),
        state_flags: StateFlags::resp_default(),
        length: data.len() as u32,
        ads_error: error,
        invoke_id,
        data,
    };
    AmsTcpHeader::from(header)
}

#[test]
fn frames_are_routed_by_invoke_id_or_handle() {
    let reply = answer_frame(Response::Write(WriteResponse::new(AdsError::ErrNoError)), 77, AdsError::ErrNoError);
    match route_frame(&reply) {
        Route::Reply { invoke_id, outcome } => {
            assert_eq!(invoke_id, 77);
            assert_eq!(outcome, Ok(Response::Write(WriteResponse::new(AdsError::ErrNoError))));
        }
        _ => panic!("expected a reply"),
    }
    let failed = answer_frame(Response::Write(WriteResponse::new(AdsError::ErrNoError)), 78, AdsError::ErrPortNotConnected);
    match route_frame(&failed) {
        Route::Reply { invoke_id, outcome } => {
            assert_eq!(invoke_id, 78);
            assert_eq!(outcome, Err(ClientError::Device(AdsError::ErrPortNotConnected)));
        }
        _ => panic!("expected a reply"),
    }
    let stream = AdsNotificationStream::new(
        32,
        1,
        vec![AdsStampHeader::new(
            1,
            2,
            vec![AdsNotificationSample::new(3, vec![1, 2]), AdsNotificationSample::new(4, vec![5, 6])],
        )],
    );
    let push = answer_frame(Response::DeviceNotification(stream.clone()), 0, AdsError::ErrNoError);
    match route_frame(&push) {
        Route::Notify { handles, outcome } => {
            assert_eq!(handles, vec![3, 4]);
            assert_eq!(outcome, Ok(stream));
        }
        _ => panic!("expected a push"),
    }
    let mut broken = push.clone();
    broken.ams_header.data.truncate(10);
    assert!(matches!(route_frame(&broken), Route::Discard));
    let mut short = reply.clone();
    short.ams_header.data.clear();
    match route_frame(&short) {
        Route::Reply { outcome, .. } => assert_eq!(outcome, Err(ClientError::MalformedFrame)),
        _ => panic!("expected a reply"),
    }
}

#[test]
fn batched_reads_writes_and_lookups() {
    let mut cache = SymbolCache::new();
    let vars = vec![var("A", PlcTypes::UDInt), var("B", PlcTypes::Int), var("C", PlcTypes::Byte)];
    assert_eq!(sumup_read_request_for(&cache, &vars).unwrap_err(), ClientError::SymbolHandleMissing);
    let missing = missing_symbols(&cache, &vars);
    assert_eq!(missing, vec![0, 1, 2]);
    let lookup = sumup_symbol_lookup_request(&vars, &missing).unwrap();
    assert_eq!(lookup.index_offset, 3);
    assert_eq!(lookup.read_length, 36);
    let answers = SumupReadWriteResponse::new(vec![
        ReadResponse::new(AdsError::ErrNoError, 10u32.to_le_bytes().to_vec()),
        ReadResponse::new(AdsError::ErrNoError, 11u32.to_le_bytes().to_vec()),
        ReadResponse::new(AdsError::ErrNoError, 12u32.to_le_bytes().to_vec()),
    ]);
    let mut data = Vec::new();
    answers.write_to(&mut data);
    let outcome = Ok(Response::ReadWrite(ReadResponse::new(AdsError::ErrNoError, data)));
    complete_sumup_symbol_lookup(&mut cache, &vars, &missing, outcome).unwrap();
    assert_eq!(cache.lookup(&vars[1].name).unwrap().handle, 11);
    assert!(missing_symbols(&cache, &vars).is_empty());

    let read = sumup_read_request_for(&cache, &vars).unwrap();
    assert_eq!(read.index_offset, 3);
    assert_eq!(read.read_length, 8 * 3 + 4 + 2 + 1);

    let results = SumupReadWriteResponse::new(vec![
        ReadResponse::new(AdsError::ErrNoError, vec![1, 0, 0, 0]),
        ReadResponse::new(AdsError::AdsErrDeviceSymbolVersionInvalid, vec![]),
        ReadResponse::new(AdsError::ErrNoError, vec![3]),
    ]);
    let mut data = Vec::new();
    results.write_to(&mut data);
    let outcome = Ok(Response::ReadWrite(ReadResponse::new(AdsError::ErrNoError, data)));
    let back = complete_sumup_read(&mut cache, 3, outcome).unwrap();
    assert_eq!(back, results);
    // One stale sub-result invalidates every handle.
    assert!(cache.lookup(&vars[0].name).is_none());

    let mut cache = SymbolCache::new();
    let mut wvars = vars.clone();
    for (i, v) in wvars.iter_mut().enumerate() {
        v.data = vec![i as u8; i + 1];
        cache.insert(&v.name, SymbolHandle { handle: i as u32, plc_type: v.plc_type });
    }
    let write = sumup_write_request_for(&cache, &wvars).unwrap();
    assert_eq!(write.read_length, 12);
    assert_eq!(&write.data[36..], &[0, 1, 1, 2, 2, 2]);
    let outcome = Ok(Response::ReadWrite(ReadResponse::new(AdsError::ErrNoError, vec![0, 0, 0, 0, 3, 7, 0, 0, 0, 0, 0, 0])));
    let codes = complete_sumup_write(&mut cache, 3, outcome).unwrap();
    assert_eq!(codes, vec![AdsError::ErrNoError, AdsError::AdsErrDeviceInvalidOffset, AdsError::ErrNoError]);
    assert!(cache.lookup(&wvars[0].name).is_some());
}

#[test]
fn check_ads_error_maps_codes() {
    assert_eq!(check_ads_error(&AdsError::ErrNoError), Ok(()));
    assert_eq!(
        check_ads_error(&AdsError::ErrAccessDenied),
        Err(ClientError::Device(AdsError::ErrAccessDenied))
    );
    assert_eq!(AdsCommandId::from_u16(9), Some(AdsCommandId::ReadWrite));
    assert_eq!(AdsCommandId::from_u16(10), None);
}

//! The decisions of the client: which request each operation sends, how each
//! answer (or failure) is turned into a result, how the symbol handle cache
//! changes on the way, and where an incoming frame is delivered.
use crate::address::AmsAddress;
use crate::error::{AdsError, ClientError};
use crate::header::{encode_frame, AmsHeader, AmsHeaderModel, AmsTcpHeader, AmsTcpHeaderModel};
use crate::notification::{stamps_handles, AdsNotificationStream};
use crate::request::{
    encode_request, AddDeviceNotificationRequest, ReadRequest, ReadWriteRequest,
    ReadWriteRequestModel, Request, WriteRequest,
};
use crate::response::{parse_response, ReadDeviceInfoResponse, ReadResponseModel, ReadStateResponse, Response, ResponseModel};
use crate::session::{after_result, cache_lookup, SymbolCache, SymbolHandle};
use crate::sumup::{parse_sumup, sumup_read_request, sumup_read_write_request, sumup_write_request, SumupReadWriteResponse};
use crate::types::{
    AdsCommandId, AdsTransMode, StateFlags, Var, GET_SYMHANDLE_BY_NAME, MAX_SUMUP_COMMANDS,
    READ_WRITE_SYMVAL_BY_HANDLE,
};
use crate::wire::{get_u32, u32_at};
use vstd::prelude::*;

verus! {

/// The bytes that a variable name is sent as.
pub open spec fn name_bytes(name: Seq<char>) -> Seq<u8> {
    vstd::utf8::encode_utf8(name)
}

/// Success for the zero code, the device's condition otherwise.
pub fn check_ads_error(ads_error: &AdsError) -> (r: Result<(), ClientError>)
    ensures
        ads_error.code() == 0 ==> r is Ok,
        ads_error.code() != 0 ==> r == Err::<(), ClientError>(ClientError::Device(*ads_error)),
{
    if ads_error.is_ok() {
        Ok(())
    } else {
        Err(ClientError::Device(*ads_error))
    }
}

/// The device condition that an outcome reports, if any: a failed call that
/// the device answered, or an answer whose payload carries a nonzero code.
pub open spec fn reported_error(outcome: Result<Response, ClientError>) -> Option<AdsError> {
    match outcome {
        Err(ClientError::Device(e)) => Some(e),
        Err(_) => None,
        Ok(resp) => {
            let e = response_result(resp);
            if e.code() != 0 {
                Some(e)
            } else {
                None
            }
        },
    }
}

/// The result code in a response payload.
pub open spec fn response_result(resp: Response) -> AdsError {
    match resp {
        Response::ReadDeviceInfo(x) => x.result,
        Response::Read(x) => x.result,
        Response::Write(x) => x.result,
        Response::ReadState(x) => x.result,
        Response::WriteControl(x) => x.result,
        Response::AddDeviceNotification(x) => x.result,
        Response::DeleteDeviceNotification(x) => x.result,
        Response::DeviceNotification(_) => AdsError::ErrNoError,
        Response::ReadWrite(x) => x.result,
    }
}

/// The cache after an outcome: cleared when the device reported a changed
/// symbol version, as it is otherwise.
pub open spec fn cache_after(cache: Map<Seq<char>, SymbolHandle>, outcome: Result<Response, ClientError>) -> Map<
    Seq<char>,
    SymbolHandle,
> {
    match reported_error(outcome) {
        Some(e) => after_result(cache, e),
        None => cache,
    }
}

/// The payload of a successful answer, or the failure.
fn check_outcome(outcome: Result<Response, ClientError>) -> (r: Result<Response, ClientError>)
    ensures
        match reported_error(outcome) {
            Some(e) => r == Err::<Response, ClientError>(ClientError::Device(e)),
            None => r == outcome,
        },
{
    match outcome {
        Err(e) => Err(e),
        Ok(resp) => {
            let code = resp.result();
            if code.is_ok() {
                Ok(resp)
            } else {
                Err(ClientError::Device(code))
            }
        },
    }
}

/// Hands an outcome's device condition to the cache, then yields the
/// payload of a successful answer.
fn observe_outcome(cache: &mut SymbolCache, outcome: Result<Response, ClientError>) -> (r: Result<
    Response,
    ClientError,
>)
    ensures
        final(cache).view() == cache_after(old(cache).view(), outcome),
        match reported_error(outcome) {
            Some(e) => r == Err::<Response, ClientError>(ClientError::Device(e)),
            None => r == outcome,
        },
{
    match outcome {
        Err(e) => {
            if let ClientError::Device(code) = e {
                cache.observe_result(code);
            }
            Err(e)
        },
        Ok(resp) => {
            let code = resp.result();
            if code.is_ok() {
                Ok(resp)
            } else {
                cache.observe_result(code);
                Err(ClientError::Device(code))
            }
        },
    }
}

/// The request that asks the device for the handle of `name`.
pub fn symbol_lookup_request(name: &String) -> (r: ReadWriteRequest)
    requires
        name_bytes(name@).len() <= u32::MAX,
    ensures
        r@ == (ReadWriteRequestModel {
            index_group: GET_SYMHANDLE_BY_NAME,
            index_offset: 0,
            read_length: 4,
            write_length: name_bytes(name@).len() as u32,
            data: name_bytes(name@),
        }),
{
    let bytes = name.as_str().as_bytes();
    let data = vstd::slice::slice_to_vec(bytes);
    let write_length = data.len() as u32;
    ReadWriteRequest::new(GET_SYMHANDLE_BY_NAME, 0, 4, write_length, data)
}

/// The handle that the answer to a handle lookup carries.
pub open spec fn lookup_result(outcome: Result<Response, ClientError>) -> Result<u32, ClientError> {
    match reported_error(outcome) {
        Some(e) => Err(ClientError::Device(e)),
        None => match outcome {
            Err(e) => Err(e),
            Ok(Response::ReadWrite(r)) => if r.data@.len() >= 4 {
                Ok(u32_at(r.data@, 0))
            } else {
                Err(ClientError::MalformedFrame)
            },
            Ok(_) => Err(ClientError::MalformedFrame),
        },
    }
}

/// Completes a handle lookup for `var`: a handle that came back is cached
/// under the variable's name.
pub fn complete_symbol_lookup(
    cache: &mut SymbolCache,
    var: &Var,
    outcome: Result<Response, ClientError>,
) -> (r: Result<SymbolHandle, ClientError>)
    ensures
        match lookup_result(outcome) {
            Ok(h) => r == Ok::<SymbolHandle, ClientError>(SymbolHandle { handle: h, plc_type: var.plc_type })
                && final(cache).view() == old(cache).view().insert(
                var.name@,
                SymbolHandle { handle: h, plc_type: var.plc_type },
            ),
            Err(e) => r == Err::<SymbolHandle, ClientError>(e) && final(cache).view() == cache_after(
                old(cache).view(),
                outcome,
            ),
        },
{
    match observe_outcome(cache, outcome) {
        Err(e) => Err(e),
        Ok(Response::ReadWrite(resp)) => {
            if resp.data.len() < 4 {
                return Err(ClientError::MalformedFrame);
            }
            let handle = get_u32(resp.data.as_slice(), 0);
            let sym = SymbolHandle { handle, plc_type: var.plc_type };
            cache.insert(&var.name, sym);
            Ok(sym)
        },
        Ok(_) => Err(ClientError::MalformedFrame),
    }
}

/// The read that fetches the value of `var` by its cached handle.
pub fn read_request_for(cache: &SymbolCache, var: &Var) -> (r: Result<ReadRequest, ClientError>)
    ensures
        match cache_lookup(cache.view(), var.name@) {
            Some(h) => r == Ok::<ReadRequest, ClientError>(
                ReadRequest {
                    index_group: READ_WRITE_SYMVAL_BY_HANDLE,
                    index_offset: h.handle,
                    length: var.plc_type.byte_size() as u32,
                },
            ),
            None => r == Err::<ReadRequest, ClientError>(ClientError::SymbolHandleMissing),
        },
{
    match cache.lookup(&var.name) {
        Some(h) => Ok(ReadRequest::new(READ_WRITE_SYMVAL_BY_HANDLE, h.handle, var.plc_type.size() as u32)),
        None => Err(ClientError::SymbolHandleMissing),
    }
}

/// The bytes that the answer to a read carries.
pub open spec fn read_result(outcome: Result<Response, ClientError>) -> Result<Seq<u8>, ClientError> {
    match reported_error(outcome) {
        Some(e) => Err(ClientError::Device(e)),
        None => match outcome {
            Err(e) => Err(e),
            Ok(Response::Read(r)) => Ok(r.data@),
            Ok(_) => Err(ClientError::MalformedFrame),
        },
    }
}

/// Completes a read by handle. A changed symbol version reported by the
/// device leaves the cache empty.
pub fn complete_read(cache: &mut SymbolCache, outcome: Result<Response, ClientError>) -> (r: Result<
    Vec<u8>,
    ClientError,
>)
    ensures
        final(cache).view() == cache_after(old(cache).view(), outcome),
        match read_result(outcome) {
            Ok(d) => r matches Ok(v) && v@ == d,
            Err(e) => r == Err::<Vec<u8>, ClientError>(e),
        },
{
    match observe_outcome(cache, outcome) {
        Err(e) => Err(e),
        Ok(Response::Read(resp)) => Ok(resp.data),
        Ok(_) => Err(ClientError::MalformedFrame),
    }
}

/// The write that stores `data` into `var` by its cached handle.
pub fn write_request_for(cache: &SymbolCache, var: &Var, data: Vec<u8>) -> (r: Result<
    WriteRequest,
    ClientError,
>)
    requires
        data@.len() <= u32::MAX,
    ensures
        match cache_lookup(cache.view(), var.name@) {
            Some(h) => r matches Ok(w) && w@ == (crate::request::WriteRequestModel {
                index_group: READ_WRITE_SYMVAL_BY_HANDLE,
                index_offset: h.handle,
                length: data@.len() as u32,
                data: data@,
            }),
            None => r == Err::<WriteRequest, ClientError>(ClientError::SymbolHandleMissing),
        },
{
    match cache.lookup(&var.name) {
        Some(h) => {
            let length = data.len() as u32;
            Ok(WriteRequest::new(READ_WRITE_SYMVAL_BY_HANDLE, h.handle, length, data))
        },
        None => Err(ClientError::SymbolHandleMissing),
    }
}

/// What the answer to a command with no result data gives.
pub open spec fn ack_result(outcome: Result<Response, ClientError>, cmd: AdsCommandId) -> Result<
    (),
    ClientError,
> {
    match reported_error(outcome) {
        Some(e) => Err(ClientError::Device(e)),
        None => match outcome {
            Err(e) => Err(e),
            Ok(resp) => if resp@.command_id() == cmd {
                Ok(())
            } else {
                Err(ClientError::MalformedFrame)
            },
        },
    }
}

/// Completes a write by handle. A changed symbol version reported by the
/// device leaves the cache empty.
pub fn complete_write(cache: &mut SymbolCache, outcome: Result<Response, ClientError>) -> (r: Result<
    (),
    ClientError,
>)
    ensures
        final(cache).view() == cache_after(old(cache).view(), outcome),
        r == ack_result(outcome, AdsCommandId::Write),
{
    match observe_outcome(cache, outcome) {
        Err(e) => Err(e),
        Ok(Response::Write(_)) => Ok(()),
        Ok(_) => Err(ClientError::MalformedFrame),
    }
}

/// Completes a write-control.
pub fn complete_write_control(outcome: Result<Response, ClientError>) -> (r: Result<(), ClientError>)
    ensures
        r == ack_result(outcome, AdsCommandId::WriteControl),
{
    match check_outcome(outcome) {
        Err(e) => Err(e),
        Ok(Response::WriteControl(_)) => Ok(()),
        Ok(_) => Err(ClientError::MalformedFrame),
    }
}

/// Completes the end of a subscription.
pub fn complete_delete_notification(outcome: Result<Response, ClientError>) -> (r: Result<
    (),
    ClientError,
>)
    ensures
        r == ack_result(outcome, AdsCommandId::DeleteDeviceNotification),
{
    match check_outcome(outcome) {
        Err(e) => Err(e),
        Ok(Response::DeleteDeviceNotification(_)) => Ok(()),
        Ok(_) => Err(ClientError::MalformedFrame),
    }
}

/// The notification handle that the answer to a subscription carries.
pub open spec fn subscription_result(outcome: Result<Response, ClientError>) -> Result<u32, ClientError> {
    match reported_error(outcome) {
        Some(e) => Err(ClientError::Device(e)),
        None => match outcome {
            Err(e) => Err(e),
            Ok(Response::AddDeviceNotification(r)) => Ok(r.notification_handle),
            Ok(_) => Err(ClientError::MalformedFrame),
        },
    }
}

/// The notification handle in an answer to a subscription, read without
/// touching the cache, so that the subscription can be activated before any
/// later frame is dispatched.
pub fn subscription_handle(outcome: &Result<Response, ClientError>) -> (r: Result<u32, ClientError>)
    ensures
        r == subscription_result(*outcome),
{
    match outcome {
        Err(e) => Err(*e),
        Ok(resp) => {
            let code = resp.result();
            if !code.is_ok() {
                return Err(ClientError::Device(code));
            }
            match resp {
                Response::AddDeviceNotification(x) => Ok(x.notification_handle),
                _ => Err(ClientError::MalformedFrame),
            }
        },
    }
}

/// Completes a subscription, giving the handle its pushes will carry.
pub fn complete_add_notification(cache: &mut SymbolCache, outcome: Result<Response, ClientError>) -> (r:
    Result<u32, ClientError>)
    ensures
        final(cache).view() == cache_after(old(cache).view(), outcome),
        r == subscription_result(outcome),
{
    match observe_outcome(cache, outcome) {
        Err(e) => Err(e),
        Ok(Response::AddDeviceNotification(resp)) => Ok(resp.notification_handle),
        Ok(_) => Err(ClientError::MalformedFrame),
    }
}

/// The subscription request for a resolved variable.
pub fn add_notification_request_for(
    sym: SymbolHandle,
    trans_mode: AdsTransMode,
    max_delay: u32,
    cycle_time: u32,
) -> (r: AddDeviceNotificationRequest)
    ensures
        r == (AddDeviceNotificationRequest {
            index_group: READ_WRITE_SYMVAL_BY_HANDLE,
            index_offset: sym.handle,
            length: sym.plc_type.byte_size() as u32,
            transmission_mode: trans_mode,
            max_delay,
            cycle_time,
        }),
{
    AddDeviceNotificationRequest::new(
        READ_WRITE_SYMVAL_BY_HANDLE,
        sym.handle,
        sym.plc_type.size() as u32,
        trans_mode,
        max_delay,
        cycle_time,
    )
}

/// Completes a device-info read.
pub fn complete_read_device_info(outcome: Result<Response, ClientError>) -> (r: Result<
    ReadDeviceInfoResponse,
    ClientError,
>)
    ensures
        match reported_error(outcome) {
            Some(e) => r == Err::<ReadDeviceInfoResponse, ClientError>(ClientError::Device(e)),
            None => match outcome {
                Err(e) => r == Err::<ReadDeviceInfoResponse, ClientError>(e),
                Ok(Response::ReadDeviceInfo(x)) => r == Ok::<ReadDeviceInfoResponse, ClientError>(x),
                Ok(_) => r == Err::<ReadDeviceInfoResponse, ClientError>(ClientError::MalformedFrame),
            },
        },
{
    match check_outcome(outcome) {
        Err(e) => Err(e),
        Ok(Response::ReadDeviceInfo(x)) => Ok(x),
        Ok(_) => Err(ClientError::MalformedFrame),
    }
}

/// Completes a run-state read.
pub fn complete_read_state(outcome: Result<Response, ClientError>) -> (r: Result<
    ReadStateResponse,
    ClientError,
>)
    ensures
        match reported_error(outcome) {
            Some(e) => r == Err::<ReadStateResponse, ClientError>(ClientError::Device(e)),
            None => match outcome {
                Err(e) => r == Err::<ReadStateResponse, ClientError>(e),
                Ok(Response::ReadState(x)) => r == Ok::<ReadStateResponse, ClientError>(x),
                Ok(_) => r == Err::<ReadStateResponse, ClientError>(ClientError::MalformedFrame),
            },
        },
{
    match check_outcome(outcome) {
        Err(e) => Err(e),
        Ok(Response::ReadState(x)) => Ok(x),
        Ok(_) => Err(ClientError::MalformedFrame),
    }
}

/// The bytes of a request frame: a transport header, an AMS header with the
/// request flags and no error, and the request payload.
pub fn request_frame(target: AmsAddress, source: AmsAddress, invoke_id: u32, request: Request) -> (r:
    Vec<u8>)
    requires
        encode_request(request@).len() + 32 <= u32::MAX,
    ensures
        r@ == encode_frame(
            AmsTcpHeaderModel {
                reserved: seq![0u8, 0u8],
                length: (32 + encode_request(request@).len()) as u32,
                header: AmsHeaderModel {
                    target: target@,
                    source: source@,
                    command_id: request@.command_id(),
                    state_flags: 4,
                    length: encode_request(request@).len() as u32,
                    error_code: 0,
                    invoke_id,
                    data: encode_request(request@),
                },
            },
        ),
{
    let header = AmsHeader::new(target, source, StateFlags::req_default(), invoke_id, request);
    let frame = AmsTcpHeader::from(header);
    let mut out: Vec<u8> = Vec::new();
    frame.write_to(&mut out);
    assert(out@ =~= encode_frame(frame@));
    out
}

/// Where an incoming frame goes.
pub enum Route {
    /// To the call waiting under `invoke_id`.
    Reply { invoke_id: u32, outcome: Result<Response, ClientError> },
    /// To the subscription of each handle, in sample order.
    Notify { handles: Vec<u32>, outcome: Result<AdsNotificationStream, ClientError> },
    /// Nowhere: a push that could not be decoded.
    Discard,
}

/// Decides where a frame read from the connection is delivered. A push goes
/// to the subscriptions of the handles it carries; any other frame goes to
/// the call with its correlation id, with the device's error if the header
/// carries one, or a decoding failure if its payload is malformed.
pub fn route_frame(frame: &AmsTcpHeader) -> (r: Route)
    ensures
        frame.ams_header.command_id == AdsCommandId::DeviceNotification ==> match parse_response(
            AdsCommandId::DeviceNotification,
            frame.ams_header.data@,
        ) {
            Some(ResponseModel::DeviceNotification(m)) => r matches Route::Notify { handles, outcome }
                && handles@ == stamps_handles(m.ads_stamp_headers) && (if frame.ams_header.ads_error.code()
                == 0 {
                outcome matches Ok(s) && s@ == m
            } else {
                outcome == Err::<AdsNotificationStream, ClientError>(
                    ClientError::Device(frame.ams_header.ads_error),
                )
            }),
            _ => r is Discard,
        },
        frame.ams_header.command_id != AdsCommandId::DeviceNotification ==> (r matches Route::Reply {
            invoke_id,
            outcome,
        } && invoke_id == frame.ams_header.invoke_id && (if frame.ams_header.ads_error.code() != 0 {
            outcome == Err::<Response, ClientError>(ClientError::Device(frame.ams_header.ads_error))
        } else {
            match parse_response(frame.ams_header.command_id, frame.ams_header.data@) {
                Some(m) => outcome matches Ok(v) && v@ == m && v.has_named_result(),
                None => outcome == Err::<Response, ClientError>(ClientError::MalformedFrame),
            }
        })),
{
    let header = &frame.ams_header;
    let error = header.ads_error;
    match header.command_id {
        AdsCommandId::DeviceNotification => {
            match AdsNotificationStream::read_from(header.data.as_slice()) {
                Err(_) => Route::Discard,
                Ok(stream) => {
                    let handles = stream.notification_handles();
                    if error.is_ok() {
                        Route::Notify { handles, outcome: Ok(stream) }
                    } else {
                        Route::Notify { handles, outcome: Err(ClientError::Device(error)) }
                    }
                },
            }
        },
        _ => {
            let invoke_id = header.invoke_id;
            if !error.is_ok() {
                return Route::Reply { invoke_id, outcome: Err(ClientError::Device(error)) };
            }
            match header.response() {
                Ok(resp) => Route::Reply { invoke_id, outcome: Ok(resp) },
                Err(_) => Route::Reply { invoke_id, outcome: Err(ClientError::MalformedFrame) },
            }
        },
    }
}

// Batches.

/// Whether every variable has a cached handle.
pub open spec fn all_cached(cache: Map<Seq<char>, SymbolHandle>, vars: Seq<Var>) -> bool {
    forall|k: int| 0 <= k < vars.len() ==> cache.contains_key(#[trigger] vars[k].name@)
}

/// The read of each variable by its cached handle, in order.
pub open spec fn reads_for(cache: Map<Seq<char>, SymbolHandle>, vars: Seq<Var>) -> Seq<ReadRequest> {
    Seq::new(
        vars.len(),
        |k: int|
            ReadRequest {
                index_group: READ_WRITE_SYMVAL_BY_HANDLE,
                index_offset: cache[vars[k].name@].handle,
                length: vars[k].plc_type.byte_size() as u32,
            },
    )
}

proof fn lemma_read_answer_small(rs: Seq<ReadRequest>)
    requires
        forall|k: int| 0 <= k < rs.len() ==> (#[trigger] rs[k]).length <= 8,
    ensures
        crate::sumup::read_answer_len(rs) <= 16 * rs.len(),
    decreases rs.len(),
{
    if rs.len() > 0 {
        let init = rs.drop_last();
        assert forall|k: int| 0 <= k < init.len() implies (#[trigger] init[k]).length <= 8 by {
            assert(init[k] == rs[k]);
        }
        lemma_read_answer_small(init);
    }
}

/// Packs reads of every variable by its cached handle into one batch.
pub fn sumup_read_request_for(cache: &SymbolCache, vars: &Vec<Var>) -> (r: Result<
    ReadWriteRequest,
    ClientError,
>)
    ensures
        !all_cached(cache.view(), vars@) ==> r == Err::<ReadWriteRequest, ClientError>(
            ClientError::SymbolHandleMissing,
        ),
        all_cached(cache.view(), vars@) && vars@.len() > MAX_SUMUP_COMMANDS ==> r == Err::<
            ReadWriteRequest,
            ClientError,
        >(ClientError::BatchTooLarge),
        all_cached(cache.view(), vars@) && vars@.len() <= MAX_SUMUP_COMMANDS ==> (r matches Ok(q) && {
            let reads = reads_for(cache.view(), vars@);
            q@ == (ReadWriteRequestModel {
                index_group: crate::types::SUMUP_READ_EX,
                index_offset: vars@.len() as u32,
                read_length: crate::sumup::read_answer_len(reads) as u32,
                write_length: crate::sumup::encode_read_heads(reads).len() as u32,
                data: crate::sumup::encode_read_heads(reads),
            })
        }),
{
    let n = vars.len();
    let mut reads: Vec<ReadRequest> = Vec::new();
    let mut i: usize = 0;
    while i < n
        invariant
            n == vars@.len(),
            i <= n,
            reads@.len() == i,
            forall|k: int| 0 <= k < i ==> cache.view().contains_key(#[trigger] vars@[k].name@),
            forall|k: int|
                0 <= k < i ==> #[trigger] reads@[k] == reads_for(cache.view(), vars@)[k],
        decreases n - i,
    {
        match read_request_for(cache, &vars[i]) {
            Ok(q) => reads.push(q),
            Err(e) => return Err(e),
        }
        i = i + 1;
    }
    assert(reads@ =~= reads_for(cache.view(), vars@));
    if n > MAX_SUMUP_COMMANDS {
        return Err(ClientError::BatchTooLarge);
    }
    proof {
        lemma_read_answer_small(reads@);
    }
    sumup_read_request(&reads)
}

/// Whether a sub-result code reports a changed symbol version.
pub open spec fn some_invalidates(rs: Seq<ReadResponseModel>) -> bool {
    exists|k: int|
        0 <= k < rs.len() && (#[trigger] rs[k]).result
            == AdsError::AdsErrDeviceSymbolVersionInvalid.code()
}

/// The sub-results that the answer to a batch of `count` carries.
pub open spec fn sumup_result(outcome: Result<Response, ClientError>, count: nat) -> Result<
    Seq<ReadResponseModel>,
    ClientError,
> {
    match reported_error(outcome) {
        Some(e) => Err(ClientError::Device(e)),
        None => match outcome {
            Err(e) => Err(e),
            Ok(Response::ReadWrite(r)) => match parse_sumup(r.data@, count) {
                Some(rs) => Ok(rs),
                None => Err(ClientError::MalformedFrame),
            },
            Ok(_) => Err(ClientError::MalformedFrame),
        },
    }
}

/// Completes a batch of reads: the sub-results in the order of the reads.
/// A changed symbol version reported for the batch or for any sub-result
/// leaves the cache empty.
pub fn complete_sumup_read(
    cache: &mut SymbolCache,
    count: usize,
    outcome: Result<Response, ClientError>,
) -> (r: Result<SumupReadWriteResponse, ClientError>)
    ensures
        match sumup_result(outcome, count as nat) {
            Ok(rs) => r matches Ok(v) && v@ == rs && final(cache).view() == (if some_invalidates(rs) {
                Map::<Seq<char>, SymbolHandle>::empty()
            } else {
                old(cache).view()
            }),
            Err(e) => r == Err::<SumupReadWriteResponse, ClientError>(e) && final(cache).view()
                == cache_after(old(cache).view(), outcome),
        },
        r matches Ok(v) ==> v@.len() == count && forall|k: int|
            0 <= k < count ==> (#[trigger] v.read_write_responses@[k]).result == AdsError::from_code(
                v.read_write_responses@[k].result.code(),
            ),
{
    let resp = match observe_outcome(cache, outcome) {
        Err(e) => return Err(e),
        Ok(Response::ReadWrite(resp)) => resp,
        Ok(_) => return Err(ClientError::MalformedFrame),
    };
    let results = match SumupReadWriteResponse::read_from(resp.data.as_slice(), count) {
        Ok(v) => v,
        Err(_) => return Err(ClientError::MalformedFrame),
    };
    let ghost rs = results@;
    let ghost start = cache.view();
    let mut i: usize = 0;
    while i < results.read_write_responses.len()
        invariant
            rs == results@,
            i <= rs.len(),
            cache.view() == (if some_invalidates(rs.subrange(0, i as int)) {
                Map::<Seq<char>, SymbolHandle>::empty()
            } else {
                start
            }),
        decreases rs.len() - i,
    {
        let code = results.read_write_responses[i].result;
        let ghost prefix = rs.subrange(0, i + 1);
        assert(prefix[i as int] == rs[i as int]);
        assert(forall|k: int| 0 <= k < i ==> #[trigger] prefix[k] == rs.subrange(0, i as int)[k]);
        if code.as_u32() == AdsError::AdsErrDeviceSymbolVersionInvalid.as_u32() {
            assert(some_invalidates(prefix));
        } else {
            assert(some_invalidates(prefix) == some_invalidates(rs.subrange(0, i as int)));
        }
        cache.observe_result(code);
        i = i + 1;
    }
    assert(rs.subrange(0, i as int) =~= rs);
    Ok(results)
}

/// The write of each variable's value by its cached handle, in order.
pub open spec fn writes_for(cache: Map<Seq<char>, SymbolHandle>, vars: Seq<Var>) -> Seq<
    crate::request::WriteRequestModel,
> {
    Seq::new(
        vars.len(),
        |k: int|
            crate::request::WriteRequestModel {
                index_group: READ_WRITE_SYMVAL_BY_HANDLE,
                index_offset: cache[vars[k].name@].handle,
                length: vars[k].data@.len() as u32,
                data: vars[k].data@,
            },
    )
}

/// Packs writes of every variable's value by its cached handle into one
/// batch.
pub fn sumup_write_request_for(cache: &SymbolCache, vars: &Vec<Var>) -> (r: Result<
    ReadWriteRequest,
    ClientError,
>)
    requires
        forall|k: int| 0 <= k < vars@.len() ==> (#[trigger] vars@[k]).data@.len() <= u32::MAX,
        crate::sumup::encode_write_heads(writes_for(cache.view(), vars@)).len()
            + crate::sumup::encode_write_data(writes_for(cache.view(), vars@)).len() <= u32::MAX,
    ensures
        !all_cached(cache.view(), vars@) ==> r == Err::<ReadWriteRequest, ClientError>(
            ClientError::SymbolHandleMissing,
        ),
        all_cached(cache.view(), vars@) && vars@.len() > MAX_SUMUP_COMMANDS ==> r == Err::<
            ReadWriteRequest,
            ClientError,
        >(ClientError::BatchTooLarge),
        all_cached(cache.view(), vars@) && vars@.len() <= MAX_SUMUP_COMMANDS ==> (r matches Ok(q) && {
            let ws = writes_for(cache.view(), vars@);
            let payload = crate::sumup::encode_write_heads(ws) + crate::sumup::encode_write_data(ws);
            q@ == (ReadWriteRequestModel {
                index_group: crate::types::SUMUP_WRITE,
                index_offset: vars@.len() as u32,
                read_length: (4 * vars@.len()) as u32,
                write_length: payload.len() as u32,
                data: payload,
            })
        }),
{
    let n = vars.len();
    let mut writes: Vec<WriteRequest> = Vec::new();
    let mut i: usize = 0;
    while i < n
        invariant
            n == vars@.len(),
            i <= n,
            forall|k: int| 0 <= k < vars@.len() ==> (#[trigger] vars@[k]).data@.len() <= u32::MAX,
            writes@.len() == i,
            forall|k: int| 0 <= k < i ==> cache.view().contains_key(#[trigger] vars@[k].name@),
            forall|k: int|
                0 <= k < i ==> (#[trigger] writes@[k])@ == writes_for(cache.view(), vars@)[k],
        decreases n - i,
    {
        let data = vars[i].data.clone();
        assert(data@ == vars@[i as int].data@);
        match write_request_for(cache, &vars[i], data) {
            Ok(q) => writes.push(q),
            Err(e) => return Err(e),
        }
        i = i + 1;
    }
    assert(writes@.map_values(|w: WriteRequest| w@) =~= writes_for(cache.view(), vars@));
    sumup_write_request(&writes)
}

/// Whether any code reports a changed symbol version.
pub open spec fn any_invalidates(codes: Seq<AdsError>) -> bool {
    exists|k: int|
        0 <= k < codes.len() && (#[trigger] codes[k]).code()
            == AdsError::AdsErrDeviceSymbolVersionInvalid.code()
}

/// Completes a batch of writes: one result code per write, in order. A
/// changed symbol version reported for the batch or for any write leaves the
/// cache empty.
pub fn complete_sumup_write(
    cache: &mut SymbolCache,
    count: usize,
    outcome: Result<Response, ClientError>,
) -> (r: Result<Vec<AdsError>, ClientError>)
    ensures
        reported_error(outcome) is Some ==> r == Err::<Vec<AdsError>, ClientError>(
            ClientError::Device(reported_error(outcome)->Some_0),
        ) && final(cache).view() == cache_after(old(cache).view(), outcome),
        reported_error(outcome) is None ==> match outcome {
            Err(e) => r == Err::<Vec<AdsError>, ClientError>(e) && final(cache).view() == old(
                cache,
            ).view(),
            Ok(Response::ReadWrite(x)) => if x.data@.len() >= 4 * count {
                r matches Ok(v) && v@.len() == count && (forall|k: int|
                    0 <= k < count ==> (#[trigger] v@[k]) == AdsError::from_code(u32_at(x.data@, 4 * k)))
                    && final(cache).view() == (if any_invalidates(v@) {
                    Map::<Seq<char>, SymbolHandle>::empty()
                } else {
                    old(cache).view()
                })
            } else {
                r == Err::<Vec<AdsError>, ClientError>(ClientError::MalformedFrame)
                    && final(cache).view() == old(cache).view()
            },
            Ok(_) => r == Err::<Vec<AdsError>, ClientError>(ClientError::MalformedFrame)
                && final(cache).view() == old(cache).view(),
        },
{
    let resp = match observe_outcome(cache, outcome) {
        Err(e) => return Err(e),
        Ok(Response::ReadWrite(resp)) => resp,
        Ok(_) => return Err(ClientError::MalformedFrame),
    };
    let codes = match crate::sumup::read_sumup_write_results(resp.data.as_slice(), count) {
        Ok(v) => v,
        Err(_) => return Err(ClientError::MalformedFrame),
    };
    let ghost start = cache.view();
    let mut i: usize = 0;
    while i < codes.len()
        invariant
            i <= codes@.len(),
            codes@.len() == count,
            cache.view() == (if any_invalidates(codes@.subrange(0, i as int)) {
                Map::<Seq<char>, SymbolHandle>::empty()
            } else {
                start
            }),
        decreases codes@.len() - i,
    {
        let code = codes[i];
        proof {
            let prefix = codes@.subrange(0, i + 1);
            assert(prefix[i as int] == code);
            assert(forall|k: int| 0 <= k < i ==> #[trigger] prefix[k] == codes@.subrange(0, i as int)[k]);
            if code.code() == AdsError::AdsErrDeviceSymbolVersionInvalid.code() {
                assert(any_invalidates(prefix));
            } else {
                assert(any_invalidates(prefix) == any_invalidates(codes@.subrange(0, i as int)));
            }
        }
        cache.observe_result(code);
        i = i + 1;
    }
    assert(codes@.subrange(0, i as int) =~= codes@);
    Ok(codes)
}

/// The indices of the variables without a cached handle, in order.
pub open spec fn missing_indices(cache: Map<Seq<char>, SymbolHandle>, vars: Seq<Var>, n: nat) -> Seq<
    usize,
>
    decreases n,
{
    if n == 0 {
        Seq::empty()
    } else {
        let prev = missing_indices(cache, vars, (n - 1) as nat);
        if cache.contains_key(vars[n - 1].name@) {
            prev
        } else {
            prev.push((n - 1) as usize)
        }
    }
}

/// The indices of the variables that still need a handle from the device.
pub fn missing_symbols(cache: &SymbolCache, vars: &Vec<Var>) -> (r: Vec<usize>)
    ensures
        r@ == missing_indices(cache.view(), vars@, vars@.len()),
{
    let mut out: Vec<usize> = Vec::new();
    let mut i: usize = 0;
    while i < vars.len()
        invariant
            i <= vars@.len(),
            out@ == missing_indices(cache.view(), vars@, i as nat),
        decreases vars@.len() - i,
    {
        if cache.lookup(&vars[i].name).is_none() {
            out.push(i);
        }
        i = i + 1;
    }
    out
}

/// The handle lookup of each chosen variable, in order.
pub open spec fn lookups_for(vars: Seq<Var>, idx: Seq<usize>) -> Seq<ReadWriteRequestModel> {
    Seq::new(
        idx.len(),
        |k: int|
            ReadWriteRequestModel {
                index_group: GET_SYMHANDLE_BY_NAME,
                index_offset: 0,
                read_length: 4,
                write_length: name_bytes(vars[idx[k] as int].name@).len() as u32,
                data: name_bytes(vars[idx[k] as int].name@),
            },
    )
}

proof fn lemma_lookup_answer_len(ws: Seq<ReadWriteRequestModel>)
    requires
        forall|k: int| 0 <= k < ws.len() ==> (#[trigger] ws[k]).read_length == 4,
    ensures
        crate::sumup::read_write_answer_len(ws) == 12 * ws.len(),
    decreases ws.len(),
{
    if ws.len() > 0 {
        let init = ws.drop_last();
        assert forall|k: int| 0 <= k < init.len() implies (#[trigger] init[k]).read_length == 4 by {
            assert(init[k] == ws[k]);
        }
        lemma_lookup_answer_len(init);
    }
}

/// Packs the handle lookups of the chosen variables into one batch.
pub fn sumup_symbol_lookup_request(vars: &Vec<Var>, missing: &Vec<usize>) -> (r: Result<
    ReadWriteRequest,
    ClientError,
>)
    requires
        forall|k: int| 0 <= k < missing@.len() ==> (#[trigger] missing@[k]) < vars@.len(),
        forall|k: int|
            0 <= k < vars@.len() ==> name_bytes((#[trigger] vars@[k]).name@).len() <= u32::MAX,
        crate::sumup::encode_read_write_heads(lookups_for(vars@, missing@)).len()
            + crate::sumup::encode_read_write_data(lookups_for(vars@, missing@)).len() <= u32::MAX,
    ensures
        missing@.len() > MAX_SUMUP_COMMANDS ==> r == Err::<ReadWriteRequest, ClientError>(
            ClientError::BatchTooLarge,
        ),
        missing@.len() <= MAX_SUMUP_COMMANDS ==> (r matches Ok(q) && {
            let ws = lookups_for(vars@, missing@);
            let payload = crate::sumup::encode_read_write_heads(ws)
                + crate::sumup::encode_read_write_data(ws);
            q@ == (ReadWriteRequestModel {
                index_group: crate::types::SUMUP_READ_WRITE,
                index_offset: missing@.len() as u32,
                read_length: (12 * missing@.len()) as u32,
                write_length: payload.len() as u32,
                data: payload,
            })
        }),
{
    let n = missing.len();
    if n > MAX_SUMUP_COMMANDS {
        return Err(ClientError::BatchTooLarge);
    }
    let mut lookups: Vec<ReadWriteRequest> = Vec::new();
    let mut i: usize = 0;
    while i < n
        invariant
            n == missing@.len(),
            i <= n,
            forall|k: int| 0 <= k < missing@.len() ==> (#[trigger] missing@[k]) < vars@.len(),
            forall|k: int|
                0 <= k < vars@.len() ==> name_bytes((#[trigger] vars@[k]).name@).len() <= u32::MAX,
            lookups@.len() == i,
            forall|k: int|
                0 <= k < i ==> (#[trigger] lookups@[k])@ == lookups_for(vars@, missing@)[k],
        decreases n - i,
    {
        let idx = missing[i];
        lookups.push(symbol_lookup_request(&vars[idx].name));
        i = i + 1;
    }
    let ghost ws = lookups@.map_values(|w: ReadWriteRequest| w@);
    assert(ws =~= lookups_for(vars@, missing@));
    proof {
        lemma_lookup_answer_len(ws);
    }
    sumup_read_write_request(&lookups)
}

/// The first reason a batch of handle lookups failed, if any: a nonzero
/// code, or an answer shorter than a handle.
pub open spec fn lookup_sub_error(rs: Seq<ReadResponseModel>) -> Option<ClientError>
    decreases rs.len(),
{
    if rs.len() == 0 {
        None
    } else {
        match lookup_sub_error(rs.drop_last()) {
            Some(e) => Some(e),
            None => if rs.last().result != 0 {
                Some(ClientError::Device(AdsError::from_code(rs.last().result)))
            } else if rs.last().data.len() < 4 {
                Some(ClientError::MalformedFrame)
            } else {
                None
            },
        }
    }
}

/// The cache after the handles of a batch were stored, in order.
pub open spec fn with_handles(
    cache: Map<Seq<char>, SymbolHandle>,
    vars: Seq<Var>,
    idx: Seq<usize>,
    rs: Seq<ReadResponseModel>,
    n: nat,
) -> Map<Seq<char>, SymbolHandle>
    decreases n,
{
    if n == 0 {
        cache
    } else {
        let k = n - 1;
        with_handles(cache, vars, idx, rs, (n - 1) as nat).insert(
            vars[idx[k] as int].name@,
            SymbolHandle { handle: u32_at(rs[k].data, 0), plc_type: vars[idx[k] as int].plc_type },
        )
    }
}

/// Completes a batch of handle lookups for the chosen variables: when every
/// sub-result carries a handle, each is cached under its variable's name;
/// otherwise nothing is cached, and a changed symbol version reported
/// anywhere leaves the cache empty.
pub fn complete_sumup_symbol_lookup(
    cache: &mut SymbolCache,
    vars: &Vec<Var>,
    missing: &Vec<usize>,
    outcome: Result<Response, ClientError>,
) -> (r: Result<(), ClientError>)
    requires
        forall|k: int| 0 <= k < missing@.len() ==> (#[trigger] missing@[k]) < vars@.len(),
    ensures
        match sumup_result(outcome, missing@.len()) {
            Err(e) => r == Err::<(), ClientError>(e) && final(cache).view() == cache_after(
                old(cache).view(),
                outcome,
            ),
            Ok(rs) => match lookup_sub_error(rs) {
                Some(e) => r == Err::<(), ClientError>(e) && final(cache).view() == (if some_invalidates(
                    rs,
                ) {
                    Map::<Seq<char>, SymbolHandle>::empty()
                } else {
                    old(cache).view()
                }),
                None => r is Ok && final(cache).view() == with_handles(
                    old(cache).view(),
                    vars@,
                    missing@,
                    rs,
                    rs.len(),
                ),
            },
        },
{
    let n = missing.len();
    let results = match complete_sumup_read(cache, n, outcome) {
        Ok(v) => v,
        Err(e) => return Err(e),
    };
    let ghost rs = results@;
    let ghost whole = sumup_result(outcome, n as nat);
    assert(whole == Ok::<Seq<ReadResponseModel>, ClientError>(rs));
    let mut i: usize = 0;
    while i < n
        invariant
            whole == sumup_result(outcome, missing@.len()),
            whole == Ok::<Seq<ReadResponseModel>, ClientError>(rs),
            n == missing@.len(),
            rs == results@,
            rs.len() == n,
            i <= n,
            lookup_sub_error(rs.subrange(0, i as int)) is None,
            forall|k: int| 0 <= k < i ==> (#[trigger] rs[k]).data.len() >= 4,
            cache.view() == (if some_invalidates(rs) {
                Map::<Seq<char>, SymbolHandle>::empty()
            } else {
                old(cache).view()
            }),
        decreases n - i,
    {
        let sub = &results.read_write_responses[i];
        assert(rs[i as int] == sub@);
        let ghost prefix = rs.subrange(0, i + 1);
        assert(prefix.drop_last() =~= rs.subrange(0, i as int));
        assert(prefix.last() == rs[i as int]);
        if !sub.result.is_ok() {
            proof {
                assert(lookup_sub_error(prefix.drop_last()) is None);
                assert(lookup_sub_error(prefix) == Some(
                    ClientError::Device(AdsError::from_code(rs[i as int].result)),
                ));
                lemma_sub_error_stays(rs, i + 1);
                assert(rs.subrange(0, n as int) =~= rs);
            }
            return Err(ClientError::Device(AdsError::from_u32(sub.result.as_u32())));
        }
        if sub.data.len() < 4 {
            proof {
                assert(lookup_sub_error(prefix.drop_last()) is None);
                assert(lookup_sub_error(prefix) == Some(ClientError::MalformedFrame));
                lemma_sub_error_stays(rs, i + 1);
                assert(rs.subrange(0, n as int) =~= rs);
            }
            return Err(ClientError::MalformedFrame);
        }
        i = i + 1;
    }
    assert(rs.subrange(0, n as int) =~= rs);
    assert(!some_invalidates(rs)) by {
        if some_invalidates(rs) {
            let k = choose|k: int|
                0 <= k < rs.len() && (#[trigger] rs[k]).result
                    == AdsError::AdsErrDeviceSymbolVersionInvalid.code();
            lemma_no_sub_error_means_ok(rs, k);
        }
    }
    let ghost start = cache.view();
    let mut j: usize = 0;
    while j < n
        invariant
            n == missing@.len(),
            rs == results@,
            rs.len() == n,
            j <= n,
            forall|k: int| 0 <= k < missing@.len() ==> (#[trigger] missing@[k]) < vars@.len(),
            forall|k: int| 0 <= k < n ==> (#[trigger] rs[k]).data.len() >= 4,
            cache.view() == with_handles(start, vars@, missing@, rs, j as nat),
        decreases n - j,
    {
        let var = &vars[missing[j]];
        assert(rs[j as int] == results.read_write_responses@[j as int]@);
        let handle = get_u32(results.read_write_responses[j].data.as_slice(), 0);
        cache.insert(&var.name, SymbolHandle { handle, plc_type: var.plc_type });
        j = j + 1;
    }
    Ok(())
}

proof fn lemma_no_sub_error_means_ok(rs: Seq<ReadResponseModel>, k: int)
    requires
        0 <= k < rs.len(),
        lookup_sub_error(rs) is None,
    ensures
        rs[k].result == 0,
    decreases rs.len(),
{
    if k < rs.len() - 1 {
        assert(rs.drop_last()[k] == rs[k]);
        lemma_no_sub_error_means_ok(rs.drop_last(), k);
    }
}

proof fn lemma_sub_error_stays(rs: Seq<ReadResponseModel>, i: int)
    requires
        0 <= i <= rs.len(),
        lookup_sub_error(rs.subrange(0, i)) is Some,
    ensures
        lookup_sub_error(rs) == lookup_sub_error(rs.subrange(0, i)),
    decreases rs.len() - i,
{
    if i < rs.len() {
        assert(rs.subrange(0, i + 1).drop_last() =~= rs.subrange(0, i));
        lemma_sub_error_stays(rs, i + 1);
    } else {
        assert(rs.subrange(0, i) =~= rs);
    }
}

} // verus!

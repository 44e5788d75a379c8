//! Response payloads: one type per command, and their wire layout. A result
//! code is modelled by its 32-bit value.
use crate::error::{AdsError, MalformedFrame};
use crate::notification::{encode_stream, lemma_stream_round_trip, parse_stream, AdsNotificationStream, StreamModel};
use crate::types::{AdsCommandId, AdsState};
use crate::wire::{
    get_bytes, get_u16, get_u32, lemma_u16_round_trip, lemma_u32_round_trip, put_bytes, put_u16,
    put_u32, u16_at, u16_le, u32_at, u32_le,
};
use vstd::prelude::*;

verus! {

/// The name and version of a device.
#[derive(Debug, Clone, Copy, PartialEq, Eq)]
pub struct ReadDeviceInfoResponse {
    pub result: AdsError,
    pub major_version: u8,
    pub minor_version: u8,
    pub version_build: u16,
    pub device_name: [u8; 16],
}

/// The outcome of a write.
#[derive(Debug, Clone, Copy, PartialEq, Eq, Structural)]
pub struct WriteResponse {
    pub result: AdsError,
}

/// The run state of a device.
#[derive(Debug, Clone, Copy, PartialEq, Eq, Structural)]
pub struct ReadStateResponse {
    pub result: AdsError,
    pub ads_state: AdsState,
    pub device_state: u16,
}

/// The outcome of a write-control.
#[derive(Debug, Clone, Copy, PartialEq, Eq, Structural)]
pub struct WriteControlResponse {
    pub result: AdsError,
}

/// The outcome of a subscription, with the handle its pushes will carry.
#[derive(Debug, Clone, Copy, PartialEq, Eq, Structural)]
pub struct AddDeviceNotificationResponse {
    pub result: AdsError,
    pub notification_handle: u32,
}

/// The outcome of ending a subscription.
#[derive(Debug, Clone, Copy, PartialEq, Eq, Structural)]
pub struct DeleteDeviceNotificationResponse {
    pub result: AdsError,
}

/// The outcome of a read or read-write, with the bytes read.
#[derive(Debug, Clone, PartialEq, Eq)]
pub struct ReadResponse {
    pub result: AdsError,
    pub length: u32,
    pub data: Vec<u8>,
}

/// A read-write answers with the layout of a read.
pub type ReadWriteResponse = ReadResponse;

pub struct DeviceInfoModel {
    pub result: u32,
    pub major_version: u8,
    pub minor_version: u8,
    pub version_build: u16,
    pub device_name: Seq<u8>,
}

pub struct ReadStateModel {
    pub result: u32,
    pub ads_state: AdsState,
    pub device_state: u16,
}

pub struct AddNotificationModel {
    pub result: u32,
    pub notification_handle: u32,
}

pub struct ReadResponseModel {
    pub result: u32,
    pub length: u32,
    pub data: Seq<u8>,
}

impl View for ReadDeviceInfoResponse {
    type V = DeviceInfoModel;

    open spec fn view(&self) -> DeviceInfoModel {
        DeviceInfoModel {
            result: self.result.code(),
            major_version: self.major_version,
            minor_version: self.minor_version,
            version_build: self.version_build,
            device_name: self.device_name@,
        }
    }
}

impl View for WriteResponse {
    type V = u32;

    open spec fn view(&self) -> u32 {
        self.result.code()
    }
}

impl View for WriteControlResponse {
    type V = u32;

    open spec fn view(&self) -> u32 {
        self.result.code()
    }
}

impl View for DeleteDeviceNotificationResponse {
    type V = u32;

    open spec fn view(&self) -> u32 {
        self.result.code()
    }
}

impl View for ReadStateResponse {
    type V = ReadStateModel;

    open spec fn view(&self) -> ReadStateModel {
        ReadStateModel {
            result: self.result.code(),
            ads_state: self.ads_state,
            device_state: self.device_state,
        }
    }
}

impl View for AddDeviceNotificationResponse {
    type V = AddNotificationModel;

    open spec fn view(&self) -> AddNotificationModel {
        AddNotificationModel {
            result: self.result.code(),
            notification_handle: self.notification_handle,
        }
    }
}

impl View for ReadResponse {
    type V = ReadResponseModel;

    open spec fn view(&self) -> ReadResponseModel {
        ReadResponseModel { result: self.result.code(), length: self.length, data: self.data@ }
    }
}

impl ReadResponseModel {
    /// The declared length is the length of the data.
    pub open spec fn wf(self) -> bool {
        self.length == self.data.len()
    }
}

impl DeviceInfoModel {
    pub open spec fn wf(self) -> bool {
        self.device_name.len() == 16
    }
}

// Wire layouts.

pub open spec fn encode_device_info(m: DeviceInfoModel) -> Seq<u8> {
    u32_le(m.result) + seq![m.major_version, m.minor_version] + u16_le(m.version_build)
        + m.device_name
}

pub open spec fn encode_result(code: u32) -> Seq<u8> {
    u32_le(code)
}

pub open spec fn encode_read_state(m: ReadStateModel) -> Seq<u8> {
    u32_le(m.result) + u16_le(m.ads_state.value()) + u16_le(m.device_state)
}

pub open spec fn encode_add_notification(m: AddNotificationModel) -> Seq<u8> {
    u32_le(m.result) + u32_le(m.notification_handle)
}

pub open spec fn encode_read_response(m: ReadResponseModel) -> Seq<u8> {
    u32_le(m.result) + u32_le(m.length) + m.data
}

// Parsers: each reads from the start of a payload and stops at its declared
// size.

pub open spec fn parse_device_info(b: Seq<u8>) -> Option<DeviceInfoModel> {
    if b.len() >= 24 {
        Some(
            DeviceInfoModel {
                result: u32_at(b, 0),
                major_version: b[4],
                minor_version: b[5],
                version_build: u16_at(b, 6),
                device_name: b.subrange(8, 24),
            },
        )
    } else {
        None
    }
}

pub open spec fn parse_result(b: Seq<u8>) -> Option<u32> {
    if b.len() >= 4 {
        Some(u32_at(b, 0))
    } else {
        None
    }
}

pub open spec fn parse_read_state(b: Seq<u8>) -> Option<ReadStateModel> {
    if b.len() >= 8 && AdsState::from_value(u16_at(b, 4)) is Some {
        Some(
            ReadStateModel {
                result: u32_at(b, 0),
                ads_state: AdsState::from_value(u16_at(b, 4))->Some_0,
                device_state: u16_at(b, 6),
            },
        )
    } else {
        None
    }
}

pub open spec fn parse_add_notification(b: Seq<u8>) -> Option<AddNotificationModel> {
    if b.len() >= 8 {
        Some(AddNotificationModel { result: u32_at(b, 0), notification_handle: u32_at(b, 4) })
    } else {
        None
    }
}

/// A read response: result, length, then exactly `length` bytes of data.
pub open spec fn parse_read_response(b: Seq<u8>) -> Option<ReadResponseModel> {
    if b.len() >= 8 && 8 + u32_at(b, 4) <= b.len() {
        Some(
            ReadResponseModel {
                result: u32_at(b, 0),
                length: u32_at(b, 4),
                data: b.subrange(8, 8 + u32_at(b, 4)),
            },
        )
    } else {
        None
    }
}

fn read_result(b: &[u8]) -> (r: Result<AdsError, MalformedFrame>)
    ensures
        match parse_result(b@) {
            Some(c) => r matches Ok(e) && e.code() == c && e == AdsError::from_code(c),
            None => r is Err,
        },
{
    if b.len() < 4 {
        return Err(MalformedFrame);
    }
    Ok(AdsError::from_u32(get_u32(b, 0)))
}

impl ReadDeviceInfoResponse {
    pub fn new(
        result: AdsError,
        major_version: u8,
        minor_version: u8,
        version_build: u16,
        device_name: [u8; 16],
    ) -> (r: Self)
        ensures
            r.result == result,
            r.major_version == major_version,
            r.minor_version == minor_version,
            r.version_build == version_build,
            r.device_name@ == device_name@,
    {
        ReadDeviceInfoResponse { result, major_version, minor_version, version_build, device_name }
    }

    pub fn write_to(&self, out: &mut Vec<u8>)
        ensures
            final(out)@ == old(out)@ + encode_device_info(self@),
    {
        let ghost start = out@;
        put_u32(out, self.result.as_u32());
        out.push(self.major_version);
        out.push(self.minor_version);
        put_u16(out, self.version_build);
        put_bytes(out, vstd::array::array_as_slice(&self.device_name));
        assert(out@ =~= start + encode_device_info(self@));
    }

    pub fn read_from(b: &[u8]) -> (r: Result<Self, MalformedFrame>)
        ensures
            match parse_device_info(b@) {
                Some(m) => r matches Ok(v) && v@ == m,
                None => r is Err,
            },
            r matches Ok(v) ==> v.result == AdsError::from_code(v.result.code()),
    {
        if b.len() < 24 {
            return Err(MalformedFrame);
        }
        let mut device_name: [u8; 16] = [0; 16];
        let mut i: usize = 0;
        while i < 16
            invariant
                i <= 16,
                b@.len() >= 24,
                forall|k: int| 0 <= k < i ==> device_name@[k] == b@[8 + k],
            decreases 16 - i,
        {
            device_name[i] = b[8 + i];
            i = i + 1;
        }
        assert(device_name@ =~= b@.subrange(8, 24));
        Ok(
            ReadDeviceInfoResponse {
                result: AdsError::from_u32(get_u32(b, 0)),
                major_version: b[4],
                minor_version: b[5],
                version_build: get_u16(b, 6),
                device_name,
            },
        )
    }
}

impl WriteResponse {
    pub fn new(result: AdsError) -> (r: Self)
        ensures
            r.result == result,
    {
        WriteResponse { result }
    }

    pub fn write_to(&self, out: &mut Vec<u8>)
        ensures
            final(out)@ == old(out)@ + encode_result(self@),
    {
        put_u32(out, self.result.as_u32());
    }

    pub fn read_from(b: &[u8]) -> (r: Result<Self, MalformedFrame>)
        ensures
            match parse_result(b@) {
                Some(m) => r matches Ok(v) && v@ == m,
                None => r is Err,
            },
            r matches Ok(v) ==> v.result == AdsError::from_code(v.result.code()),
    {
        match read_result(b) {
            Ok(result) => Ok(WriteResponse { result }),
            Err(e) => Err(e),
        }
    }
}

impl WriteControlResponse {
    pub fn new(result: AdsError) -> (r: Self)
        ensures
            r.result == result,
    {
        WriteControlResponse { result }
    }

    pub fn write_to(&self, out: &mut Vec<u8>)
        ensures
            final(out)@ == old(out)@ + encode_result(self@),
    {
        put_u32(out, self.result.as_u32());
    }

    pub fn read_from(b: &[u8]) -> (r: Result<Self, MalformedFrame>)
        ensures
            match parse_result(b@) {
                Some(m) => r matches Ok(v) && v@ == m,
                None => r is Err,
            },
            r matches Ok(v) ==> v.result == AdsError::from_code(v.result.code()),
    {
        match read_result(b) {
            Ok(result) => Ok(WriteControlResponse { result }),
            Err(e) => Err(e),
        }
    }
}

impl DeleteDeviceNotificationResponse {
    pub fn new(result: AdsError) -> (r: Self)
        ensures
            r.result == result,
    {
        DeleteDeviceNotificationResponse { result }
    }

    pub fn write_to(&self, out: &mut Vec<u8>)
        ensures
            final(out)@ == old(out)@ + encode_result(self@),
    {
        put_u32(out, self.result.as_u32());
    }

    pub fn read_from(b: &[u8]) -> (r: Result<Self, MalformedFrame>)
        ensures
            match parse_result(b@) {
                Some(m) => r matches Ok(v) && v@ == m,
                None => r is Err,
            },
            r matches Ok(v) ==> v.result == AdsError::from_code(v.result.code()),
    {
        match read_result(b) {
            Ok(result) => Ok(DeleteDeviceNotificationResponse { result }),
            Err(e) => Err(e),
        }
    }
}

impl ReadStateResponse {
    pub fn new(result: AdsError, ads_state: AdsState, device_state: u16) -> (r: Self)
        ensures
            r == (ReadStateResponse { result, ads_state, device_state }),
    {
        ReadStateResponse { result, ads_state, device_state }
    }

    pub fn write_to(&self, out: &mut Vec<u8>)
        ensures
            final(out)@ == old(out)@ + encode_read_state(self@),
    {
        let ghost start = out@;
        put_u32(out, self.result.as_u32());
        put_u16(out, AdsState::get_value(self.ads_state));
        put_u16(out, self.device_state);
        assert(out@ =~= start + encode_read_state(self@));
    }

    pub fn read_from(b: &[u8]) -> (r: Result<Self, MalformedFrame>)
        ensures
            match parse_read_state(b@) {
                Some(m) => r matches Ok(v) && v@ == m,
                None => r is Err,
            },
            r matches Ok(v) ==> v.result == AdsError::from_code(v.result.code()),
    {
        if b.len() < 8 {
            return Err(MalformedFrame);
        }
        let ads_state = match AdsState::from_u16(get_u16(b, 4)) {
            Some(s) => s,
            None => return Err(MalformedFrame),
        };
        Ok(
            ReadStateResponse {
                result: AdsError::from_u32(get_u32(b, 0)),
                ads_state,
                device_state: get_u16(b, 6),
            },
        )
    }
}

impl AddDeviceNotificationResponse {
    pub fn new(result: AdsError, notification_handle: u32) -> (r: Self)
        ensures
            r == (AddDeviceNotificationResponse { result, notification_handle }),
    {
        AddDeviceNotificationResponse { result, notification_handle }
    }

    pub fn write_to(&self, out: &mut Vec<u8>)
        ensures
            final(out)@ == old(out)@ + encode_add_notification(self@),
    {
        let ghost start = out@;
        put_u32(out, self.result.as_u32());
        put_u32(out, self.notification_handle);
        assert(out@ =~= start + encode_add_notification(self@));
    }

    pub fn read_from(b: &[u8]) -> (r: Result<Self, MalformedFrame>)
        ensures
            match parse_add_notification(b@) {
                Some(m) => r matches Ok(v) && v@ == m,
                None => r is Err,
            },
            r matches Ok(v) ==> v.result == AdsError::from_code(v.result.code()),
    {
        if b.len() < 8 {
            return Err(MalformedFrame);
        }
        Ok(
            AddDeviceNotificationResponse {
                result: AdsError::from_u32(get_u32(b, 0)),
                notification_handle: get_u32(b, 4),
            },
        )
    }
}

impl ReadResponse {
    /// A response whose declared length is the length of `data`.
    pub fn new(result: AdsError, data: Vec<u8>) -> (r: Self)
        requires
            data@.len() <= u32::MAX,
        ensures
            r.result == result,
            r@ == (ReadResponseModel { result: result.code(), length: data@.len() as u32, data: data@ }),
            r@.wf(),
    {
        let length = data.len() as u32;
        ReadResponse { result, length, data }
    }

    pub fn write_to(&self, out: &mut Vec<u8>)
        ensures
            final(out)@ == old(out)@ + encode_read_response(self@),
    {
        let ghost start = out@;
        put_u32(out, self.result.as_u32());
        put_u32(out, self.length);
        put_bytes(out, self.data.as_slice());
        assert(out@ =~= start + encode_read_response(self@));
    }

    pub fn read_from(b: &[u8]) -> (r: Result<Self, MalformedFrame>)
        ensures
            match parse_read_response(b@) {
                Some(m) => r matches Ok(v) && v@ == m,
                None => r is Err,
            },
            r matches Ok(v) ==> v.result == AdsError::from_code(v.result.code()),
    {
        let n = b.len();
        if n < 8 {
            return Err(MalformedFrame);
        }
        let length = get_u32(b, 4);
        if ((n - 8) as u64) < length as u64 {
            return Err(MalformedFrame);
        }
        Ok(
            ReadResponse {
                result: AdsError::from_u32(get_u32(b, 0)),
                length,
                data: get_bytes(b, 8, 8 + length as usize),
            },
        )
    }
}

/// A response payload of any command.
#[derive(Debug, Clone, PartialEq, Eq)]
pub enum Response {
    ReadDeviceInfo(ReadDeviceInfoResponse),
    Read(ReadResponse),
    Write(WriteResponse),
    ReadState(ReadStateResponse),
    WriteControl(WriteControlResponse),
    AddDeviceNotification(AddDeviceNotificationResponse),
    DeleteDeviceNotification(DeleteDeviceNotificationResponse),
    DeviceNotification(AdsNotificationStream),
    ReadWrite(ReadResponse),
}

/// The meaning of a response payload.
pub enum ResponseModel {
    ReadDeviceInfo(DeviceInfoModel),
    Read(ReadResponseModel),
    Write(u32),
    ReadState(ReadStateModel),
    WriteControl(u32),
    AddDeviceNotification(AddNotificationModel),
    DeleteDeviceNotification(u32),
    DeviceNotification(StreamModel),
    ReadWrite(ReadResponseModel),
}

impl View for Response {
    type V = ResponseModel;

    open spec fn view(&self) -> ResponseModel {
        match self {
            Response::ReadDeviceInfo(r) => ResponseModel::ReadDeviceInfo(r@),
            Response::Read(r) => ResponseModel::Read(r@),
            Response::Write(r) => ResponseModel::Write(r@),
            Response::ReadState(r) => ResponseModel::ReadState(r@),
            Response::WriteControl(r) => ResponseModel::WriteControl(r@),
            Response::AddDeviceNotification(r) => ResponseModel::AddDeviceNotification(r@),
            Response::DeleteDeviceNotification(r) => ResponseModel::DeleteDeviceNotification(r@),
            Response::DeviceNotification(r) => ResponseModel::DeviceNotification(r@),
            Response::ReadWrite(r) => ResponseModel::ReadWrite(r@),
        }
    }
}

impl ResponseModel {
    /// The command whose answer this is.
    pub open spec fn command_id(self) -> AdsCommandId {
        match self {
            ResponseModel::ReadDeviceInfo(_) => AdsCommandId::ReadDeviceInfo,
            ResponseModel::Read(_) => AdsCommandId::Read,
            ResponseModel::Write(_) => AdsCommandId::Write,
            ResponseModel::ReadState(_) => AdsCommandId::ReadState,
            ResponseModel::WriteControl(_) => AdsCommandId::WriteControl,
            ResponseModel::AddDeviceNotification(_) => AdsCommandId::AddDeviceNotification,
            ResponseModel::DeleteDeviceNotification(_) => AdsCommandId::DeleteDeviceNotification,
            ResponseModel::DeviceNotification(_) => AdsCommandId::DeviceNotification,
            ResponseModel::ReadWrite(_) => AdsCommandId::ReadWrite,
        }
    }

    /// Structurally valid: declared lengths match the data they declare.
    pub open spec fn wf(self) -> bool {
        match self {
            ResponseModel::ReadDeviceInfo(m) => m.wf(),
            ResponseModel::Read(m) => m.wf(),
            ResponseModel::DeviceNotification(m) => m.wf(),
            ResponseModel::ReadWrite(m) => m.wf(),
            _ => true,
        }
    }
}

/// The payload bytes of a response.
pub open spec fn encode_response(m: ResponseModel) -> Seq<u8> {
    match m {
        ResponseModel::ReadDeviceInfo(r) => encode_device_info(r),
        ResponseModel::Read(r) => encode_read_response(r),
        ResponseModel::Write(c) => encode_result(c),
        ResponseModel::ReadState(r) => encode_read_state(r),
        ResponseModel::WriteControl(c) => encode_result(c),
        ResponseModel::AddDeviceNotification(r) => encode_add_notification(r),
        ResponseModel::DeleteDeviceNotification(c) => encode_result(c),
        ResponseModel::DeviceNotification(r) => encode_stream(r),
        ResponseModel::ReadWrite(r) => encode_read_response(r),
    }
}

/// The response that a payload holds, read as the answer to command `cmd`;
/// the invalid command has no response.
pub open spec fn parse_response(cmd: AdsCommandId, b: Seq<u8>) -> Option<ResponseModel> {
    match cmd {
        AdsCommandId::Invalid => None,
        AdsCommandId::ReadDeviceInfo => match parse_device_info(b) {
            Some(r) => Some(ResponseModel::ReadDeviceInfo(r)),
            None => None,
        },
        AdsCommandId::Read => match parse_read_response(b) {
            Some(r) => Some(ResponseModel::Read(r)),
            None => None,
        },
        AdsCommandId::Write => match parse_result(b) {
            Some(c) => Some(ResponseModel::Write(c)),
            None => None,
        },
        AdsCommandId::ReadState => match parse_read_state(b) {
            Some(r) => Some(ResponseModel::ReadState(r)),
            None => None,
        },
        AdsCommandId::WriteControl => match parse_result(b) {
            Some(c) => Some(ResponseModel::WriteControl(c)),
            None => None,
        },
        AdsCommandId::AddDeviceNotification => match parse_add_notification(b) {
            Some(r) => Some(ResponseModel::AddDeviceNotification(r)),
            None => None,
        },
        AdsCommandId::DeleteDeviceNotification => match parse_result(b) {
            Some(c) => Some(ResponseModel::DeleteDeviceNotification(c)),
            None => None,
        },
        AdsCommandId::DeviceNotification => match parse_stream(b) {
            Some(r) => Some(ResponseModel::DeviceNotification(r)),
            None => None,
        },
        AdsCommandId::ReadWrite => match parse_read_response(b) {
            Some(r) => Some(ResponseModel::ReadWrite(r)),
            None => None,
        },
    }
}

impl Response {
    /// The result in the payload is the condition its code names.
    pub open spec fn has_named_result(self) -> bool {
        match self {
            Response::ReadDeviceInfo(x) => x.result == AdsError::from_code(x.result.code()),
            Response::Read(x) => x.result == AdsError::from_code(x.result.code()),
            Response::Write(x) => x.result == AdsError::from_code(x.result.code()),
            Response::ReadState(x) => x.result == AdsError::from_code(x.result.code()),
            Response::WriteControl(x) => x.result == AdsError::from_code(x.result.code()),
            Response::AddDeviceNotification(x) => x.result == AdsError::from_code(x.result.code()),
            Response::DeleteDeviceNotification(x) => x.result == AdsError::from_code(
                x.result.code(),
            ),
            Response::DeviceNotification(_) => true,
            Response::ReadWrite(x) => x.result == AdsError::from_code(x.result.code()),
        }
    }

    pub fn command_id(&self) -> (r: AdsCommandId)
        ensures
            r == self@.command_id(),
    {
        match self {
            Response::ReadDeviceInfo(_) => AdsCommandId::ReadDeviceInfo,
            Response::Read(_) => AdsCommandId::Read,
            Response::Write(_) => AdsCommandId::Write,
            Response::ReadState(_) => AdsCommandId::ReadState,
            Response::WriteControl(_) => AdsCommandId::WriteControl,
            Response::AddDeviceNotification(_) => AdsCommandId::AddDeviceNotification,
            Response::DeleteDeviceNotification(_) => AdsCommandId::DeleteDeviceNotification,
            Response::DeviceNotification(_) => AdsCommandId::DeviceNotification,
            Response::ReadWrite(_) => AdsCommandId::ReadWrite,
        }
    }

    /// Appends the payload bytes.
    pub fn write_to(&self, out: &mut Vec<u8>)
        ensures
            final(out)@ == old(out)@ + encode_response(self@),
    {
        match self {
            Response::ReadDeviceInfo(r) => r.write_to(out),
            Response::Read(r) => r.write_to(out),
            Response::Write(r) => r.write_to(out),
            Response::ReadState(r) => r.write_to(out),
            Response::WriteControl(r) => r.write_to(out),
            Response::AddDeviceNotification(r) => r.write_to(out),
            Response::DeleteDeviceNotification(r) => r.write_to(out),
            Response::DeviceNotification(r) => r.write_to(out),
            Response::ReadWrite(r) => r.write_to(out),
        }
    }

    /// Reads the payload of an answer to command `cmd`.
    pub fn read_from(cmd: AdsCommandId, b: &[u8]) -> (r: Result<Response, MalformedFrame>)
        ensures
            match parse_response(cmd, b@) {
                Some(m) => r matches Ok(v) && v@ == m,
                None => r is Err,
            },
            r matches Ok(v) ==> v.has_named_result(),
    {
        match cmd {
            AdsCommandId::Invalid => Err(MalformedFrame),
            AdsCommandId::ReadDeviceInfo => match ReadDeviceInfoResponse::read_from(b) {
                Ok(r) => Ok(Response::ReadDeviceInfo(r)),
                Err(e) => Err(e),
            },
            AdsCommandId::Read => match ReadResponse::read_from(b) {
                Ok(r) => Ok(Response::Read(r)),
                Err(e) => Err(e),
            },
            AdsCommandId::Write => match WriteResponse::read_from(b) {
                Ok(r) => Ok(Response::Write(r)),
                Err(e) => Err(e),
            },
            AdsCommandId::ReadState => match ReadStateResponse::read_from(b) {
                Ok(r) => Ok(Response::ReadState(r)),
                Err(e) => Err(e),
            },
            AdsCommandId::WriteControl => match WriteControlResponse::read_from(b) {
                Ok(r) => Ok(Response::WriteControl(r)),
                Err(e) => Err(e),
            },
            AdsCommandId::AddDeviceNotification => match AddDeviceNotificationResponse::read_from(b) {
                Ok(r) => Ok(Response::AddDeviceNotification(r)),
                Err(e) => Err(e),
            },
            AdsCommandId::DeleteDeviceNotification => match DeleteDeviceNotificationResponse::read_from(
                b,
            ) {
                Ok(r) => Ok(Response::DeleteDeviceNotification(r)),
                Err(e) => Err(e),
            },
            AdsCommandId::DeviceNotification => match AdsNotificationStream::read_from(b) {
                Ok(r) => Ok(Response::DeviceNotification(r)),
                Err(e) => Err(e),
            },
            AdsCommandId::ReadWrite => match ReadResponse::read_from(b) {
                Ok(r) => Ok(Response::ReadWrite(r)),
                Err(e) => Err(e),
            },
        }
    }

    /// The result code that the device reported in the payload.
    pub fn result(&self) -> (r: AdsError)
        ensures
            match self {
                Response::ReadDeviceInfo(x) => r == x.result,
                Response::Read(x) => r == x.result,
                Response::Write(x) => r == x.result,
                Response::ReadState(x) => r == x.result,
                Response::WriteControl(x) => r == x.result,
                Response::AddDeviceNotification(x) => r == x.result,
                Response::DeleteDeviceNotification(x) => r == x.result,
                Response::DeviceNotification(_) => r == AdsError::ErrNoError,
                Response::ReadWrite(x) => r == x.result,
            },
    {
        match self {
            Response::ReadDeviceInfo(x) => x.result,
            Response::Read(x) => x.result,
            Response::Write(x) => x.result,
            Response::ReadState(x) => x.result,
            Response::WriteControl(x) => x.result,
            Response::AddDeviceNotification(x) => x.result,
            Response::DeleteDeviceNotification(x) => x.result,
            Response::DeviceNotification(_) => AdsError::ErrNoError,
            Response::ReadWrite(x) => x.result,
        }
    }
}

/// Decoding the encoding of any structurally valid response, as the answer
/// to its own command, gives the response back.
pub proof fn lemma_response_round_trip(m: ResponseModel)
    requires
        m.wf(),
    ensures
        parse_response(m.command_id(), encode_response(m)) == Some(m),
{
    let b = encode_response(m);
    match m {
        ResponseModel::ReadDeviceInfo(r) => {
            assert(b.subrange(0, 4) =~= u32_le(r.result));
            lemma_u32_round_trip(b, 0, r.result);
            assert(b.subrange(6, 8) =~= u16_le(r.version_build));
            lemma_u16_round_trip(b, 6, r.version_build);
            assert(b.subrange(8, 24) =~= r.device_name);
        },
        ResponseModel::Read(r) => {
            assert(b.subrange(0, 4) =~= u32_le(r.result));
            assert(b.subrange(4, 8) =~= u32_le(r.length));
            lemma_u32_round_trip(b, 0, r.result);
            lemma_u32_round_trip(b, 4, r.length);
            assert(b.subrange(8, 8 + r.length) =~= r.data);
        },
        ResponseModel::ReadWrite(r) => {
            assert(b.subrange(0, 4) =~= u32_le(r.result));
            assert(b.subrange(4, 8) =~= u32_le(r.length));
            lemma_u32_round_trip(b, 0, r.result);
            lemma_u32_round_trip(b, 4, r.length);
            assert(b.subrange(8, 8 + r.length) =~= r.data);
        },
        ResponseModel::Write(c) => {
            assert(b.subrange(0, 4) =~= u32_le(c));
            lemma_u32_round_trip(b, 0, c);
        },
        ResponseModel::WriteControl(c) => {
            assert(b.subrange(0, 4) =~= u32_le(c));
            lemma_u32_round_trip(b, 0, c);
        },
        ResponseModel::DeleteDeviceNotification(c) => {
            assert(b.subrange(0, 4) =~= u32_le(c));
            lemma_u32_round_trip(b, 0, c);
        },
        ResponseModel::ReadState(r) => {
            assert(b.subrange(0, 4) =~= u32_le(r.result));
            assert(b.subrange(4, 6) =~= u16_le(r.ads_state.value()));
            assert(b.subrange(6, 8) =~= u16_le(r.device_state));
            lemma_u32_round_trip(b, 0, r.result);
            lemma_u16_round_trip(b, 4, r.ads_state.value());
            lemma_u16_round_trip(b, 6, r.device_state);
        },
        ResponseModel::AddDeviceNotification(r) => {
            assert(b.subrange(0, 4) =~= u32_le(r.result));
            assert(b.subrange(4, 8) =~= u32_le(r.notification_handle));
            lemma_u32_round_trip(b, 0, r.result);
            lemma_u32_round_trip(b, 4, r.notification_handle);
        },
        ResponseModel::DeviceNotification(r) => {
            lemma_stream_round_trip(r);
        },
    }
}

} // verus!

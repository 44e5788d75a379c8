//! Request payloads: one type per command, and their wire layout.
use crate::error::MalformedFrame;
use crate::types::{AdsCommandId, AdsState, AdsTransMode};
use crate::wire::{lemma_u16_round_trip, lemma_u32_round_trip, get_bytes, get_u16, get_u32, put_bytes, put_u16, put_u32, u16_at, u16_le, u32_at, u32_le};
use vstd::prelude::*;

verus! {

/// Request of the invalid command; it has no payload.
#[derive(Debug, Clone, Copy, PartialEq, Eq, Structural)]
pub struct InvalidRequest {}

/// Request of the device name and version; it has no payload.
#[derive(Debug, Clone, Copy, PartialEq, Eq, Structural)]
pub struct ReadDeviceInfoRequest {}

/// Request of the run state; it has no payload.
#[derive(Debug, Clone, Copy, PartialEq, Eq, Structural)]
pub struct ReadStateRequest {}

/// A notification push in the request direction; it has no payload.
#[derive(Debug, Clone, Copy, PartialEq, Eq, Structural)]
pub struct DeviceNotificationRequest {}

/// Read `length` bytes at an index group and offset.
#[derive(Debug, Clone, Copy, PartialEq, Eq, Structural)]
pub struct ReadRequest {
    pub index_group: u32,
    pub index_offset: u32,
    pub length: u32,
}

/// Write `data` at an index group and offset.
#[derive(Debug, Clone, PartialEq, Eq)]
pub struct WriteRequest {
    pub index_group: u32,
    pub index_offset: u32,
    pub length: u32,
    pub data: Vec<u8>,
}

/// Change the run state of a device.
#[derive(Debug, Clone, PartialEq, Eq)]
pub struct WriteControlRequest {
    pub ads_state: AdsState,
    pub device_state: u16,
    pub length: u32,
    pub data: Vec<u8>,
}

/// Subscribe to changes of `length` bytes at an index group and offset.
#[derive(Debug, Clone, Copy, PartialEq, Eq, Structural)]
pub struct AddDeviceNotificationRequest {
    pub index_group: u32,
    pub index_offset: u32,
    pub length: u32,
    pub transmission_mode: AdsTransMode,
    pub max_delay: u32,
    pub cycle_time: u32,
}

/// End the subscription with the given notification handle.
#[derive(Debug, Clone, Copy, PartialEq, Eq, Structural)]
pub struct DeleteDeviceNotificationRequest {
    pub handle: u32,
}

/// Write `data` and read back `read_length` bytes in one exchange.
#[derive(Debug, Clone, PartialEq, Eq)]
pub struct ReadWriteRequest {
    pub index_group: u32,
    pub index_offset: u32,
    pub read_length: u32,
    pub write_length: u32,
    pub data: Vec<u8>,
}

/// The meaning of a write request.
pub struct WriteRequestModel {
    pub index_group: u32,
    pub index_offset: u32,
    pub length: u32,
    pub data: Seq<u8>,
}

/// The meaning of a write-control request.
pub struct WriteControlRequestModel {
    pub ads_state: AdsState,
    pub device_state: u16,
    pub length: u32,
    pub data: Seq<u8>,
}

/// The meaning of a read-write request.
pub struct ReadWriteRequestModel {
    pub index_group: u32,
    pub index_offset: u32,
    pub read_length: u32,
    pub write_length: u32,
    pub data: Seq<u8>,
}

impl View for WriteRequest {
    type V = WriteRequestModel;

    open spec fn view(&self) -> WriteRequestModel {
        WriteRequestModel {
            index_group: self.index_group,
            index_offset: self.index_offset,
            length: self.length,
            data: self.data@,
        }
    }
}

impl View for WriteControlRequest {
    type V = WriteControlRequestModel;

    open spec fn view(&self) -> WriteControlRequestModel {
        WriteControlRequestModel {
            ads_state: self.ads_state,
            device_state: self.device_state,
            length: self.length,
            data: self.data@,
        }
    }
}

impl View for ReadWriteRequest {
    type V = ReadWriteRequestModel;

    open spec fn view(&self) -> ReadWriteRequestModel {
        ReadWriteRequestModel {
            index_group: self.index_group,
            index_offset: self.index_offset,
            read_length: self.read_length,
            write_length: self.write_length,
            data: self.data@,
        }
    }
}

// Wire layouts.

pub open spec fn encode_read_request(r: ReadRequest) -> Seq<u8> {
    u32_le(r.index_group) + u32_le(r.index_offset) + u32_le(r.length)
}

pub open spec fn encode_write_request(m: WriteRequestModel) -> Seq<u8> {
    u32_le(m.index_group) + u32_le(m.index_offset) + u32_le(m.length) + m.data
}

pub open spec fn encode_write_control_request(m: WriteControlRequestModel) -> Seq<u8> {
    u16_le(m.ads_state.value()) + u16_le(m.device_state) + u32_le(m.length) + m.data
}

/// The sixteen reserved bytes that close an add-notification request.
pub open spec fn reserved_bytes() -> Seq<u8> {
    Seq::new(16, |i: int| 0u8)
}

pub open spec fn encode_add_notification_request(r: AddDeviceNotificationRequest) -> Seq<u8> {
    u32_le(r.index_group) + u32_le(r.index_offset) + u32_le(r.length) + u32_le(
        r.transmission_mode.value(),
    ) + u32_le(r.max_delay) + u32_le(r.cycle_time) + reserved_bytes()
}

pub open spec fn encode_delete_notification_request(r: DeleteDeviceNotificationRequest) -> Seq<
    u8,
> {
    u32_le(r.handle)
}

pub open spec fn encode_read_write_request(m: ReadWriteRequestModel) -> Seq<u8> {
    u32_le(m.index_group) + u32_le(m.index_offset) + u32_le(m.read_length) + u32_le(
        m.write_length,
    ) + m.data
}

// Parsers: each reads its fields from the start of a payload and stops at
// the declared data length; a payload shorter than that is malformed.

pub open spec fn parse_read_request(b: Seq<u8>) -> Option<ReadRequest> {
    if b.len() >= 12 {
        Some(
            ReadRequest {
                index_group: u32_at(b, 0),
                index_offset: u32_at(b, 4),
                length: u32_at(b, 8),
            },
        )
    } else {
        None
    }
}

pub open spec fn parse_write_request(b: Seq<u8>) -> Option<WriteRequestModel> {
    if b.len() >= 12 && 12 + u32_at(b, 8) <= b.len() {
        Some(
            WriteRequestModel {
                index_group: u32_at(b, 0),
                index_offset: u32_at(b, 4),
                length: u32_at(b, 8),
                data: b.subrange(12, 12 + u32_at(b, 8)),
            },
        )
    } else {
        None
    }
}

pub open spec fn parse_write_control_request(b: Seq<u8>) -> Option<WriteControlRequestModel> {
    if b.len() >= 8 && AdsState::from_value(u16_at(b, 0)) is Some && 8 + u32_at(b, 4) <= b.len() {
        Some(
            WriteControlRequestModel {
                ads_state: AdsState::from_value(u16_at(b, 0))->Some_0,
                device_state: u16_at(b, 2),
                length: u32_at(b, 4),
                data: b.subrange(8, 8 + u32_at(b, 4)),
            },
        )
    } else {
        None
    }
}

pub open spec fn parse_add_notification_request(b: Seq<u8>) -> Option<
    AddDeviceNotificationRequest,
> {
    if b.len() >= 40 {
        Some(
            AddDeviceNotificationRequest {
                index_group: u32_at(b, 0),
                index_offset: u32_at(b, 4),
                length: u32_at(b, 8),
                transmission_mode: AdsTransMode::from_value(u32_at(b, 12)),
                max_delay: u32_at(b, 16),
                cycle_time: u32_at(b, 20),
            },
        )
    } else {
        None
    }
}

pub open spec fn parse_delete_notification_request(b: Seq<u8>) -> Option<
    DeleteDeviceNotificationRequest,
> {
    if b.len() >= 4 {
        Some(DeleteDeviceNotificationRequest { handle: u32_at(b, 0) })
    } else {
        None
    }
}

pub open spec fn parse_read_write_request(b: Seq<u8>) -> Option<ReadWriteRequestModel> {
    if b.len() >= 16 && 16 + u32_at(b, 12) <= b.len() {
        Some(
            ReadWriteRequestModel {
                index_group: u32_at(b, 0),
                index_offset: u32_at(b, 4),
                read_length: u32_at(b, 8),
                write_length: u32_at(b, 12),
                data: b.subrange(16, 16 + u32_at(b, 12)),
            },
        )
    } else {
        None
    }
}

impl InvalidRequest {
    pub fn new() -> (r: Self) {
        InvalidRequest {  }
    }

    pub fn command_id(&self) -> (r: AdsCommandId)
        ensures
            r == AdsCommandId::Invalid,
    {
        AdsCommandId::Invalid
    }
}

impl ReadDeviceInfoRequest {
    pub fn new() -> (r: Self) {
        ReadDeviceInfoRequest {  }
    }

    pub fn command_id(&self) -> (r: AdsCommandId)
        ensures
            r == AdsCommandId::ReadDeviceInfo,
    {
        AdsCommandId::ReadDeviceInfo
    }
}

impl ReadStateRequest {
    pub fn new() -> (r: Self) {
        ReadStateRequest {  }
    }

    pub fn command_id(&self) -> (r: AdsCommandId)
        ensures
            r == AdsCommandId::ReadState,
    {
        AdsCommandId::ReadState
    }
}

impl DeviceNotificationRequest {
    pub fn new() -> (r: Self) {
        DeviceNotificationRequest {  }
    }

    pub fn command_id(&self) -> (r: AdsCommandId)
        ensures
            r == AdsCommandId::DeviceNotification,
    {
        AdsCommandId::DeviceNotification
    }
}

impl Default for InvalidRequest {
    fn default() -> (r: Self) {
        Self::new()
    }
}

impl Default for ReadDeviceInfoRequest {
    fn default() -> (r: Self) {
        Self::new()
    }
}

impl Default for ReadStateRequest {
    fn default() -> (r: Self) {
        Self::new()
    }
}

impl Default for DeviceNotificationRequest {
    fn default() -> (r: Self) {
        Self::new()
    }
}

impl ReadRequest {
    pub fn new(index_group: u32, index_offset: u32, length: u32) -> (r: Self)
        ensures
            r == (ReadRequest { index_group, index_offset, length }),
    {
        ReadRequest { index_group, index_offset, length }
    }

    pub fn command_id(&self) -> (r: AdsCommandId)
        ensures
            r == AdsCommandId::Read,
    {
        AdsCommandId::Read
    }

    pub fn write_to(&self, out: &mut Vec<u8>)
        ensures
            final(out)@ == old(out)@ + encode_read_request(*self),
    {
        let ghost start = out@;
        put_u32(out, self.index_group);
        put_u32(out, self.index_offset);
        put_u32(out, self.length);
        assert(out@ =~= start + encode_read_request(*self));
    }

    pub fn read_from(b: &[u8]) -> (r: Result<Self, MalformedFrame>)
        ensures
            match parse_read_request(b@) {
                Some(m) => r == Ok::<Self, MalformedFrame>(m),
                None => r is Err,
            },
    {
        if b.len() < 12 {
            return Err(MalformedFrame);
        }
        Ok(ReadRequest { index_group: get_u32(b, 0), index_offset: get_u32(b, 4), length: get_u32(b, 8) })
    }
}

impl WriteRequest {
    pub fn new(index_group: u32, index_offset: u32, length: u32, data: Vec<u8>) -> (r: Self)
        ensures
            r@ == (WriteRequestModel { index_group, index_offset, length, data: data@ }),
    {
        WriteRequest { index_group, index_offset, length, data }
    }

    pub fn command_id(&self) -> (r: AdsCommandId)
        ensures
            r == AdsCommandId::Write,
    {
        AdsCommandId::Write
    }

    pub fn write_to(&self, out: &mut Vec<u8>)
        ensures
            final(out)@ == old(out)@ + encode_write_request(self@),
    {
        let ghost start = out@;
        put_u32(out, self.index_group);
        put_u32(out, self.index_offset);
        put_u32(out, self.length);
        put_bytes(out, self.data.as_slice());
        assert(out@ =~= start + encode_write_request(self@));
    }

    pub fn read_from(b: &[u8]) -> (r: Result<Self, MalformedFrame>)
        ensures
            match parse_write_request(b@) {
                Some(m) => r matches Ok(v) && v@ == m,
                None => r is Err,
            },
    {
        let n = b.len();
        if n < 12 {
            return Err(MalformedFrame);
        }
        let length = get_u32(b, 8);
        if ((n - 12) as u64) < length as u64 {
            return Err(MalformedFrame);
        }
        Ok(
            WriteRequest {
                index_group: get_u32(b, 0),
                index_offset: get_u32(b, 4),
                length,
                data: get_bytes(b, 12, 12 + length as usize),
            },
        )
    }
}

impl WriteControlRequest {
    pub fn new(ads_state: AdsState, device_state: u16, length: u32, data: Vec<u8>) -> (r: Self)
        ensures
            r@ == (WriteControlRequestModel { ads_state, device_state, length, data: data@ }),
    {
        WriteControlRequest { ads_state, device_state, length, data }
    }

    pub fn command_id(&self) -> (r: AdsCommandId)
        ensures
            r == AdsCommandId::WriteControl,
    {
        AdsCommandId::WriteControl
    }

    pub fn write_to(&self, out: &mut Vec<u8>)
        ensures
            final(out)@ == old(out)@ + encode_write_control_request(self@),
    {
        let ghost start = out@;
        put_u16(out, AdsState::get_value(self.ads_state));
        put_u16(out, self.device_state);
        put_u32(out, self.length);
        put_bytes(out, self.data.as_slice());
        assert(out@ =~= start + encode_write_control_request(self@));
    }

    pub fn read_from(b: &[u8]) -> (r: Result<Self, MalformedFrame>)
        ensures
            match parse_write_control_request(b@) {
                Some(m) => r matches Ok(v) && v@ == m,
                None => r is Err,
            },
    {
        let n = b.len();
        if n < 8 {
            return Err(MalformedFrame);
        }
        let ads_state = match AdsState::from_u16(get_u16(b, 0)) {
            Some(s) => s,
            None => return Err(MalformedFrame),
        };
        let length = get_u32(b, 4);
        if ((n - 8) as u64) < length as u64 {
            return Err(MalformedFrame);
        }
        Ok(
            WriteControlRequest {
                ads_state,
                device_state: get_u16(b, 2),
                length,
                data: get_bytes(b, 8, 8 + length as usize),
            },
        )
    }
}

impl AddDeviceNotificationRequest {
    pub fn new(
        index_group: u32,
        index_offset: u32,
        length: u32,
        transmission_mode: AdsTransMode,
        max_delay: u32,
        cycle_time: u32,
    ) -> (r: Self)
        ensures
            r == (AddDeviceNotificationRequest {
                index_group,
                index_offset,
                length,
                transmission_mode,
                max_delay,
                cycle_time,
            }),
    {
        AddDeviceNotificationRequest {
            index_group,
            index_offset,
            length,
            transmission_mode,
            max_delay,
            cycle_time,
        }
    }

    pub fn command_id(&self) -> (r: AdsCommandId)
        ensures
            r == AdsCommandId::AddDeviceNotification,
    {
        AdsCommandId::AddDeviceNotification
    }

    /// The reserved tail of the request, always zero.
    pub fn reserved(&self) -> (r: [u8; 16])
        ensures
            r@ == reserved_bytes(),
    {
        let r = [0u8; 16];
        assert(r@ =~= reserved_bytes());
        r
    }

    pub fn write_to(&self, out: &mut Vec<u8>)
        ensures
            final(out)@ == old(out)@ + encode_add_notification_request(*self),
    {
        let ghost start = out@;
        put_u32(out, self.index_group);
        put_u32(out, self.index_offset);
        put_u32(out, self.length);
        put_u32(out, self.transmission_mode.as_u32());
        put_u32(out, self.max_delay);
        put_u32(out, self.cycle_time);
        let reserved = self.reserved();
        put_bytes(out, vstd::array::array_as_slice(&reserved));
        assert(out@ =~= start + encode_add_notification_request(*self));
    }

    pub fn read_from(b: &[u8]) -> (r: Result<Self, MalformedFrame>)
        ensures
            match parse_add_notification_request(b@) {
                Some(m) => r == Ok::<Self, MalformedFrame>(m),
                None => r is Err,
            },
    {
        if b.len() < 40 {
            return Err(MalformedFrame);
        }
        Ok(
            AddDeviceNotificationRequest {
                index_group: get_u32(b, 0),
                index_offset: get_u32(b, 4),
                length: get_u32(b, 8),
                transmission_mode: AdsTransMode::from(get_u32(b, 12)),
                max_delay: get_u32(b, 16),
                cycle_time: get_u32(b, 20),
            },
        )
    }
}

impl DeleteDeviceNotificationRequest {
    pub fn new(handle: u32) -> (r: Self)
        ensures
            r.handle == handle,
    {
        DeleteDeviceNotificationRequest { handle }
    }

    pub fn command_id(&self) -> (r: AdsCommandId)
        ensures
            r == AdsCommandId::DeleteDeviceNotification,
    {
        AdsCommandId::DeleteDeviceNotification
    }

    pub fn write_to(&self, out: &mut Vec<u8>)
        ensures
            final(out)@ == old(out)@ + encode_delete_notification_request(*self),
    {
        put_u32(out, self.handle);
    }

    pub fn read_from(b: &[u8]) -> (r: Result<Self, MalformedFrame>)
        ensures
            match parse_delete_notification_request(b@) {
                Some(m) => r == Ok::<Self, MalformedFrame>(m),
                None => r is Err,
            },
    {
        if b.len() < 4 {
            return Err(MalformedFrame);
        }
        Ok(DeleteDeviceNotificationRequest { handle: get_u32(b, 0) })
    }
}

impl ReadWriteRequest {
    pub fn new(
        index_group: u32,
        index_offset: u32,
        read_length: u32,
        write_length: u32,
        data: Vec<u8>,
    ) -> (r: Self)
        ensures
            r@ == (ReadWriteRequestModel {
                index_group,
                index_offset,
                read_length,
                write_length,
                data: data@,
            }),
    {
        ReadWriteRequest { index_group, index_offset, read_length, write_length, data }
    }

    pub fn command_id(&self) -> (r: AdsCommandId)
        ensures
            r == AdsCommandId::ReadWrite,
    {
        AdsCommandId::ReadWrite
    }

    pub fn write_to(&self, out: &mut Vec<u8>)
        ensures
            final(out)@ == old(out)@ + encode_read_write_request(self@),
    {
        let ghost start = out@;
        put_u32(out, self.index_group);
        put_u32(out, self.index_offset);
        put_u32(out, self.read_length);
        put_u32(out, self.write_length);
        put_bytes(out, self.data.as_slice());
        assert(out@ =~= start + encode_read_write_request(self@));
    }

    pub fn read_from(b: &[u8]) -> (r: Result<Self, MalformedFrame>)
        ensures
            match parse_read_write_request(b@) {
                Some(m) => r matches Ok(v) && v@ == m,
                None => r is Err,
            },
    {
        let n = b.len();
        if n < 16 {
            return Err(MalformedFrame);
        }
        let write_length = get_u32(b, 12);
        if ((n - 16) as u64) < write_length as u64 {
            return Err(MalformedFrame);
        }
        Ok(
            ReadWriteRequest {
                index_group: get_u32(b, 0),
                index_offset: get_u32(b, 4),
                read_length: get_u32(b, 8),
                write_length,
                data: get_bytes(b, 16, 16 + write_length as usize),
            },
        )
    }
}

/// A request payload of any command.
#[derive(Debug, Clone, PartialEq, Eq)]
pub enum Request {
    Invalid(InvalidRequest),
    ReadDeviceInfo(ReadDeviceInfoRequest),
    ReadState(ReadStateRequest),
    Read(ReadRequest),
    Write(WriteRequest),
    WriteControl(WriteControlRequest),
    AddDeviceNotification(AddDeviceNotificationRequest),
    DeleteDeviceNotification(DeleteDeviceNotificationRequest),
    DeviceNotification(DeviceNotificationRequest),
    ReadWrite(ReadWriteRequest),
}

/// The meaning of a request payload.
pub enum RequestModel {
    Invalid,
    ReadDeviceInfo,
    ReadState,
    Read(ReadRequest),
    Write(WriteRequestModel),
    WriteControl(WriteControlRequestModel),
    AddDeviceNotification(AddDeviceNotificationRequest),
    DeleteDeviceNotification(DeleteDeviceNotificationRequest),
    DeviceNotification,
    ReadWrite(ReadWriteRequestModel),
}

impl View for Request {
    type V = RequestModel;

    open spec fn view(&self) -> RequestModel {
        match self {
            Request::Invalid(_) => RequestModel::Invalid,
            Request::ReadDeviceInfo(_) => RequestModel::ReadDeviceInfo,
            Request::ReadState(_) => RequestModel::ReadState,
            Request::Read(r) => RequestModel::Read(*r),
            Request::Write(r) => RequestModel::Write(r@),
            Request::WriteControl(r) => RequestModel::WriteControl(r@),
            Request::AddDeviceNotification(r) => RequestModel::AddDeviceNotification(*r),
            Request::DeleteDeviceNotification(r) => RequestModel::DeleteDeviceNotification(*r),
            Request::DeviceNotification(_) => RequestModel::DeviceNotification,
            Request::ReadWrite(r) => RequestModel::ReadWrite(r@),
        }
    }
}

impl RequestModel {
    /// The command that carries this payload.
    pub open spec fn command_id(self) -> AdsCommandId {
        match self {
            RequestModel::Invalid => AdsCommandId::Invalid,
            RequestModel::ReadDeviceInfo => AdsCommandId::ReadDeviceInfo,
            RequestModel::ReadState => AdsCommandId::ReadState,
            RequestModel::Read(_) => AdsCommandId::Read,
            RequestModel::Write(_) => AdsCommandId::Write,
            RequestModel::WriteControl(_) => AdsCommandId::WriteControl,
            RequestModel::AddDeviceNotification(_) => AdsCommandId::AddDeviceNotification,
            RequestModel::DeleteDeviceNotification(_) => AdsCommandId::DeleteDeviceNotification,
            RequestModel::DeviceNotification => AdsCommandId::DeviceNotification,
            RequestModel::ReadWrite(_) => AdsCommandId::ReadWrite,
        }
    }
}

/// The payload bytes of a request.
pub open spec fn encode_request(m: RequestModel) -> Seq<u8> {
    match m {
        RequestModel::Read(r) => encode_read_request(r),
        RequestModel::Write(r) => encode_write_request(r),
        RequestModel::WriteControl(r) => encode_write_control_request(r),
        RequestModel::AddDeviceNotification(r) => encode_add_notification_request(r),
        RequestModel::DeleteDeviceNotification(r) => encode_delete_notification_request(r),
        RequestModel::ReadWrite(r) => encode_read_write_request(r),
        _ => Seq::empty(),
    }
}

/// The request that a payload holds, read as the payload of command `cmd`.
pub open spec fn parse_request(cmd: AdsCommandId, b: Seq<u8>) -> Option<RequestModel> {
    match cmd {
        AdsCommandId::Invalid => Some(RequestModel::Invalid),
        AdsCommandId::ReadDeviceInfo => Some(RequestModel::ReadDeviceInfo),
        AdsCommandId::ReadState => Some(RequestModel::ReadState),
        AdsCommandId::DeviceNotification => Some(RequestModel::DeviceNotification),
        AdsCommandId::Read => match parse_read_request(b) {
            Some(r) => Some(RequestModel::Read(r)),
            None => None,
        },
        AdsCommandId::Write => match parse_write_request(b) {
            Some(r) => Some(RequestModel::Write(r)),
            None => None,
        },
        AdsCommandId::WriteControl => match parse_write_control_request(b) {
            Some(r) => Some(RequestModel::WriteControl(r)),
            None => None,
        },
        AdsCommandId::AddDeviceNotification => match parse_add_notification_request(b) {
            Some(r) => Some(RequestModel::AddDeviceNotification(r)),
            None => None,
        },
        AdsCommandId::DeleteDeviceNotification => match parse_delete_notification_request(b) {
            Some(r) => Some(RequestModel::DeleteDeviceNotification(r)),
            None => None,
        },
        AdsCommandId::ReadWrite => match parse_read_write_request(b) {
            Some(r) => Some(RequestModel::ReadWrite(r)),
            None => None,
        },
    }
}

impl Request {
    pub fn command_id(&self) -> (r: AdsCommandId)
        ensures
            r == self@.command_id(),
    {
        match self {
            Request::Invalid(r) => r.command_id(),
            Request::ReadDeviceInfo(r) => r.command_id(),
            Request::ReadState(r) => r.command_id(),
            Request::Read(r) => r.command_id(),
            Request::Write(r) => r.command_id(),
            Request::WriteControl(r) => r.command_id(),
            Request::AddDeviceNotification(r) => r.command_id(),
            Request::DeleteDeviceNotification(r) => r.command_id(),
            Request::DeviceNotification(r) => r.command_id(),
            Request::ReadWrite(r) => r.command_id(),
        }
    }

    /// Appends the payload bytes.
    pub fn write_to(&self, out: &mut Vec<u8>)
        ensures
            final(out)@ == old(out)@ + encode_request(self@),
    {
        match self {
            Request::Read(r) => r.write_to(out),
            Request::Write(r) => r.write_to(out),
            Request::WriteControl(r) => r.write_to(out),
            Request::AddDeviceNotification(r) => r.write_to(out),
            Request::DeleteDeviceNotification(r) => r.write_to(out),
            Request::ReadWrite(r) => r.write_to(out),
            _ => {
                assert(out@ =~= out@ + encode_request(self@));
            },
        }
    }

    /// Reads the payload of command `cmd`.
    pub fn read_from(cmd: AdsCommandId, b: &[u8]) -> (r: Result<Request, MalformedFrame>)
        ensures
            match parse_request(cmd, b@) {
                Some(m) => r matches Ok(v) && v@ == m,
                None => r is Err,
            },
    {
        match cmd {
            AdsCommandId::Invalid => Ok(Request::Invalid(InvalidRequest::new())),
            AdsCommandId::ReadDeviceInfo => Ok(Request::ReadDeviceInfo(ReadDeviceInfoRequest::new())),
            AdsCommandId::ReadState => Ok(Request::ReadState(ReadStateRequest::new())),
            AdsCommandId::DeviceNotification => Ok(
                Request::DeviceNotification(DeviceNotificationRequest::new()),
            ),
            AdsCommandId::Read => match ReadRequest::read_from(b) {
                Ok(r) => Ok(Request::Read(r)),
                Err(e) => Err(e),
            },
            AdsCommandId::Write => match WriteRequest::read_from(b) {
                Ok(r) => Ok(Request::Write(r)),
                Err(e) => Err(e),
            },
            AdsCommandId::WriteControl => match WriteControlRequest::read_from(b) {
                Ok(r) => Ok(Request::WriteControl(r)),
                Err(e) => Err(e),
            },
            AdsCommandId::AddDeviceNotification => match AddDeviceNotificationRequest::read_from(b) {
                Ok(r) => Ok(Request::AddDeviceNotification(r)),
                Err(e) => Err(e),
            },
            AdsCommandId::DeleteDeviceNotification => match DeleteDeviceNotificationRequest::read_from(
                b,
            ) {
                Ok(r) => Ok(Request::DeleteDeviceNotification(r)),
                Err(e) => Err(e),
            },
            AdsCommandId::ReadWrite => match ReadWriteRequest::read_from(b) {
                Ok(r) => Ok(Request::ReadWrite(r)),
                Err(e) => Err(e),
            },
        }
    }
}

impl RequestModel {
    /// Structurally valid: a declared data length is the length of the data.
    pub open spec fn wf(self) -> bool {
        match self {
            RequestModel::Write(r) => r.length == r.data.len(),
            RequestModel::WriteControl(r) => r.length == r.data.len(),
            RequestModel::ReadWrite(r) => r.write_length == r.data.len(),
            _ => true,
        }
    }
}

/// Decoding the encoding of any structurally valid request, under its own
/// command, gives the request back.
pub proof fn lemma_request_round_trip(m: RequestModel)
    requires
        m.wf(),
    ensures
        parse_request(m.command_id(), encode_request(m)) == Some(m),
{
    let b = encode_request(m);
    match m {
        RequestModel::Read(r) => {
            assert(b.subrange(0, 4) =~= u32_le(r.index_group));
            assert(b.subrange(4, 8) =~= u32_le(r.index_offset));
            assert(b.subrange(8, 12) =~= u32_le(r.length));
            lemma_u32_round_trip(b, 0, r.index_group);
            lemma_u32_round_trip(b, 4, r.index_offset);
            lemma_u32_round_trip(b, 8, r.length);
        },
        RequestModel::Write(r) => {
            assert(b.subrange(0, 4) =~= u32_le(r.index_group));
            assert(b.subrange(4, 8) =~= u32_le(r.index_offset));
            assert(b.subrange(8, 12) =~= u32_le(r.length));
            assert(b.subrange(12, 12 + r.length) =~= r.data);
            lemma_u32_round_trip(b, 0, r.index_group);
            lemma_u32_round_trip(b, 4, r.index_offset);
            lemma_u32_round_trip(b, 8, r.length);
        },
        RequestModel::WriteControl(r) => {
            assert(b.subrange(0, 2) =~= u16_le(r.ads_state.value()));
            assert(b.subrange(2, 4) =~= u16_le(r.device_state));
            assert(b.subrange(4, 8) =~= u32_le(r.length));
            assert(b.subrange(8, 8 + r.length) =~= r.data);
            lemma_u16_round_trip(b, 0, r.ads_state.value());
            lemma_u16_round_trip(b, 2, r.device_state);
            lemma_u32_round_trip(b, 4, r.length);
        },
        RequestModel::AddDeviceNotification(r) => {
            assert(b.subrange(0, 4) =~= u32_le(r.index_group));
            assert(b.subrange(4, 8) =~= u32_le(r.index_offset));
            assert(b.subrange(8, 12) =~= u32_le(r.length));
            assert(b.subrange(12, 16) =~= u32_le(r.transmission_mode.value()));
            assert(b.subrange(16, 20) =~= u32_le(r.max_delay));
            assert(b.subrange(20, 24) =~= u32_le(r.cycle_time));
            lemma_u32_round_trip(b, 0, r.index_group);
            lemma_u32_round_trip(b, 4, r.index_offset);
            lemma_u32_round_trip(b, 8, r.length);
            lemma_u32_round_trip(b, 12, r.transmission_mode.value());
            lemma_u32_round_trip(b, 16, r.max_delay);
            lemma_u32_round_trip(b, 20, r.cycle_time);
        },
        RequestModel::DeleteDeviceNotification(r) => {
            assert(b.subrange(0, 4) =~= u32_le(r.handle));
            lemma_u32_round_trip(b, 0, r.handle);
        },
        RequestModel::ReadWrite(r) => {
            assert(b.subrange(0, 4) =~= u32_le(r.index_group));
            assert(b.subrange(4, 8) =~= u32_le(r.index_offset));
            assert(b.subrange(8, 12) =~= u32_le(r.read_length));
            assert(b.subrange(12, 16) =~= u32_le(r.write_length));
            assert(b.subrange(16, 16 + r.write_length) =~= r.data);
            lemma_u32_round_trip(b, 0, r.index_group);
            lemma_u32_round_trip(b, 4, r.index_offset);
            lemma_u32_round_trip(b, 8, r.read_length);
            lemma_u32_round_trip(b, 12, r.write_length);
        },
        _ => {},
    }
}

} // verus!

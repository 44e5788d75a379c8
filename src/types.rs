//! Command ids, state flags, device states, transmission modes and the
//! primitive variable types of a device.
use vstd::prelude::*;

verus! {

/// Index group of the symbol-handle-by-name lookup.
pub const GET_SYMHANDLE_BY_NAME: u32 = 0xF003;

/// Index group of reading a value by symbol name.
pub const READ_SYMVAL_BY_NAME: u32 = 0xF004;

/// Index group of reading or writing a value by symbol handle; the index
/// offset is the handle.
pub const READ_WRITE_SYMVAL_BY_HANDLE: u32 = 0xF005;

/// Index group of a batch of reads.
pub const SUMUP_READ: u32 = 0xF080;

/// Index group of a batch of writes.
pub const SUMUP_WRITE: u32 = 0xF081;

/// Index group of a batch of read-writes, used to acquire many handles.
pub const SUMUP_READ_WRITE: u32 = 0xF082;

/// Index group of a batch of reads whose results carry their lengths.
pub const SUMUP_READ_EX: u32 = 0xF083;

/// The largest number of sub-commands that one batch may hold.
pub const MAX_SUMUP_COMMANDS: usize = 500;

/// Port of device discovery over UDP.
pub const ADS_UDP_SERVER_PORT: u16 = 48899;

/// Port of the unsecured stream protocol.
pub const ADS_TCP_SERVER_PORT: u16 = 48898;

/// Port of the secured stream protocol.
pub const ADS_SECURE_TCP_SERVER_PORT: u16 = 8016;

/// The command that a message carries.
#[derive(Debug, Clone, Copy, PartialEq, Eq, Structural)]
pub enum AdsCommandId {
    Invalid,
    ReadDeviceInfo,
    Read,
    Write,
    ReadState,
    WriteControl,
    AddDeviceNotification,
    DeleteDeviceNotification,
    DeviceNotification,
    ReadWrite,
}

impl AdsCommandId {
    /// The 16-bit identifier on the wire.
    pub open spec fn value(self) -> u16 {
        match self {
            AdsCommandId::Invalid => 0,
            AdsCommandId::ReadDeviceInfo => 1,
            AdsCommandId::Read => 2,
            AdsCommandId::Write => 3,
            AdsCommandId::ReadState => 4,
            AdsCommandId::WriteControl => 5,
            AdsCommandId::AddDeviceNotification => 6,
            AdsCommandId::DeleteDeviceNotification => 7,
            AdsCommandId::DeviceNotification => 8,
            AdsCommandId::ReadWrite => 9,
        }
    }

    /// The command that a 16-bit identifier names, if any.
    pub open spec fn from_value(v: u16) -> Option<AdsCommandId> {
        match v {
            0 => Some(AdsCommandId::Invalid),
            1 => Some(AdsCommandId::ReadDeviceInfo),
            2 => Some(AdsCommandId::Read),
            3 => Some(AdsCommandId::Write),
            4 => Some(AdsCommandId::ReadState),
            5 => Some(AdsCommandId::WriteControl),
            6 => Some(AdsCommandId::AddDeviceNotification),
            7 => Some(AdsCommandId::DeleteDeviceNotification),
            8 => Some(AdsCommandId::DeviceNotification),
            9 => Some(AdsCommandId::ReadWrite),
            _ => None,
        }
    }

    /// The 16-bit identifier on the wire.
    pub fn as_u16(&self) -> (r: u16)
        ensures
            r == self.value(),
    {
        match self {
            AdsCommandId::Invalid => 0,
            AdsCommandId::ReadDeviceInfo => 1,
            AdsCommandId::Read => 2,
            AdsCommandId::Write => 3,
            AdsCommandId::ReadState => 4,
            AdsCommandId::WriteControl => 5,
            AdsCommandId::AddDeviceNotification => 6,
            AdsCommandId::DeleteDeviceNotification => 7,
            AdsCommandId::DeviceNotification => 8,
            AdsCommandId::ReadWrite => 9,
        }
    }

    /// The command that a 16-bit identifier names, if any.
    pub fn from_u16(v: u16) -> (r: Option<AdsCommandId>)
        ensures
            r == AdsCommandId::from_value(v),
            r matches Some(c) ==> c.value() == v,
    {
        match v {
            0 => Some(AdsCommandId::Invalid),
            1 => Some(AdsCommandId::ReadDeviceInfo),
            2 => Some(AdsCommandId::Read),
            3 => Some(AdsCommandId::Write),
            4 => Some(AdsCommandId::ReadState),
            5 => Some(AdsCommandId::WriteControl),
            6 => Some(AdsCommandId::AddDeviceNotification),
            7 => Some(AdsCommandId::DeleteDeviceNotification),
            8 => Some(AdsCommandId::DeviceNotification),
            9 => Some(AdsCommandId::ReadWrite),
            _ => None,
        }
    }
}

/// The state flags of a message: request or response, over TCP.
#[derive(Debug, Clone, Copy, PartialEq, Eq, Structural)]
pub struct StateFlags {
    pub value: u16,
}

impl StateFlags {
    /// Flags of a request: an ADS command (0x0004).
    pub fn req_default() -> (r: StateFlags)
        ensures
            r.value == 4,
    {
        StateFlags { value: 4 }
    }

    /// Flags of a response: an ADS command with the response bit (0x0005).
    pub fn resp_default() -> (r: StateFlags)
        ensures
            r.value == 5,
    {
        StateFlags { value: 5 }
    }

    pub fn value(&self) -> (r: u16)
        ensures
            r == self.value,
    {
        self.value
    }

    /// Whether the response bit is set.
    pub fn is_response(&self) -> (r: bool)
        ensures
            r == (self.value % 2 == 1),
    {
        self.value % 2 == 1
    }
}

/// The run state of a device.
#[derive(Debug, Clone, Copy, PartialEq, Eq, Structural)]
pub enum AdsState {
    AdsStateInvalid,
    AdsStateIdle,
    AdsStateReset,
    AdsStateInit,
    AdsStateStart,
    AdsStateRun,
    AdsStateStop,
    AdsStateSaveCFG,
    AdsStateLoadCFG,
    AdsStatePowerFailure,
    AdsStatePowerGood,
    AdsStateError,
    AdsStateShutDown,
    AdsStateSuspend,
    AdsStateResume,
    AdsStateConfig,
    AdsStateReconfig,
}

impl AdsState {
    /// The 16-bit value on the wire.
    pub open spec fn value(self) -> u16 {
        match self {
            AdsState::AdsStateInvalid => 0,
            AdsState::AdsStateIdle => 1,
            AdsState::AdsStateReset => 2,
            AdsState::AdsStateInit => 3,
            AdsState::AdsStateStart => 4,
            AdsState::AdsStateRun => 5,
            AdsState::AdsStateStop => 6,
            AdsState::AdsStateSaveCFG => 7,
            AdsState::AdsStateLoadCFG => 8,
            AdsState::AdsStatePowerFailure => 9,
            AdsState::AdsStatePowerGood => 10,
            AdsState::AdsStateError => 11,
            AdsState::AdsStateShutDown => 12,
            AdsState::AdsStateSuspend => 13,
            AdsState::AdsStateResume => 14,
            AdsState::AdsStateConfig => 15,
            AdsState::AdsStateReconfig => 16,
        }
    }

    /// The state that a 16-bit value names, if any.
    pub open spec fn from_value(v: u16) -> Option<AdsState> {
        match v {
            0 => Some(AdsState::AdsStateInvalid),
            1 => Some(AdsState::AdsStateIdle),
            2 => Some(AdsState::AdsStateReset),
            3 => Some(AdsState::AdsStateInit),
            4 => Some(AdsState::AdsStateStart),
            5 => Some(AdsState::AdsStateRun),
            6 => Some(AdsState::AdsStateStop),
            7 => Some(AdsState::AdsStateSaveCFG),
            8 => Some(AdsState::AdsStateLoadCFG),
            9 => Some(AdsState::AdsStatePowerFailure),
            10 => Some(AdsState::AdsStatePowerGood),
            11 => Some(AdsState::AdsStateError),
            12 => Some(AdsState::AdsStateShutDown),
            13 => Some(AdsState::AdsStateSuspend),
            14 => Some(AdsState::AdsStateResume),
            15 => Some(AdsState::AdsStateConfig),
            16 => Some(AdsState::AdsStateReconfig),
            _ => None,
        }
    }

    /// The 16-bit value of `state` on the wire.
    pub fn get_value(state: AdsState) -> (r: u16)
        ensures
            r == state.value(),
    {
        match state {
            AdsState::AdsStateInvalid => 0,
            AdsState::AdsStateIdle => 1,
            AdsState::AdsStateReset => 2,
            AdsState::AdsStateInit => 3,
            AdsState::AdsStateStart => 4,
            AdsState::AdsStateRun => 5,
            AdsState::AdsStateStop => 6,
            AdsState::AdsStateSaveCFG => 7,
            AdsState::AdsStateLoadCFG => 8,
            AdsState::AdsStatePowerFailure => 9,
            AdsState::AdsStatePowerGood => 10,
            AdsState::AdsStateError => 11,
            AdsState::AdsStateShutDown => 12,
            AdsState::AdsStateSuspend => 13,
            AdsState::AdsStateResume => 14,
            AdsState::AdsStateConfig => 15,
            AdsState::AdsStateReconfig => 16,
        }
    }

    /// The state that a 16-bit value names, if any.
    pub fn from_u16(state_value: u16) -> (r: Option<AdsState>)
        ensures
            r == AdsState::from_value(state_value),
            r matches Some(s) ==> s.value() == state_value,
    {
        match state_value {
            0 => Some(AdsState::AdsStateInvalid),
            1 => Some(AdsState::AdsStateIdle),
            2 => Some(AdsState::AdsStateReset),
            3 => Some(AdsState::AdsStateInit),
            4 => Some(AdsState::AdsStateStart),
            5 => Some(AdsState::AdsStateRun),
            6 => Some(AdsState::AdsStateStop),
            7 => Some(AdsState::AdsStateSaveCFG),
            8 => Some(AdsState::AdsStateLoadCFG),
            9 => Some(AdsState::AdsStatePowerFailure),
            10 => Some(AdsState::AdsStatePowerGood),
            11 => Some(AdsState::AdsStateError),
            12 => Some(AdsState::AdsStateShutDown),
            13 => Some(AdsState::AdsStateSuspend),
            14 => Some(AdsState::AdsStateResume),
            15 => Some(AdsState::AdsStateConfig),
            16 => Some(AdsState::AdsStateReconfig),
            _ => None,
        }
    }
}

/// When a device sends the samples of a subscription.
#[derive(Debug, Clone, Copy, PartialEq, Eq, Structural)]
pub enum AdsTransMode {
    NoTransmission,
    ClientCylcle,
    ClientOnChange,
    Cyclic,
    OnChange,
    CyclicInContext,
    OnChangeInContext,
}

impl AdsTransMode {
    /// The 32-bit value on the wire.
    pub open spec fn value(self) -> u32 {
        match self {
            AdsTransMode::NoTransmission => 0,
            AdsTransMode::ClientCylcle => 1,
            AdsTransMode::ClientOnChange => 2,
            AdsTransMode::Cyclic => 3,
            AdsTransMode::OnChange => 4,
            AdsTransMode::CyclicInContext => 5,
            AdsTransMode::OnChangeInContext => 6,
        }
    }

    /// The mode that a 32-bit value names; an unknown value names `NoTransmission`.
    pub open spec fn from_value(v: u32) -> AdsTransMode {
        match v {
            0 => AdsTransMode::NoTransmission,
            1 => AdsTransMode::ClientCylcle,
            2 => AdsTransMode::ClientOnChange,
            3 => AdsTransMode::Cyclic,
            4 => AdsTransMode::OnChange,
            5 => AdsTransMode::CyclicInContext,
            6 => AdsTransMode::OnChangeInContext,
            _ => AdsTransMode::NoTransmission,
        }
    }

    /// The 32-bit value on the wire.
    pub fn as_u32(&self) -> (r: u32)
        ensures
            r == self.value(),
    {
        match self {
            AdsTransMode::NoTransmission => 0,
            AdsTransMode::ClientCylcle => 1,
            AdsTransMode::ClientOnChange => 2,
            AdsTransMode::Cyclic => 3,
            AdsTransMode::OnChange => 4,
            AdsTransMode::CyclicInContext => 5,
            AdsTransMode::OnChangeInContext => 6,
        }
    }
}

impl From<u32> for AdsTransMode {
    fn from(state_value: u32) -> (r: AdsTransMode)
        ensures
            r == AdsTransMode::from_value(state_value),
    {
        match state_value {
            0 => AdsTransMode::NoTransmission,
            1 => AdsTransMode::ClientCylcle,
            2 => AdsTransMode::ClientOnChange,
            3 => AdsTransMode::Cyclic,
            4 => AdsTransMode::OnChange,
            5 => AdsTransMode::CyclicInContext,
            6 => AdsTransMode::OnChangeInContext,
            _ => AdsTransMode::NoTransmission,
        }
    }
}

impl vstd::std_specs::convert::FromSpecImpl<u32> for AdsTransMode {
    open spec fn obeys_from_spec() -> bool {
        true
    }

    open spec fn from_spec(v: u32) -> AdsTransMode {
        AdsTransMode::from_value(v)
    }
}

/// The primitive types of device variables.
#[derive(Debug, Clone, Copy, PartialEq, Eq, Structural)]
pub enum PlcTypes {
    Bool,
    Byte,
    Word,
    DWord,
    LWord,
    SInt,
    USInt,
    Int,
    UInt,
    DInt,
    UDInt,
    LInt,
    ULInt,
    Real,
    LReal,
    Time,
    TimeOfDay,
    Date,
    DateAndTime,
}

impl PlcTypes {
    /// The size of a value of this type in bytes.
    pub open spec fn byte_size(self) -> usize {
        match self {
            PlcTypes::Bool => 1,
            PlcTypes::Byte => 1,
            PlcTypes::Word => 2,
            PlcTypes::DWord => 4,
            PlcTypes::LWord => 8,
            PlcTypes::SInt => 1,
            PlcTypes::USInt => 1,
            PlcTypes::Int => 2,
            PlcTypes::UInt => 2,
            PlcTypes::DInt => 4,
            PlcTypes::UDInt => 4,
            PlcTypes::LInt => 8,
            PlcTypes::ULInt => 8,
            PlcTypes::Real => 4,
            PlcTypes::LReal => 8,
            PlcTypes::Time => 4,
            PlcTypes::TimeOfDay => 4,
            PlcTypes::Date => 4,
            PlcTypes::DateAndTime => 4,
        }
    }

    /// The size of a value of this type in bytes.
    pub fn size(&self) -> (r: usize)
        ensures
            r == self.byte_size(),
            1 <= r <= 8,
    {
        match self {
            PlcTypes::Bool => 1,
            PlcTypes::Byte => 1,
            PlcTypes::Word => 2,
            PlcTypes::DWord => 4,
            PlcTypes::LWord => 8,
            PlcTypes::SInt => 1,
            PlcTypes::USInt => 1,
            PlcTypes::Int => 2,
            PlcTypes::UInt => 2,
            PlcTypes::DInt => 4,
            PlcTypes::UDInt => 4,
            PlcTypes::LInt => 8,
            PlcTypes::ULInt => 8,
            PlcTypes::Real => 4,
            PlcTypes::LReal => 8,
            PlcTypes::Time => 4,
            PlcTypes::TimeOfDay => 4,
            PlcTypes::Date => 4,
            PlcTypes::DateAndTime => 4,
        }
    }
}

/// A device variable: its symbolic name, its type, and a value to write.
#[derive(Debug, Clone)]
pub struct Var {
    pub name: String,
    pub plc_type: PlcTypes,
    pub data: Vec<u8>,
}

impl Var {
    /// A variable with the given value, or with no value.
    pub fn new(name: String, plc_type: PlcTypes, data: Option<Vec<u8>>) -> (r: Var)
        ensures
            r.name@ == name@,
            r.plc_type == plc_type,
            r.data@ == (match data {
                Some(d) => d@,
                None => Seq::<u8>::empty(),
            }),
    {
        match data {
            Some(data) => Var { name, plc_type, data },
            None => Var { name, plc_type, data: Vec::new() },
        }
    }
}

} // verus!

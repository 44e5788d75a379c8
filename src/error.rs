//! Result codes reported by a device, and the library's own error conditions.
use vstd::prelude::*;

verus! {

/// A device result code: one named condition per code of the protocol's
/// error table, and `Unknown` for any other value.
#[derive(Debug, Clone, Copy, PartialEq, Eq, Structural)]
pub enum AdsError {
    ErrNoError,
    ErrInternal,
    ErrNoRTime,
    ErrAllocLockedMem,
    ErrInsertMailBox,
    ErrWrongReceiveHMsg,
    ErrTargetPortNotFound,
    ErrTargetMachineNotFound,
    ErrUnknownCmdId,
    ErrBadTaskId,
    ErrNoIo,
    ErrUnknownAmsCmd,
    ErrWin32Error,
    ErrPortNotConnected,
    ErrInvalidAmsLength,
    ErrInvalidAmsNetId,
    ErrLowInstLevel,
    ErrNoDebugIntAvailable,
    ErrPortDisabled,
    ErrPortAlreadyConnected,
    ErrAmsSyncW32Error,
    ErrAmsSyncTimeout,
    ErrAmsSyncAmsError,
    ErrAmsSyncNoIndexInMap,
    ErrInvalidAmsPort,
    ErrNoMemory,
    ErrTcpSend,
    ErrHostUnreachable,
    ErrInvalidAmsFragment,
    ErrTlsSend,
    ErrAccessDenied,
    RouterErrNoLockedMemory,
    RouterErrResizeMemory,
    RouterErrMailboxFull,
    RouterErrDebugBoxFull,
    RouterErrUnknownPortType,
    RouterErrNotInitialized,
    RouterErrPortAlreadyInUse,
    RouterErrNotRegistered,
    RouterErrNoMoreQueues,
    RouterErrInvalidPort,
    RouterErrNotActivated,
    RouterErrFragmentBoxFull,
    RouterErrFragmentTimeout,
    RouterErrToBeRemoved,
    AdsErrDeviceError,
    AdsErrDeviceSrvNotSupp,
    AdsErrDeviceInvalidGrp,
    AdsErrDeviceInvalidOffset,
    AdsErrDeviceInvalidAccess,
    AdsErrDeviceInvalidSize,
    AdsErrDeviceInvalidData,
    AdsErrDeviceNotReady,
    AdsErrDeviceBusy,
    AdsErrDeviceInvalidContext,
    AdsErrDeviceNoMemory,
    AdsErrDeviceInvalidParm,
    AdsErrDeviceNotFound,
    AdsErrDeviceSyntax,
    AdsErrDeviceIncompatible,
    AdsErrDeviceExists,
    AdsErrDeviceSymbolNotFound,
    AdsErrDeviceSymbolVersionInvalid,
    AdsErrDeviceInvalidState,
    AdsErrDeviceTransModeNotSupp,
    AdsErrDeviceNotifyHndInvalid,
    AdsErrDeviceClientUnknown,
    AdsErrDeviceNoMoreHdls,
    AdsErrDeviceInvalidWatchSize,
    AdsErrDeviceNotInit,
    AdsErrDeviceTimeout,
    AdsErrDeviceNoInterface,
    AdsErrDeviceInvalidInterface,
    AdsErrDeviceInvalidClsId,
    AdsErrDeviceInvalidObjId,
    AdsErrDevicePending,
    AdsErrDeviceAborted,
    AdsErrDeviceWarning,
    AdsErrDeviceInvalidArrayIdx,
    AdsErrDeviceSymbolNotActive,
    AdsErrDeviceAccessDenied,
    AdsErrDeviceLicenseNotFound,
    AdsErrDeviceLicenseExpired,
    AdsErrDeviceLicenseExceeded,
    AdsErrDeviceLicenseInvalid,
    AdsErrDeviceLicenseSystemId,
    AdsErrDeviceLicenseNoTimeLimit,
    AdsErrDeviceLicenseFutureIssue,
    AdsErrDeviceLicenseTimeTooLong,
    AdsErrDeviceException,
    AdsErrDeviceLicenseDuplicated,
    AdsErrDeviceSignatureInvalid,
    AdsErrDeviceCertificateInvalid,
    AdsErrClientError,
    AdsErrClientInvalidParm,
    AdsErrClientListEmpty,
    AdsErrClientVarUsed,
    AdsErrClientDuplInvokeId,
    AdsErrClientSyncTimeout,
    AdsErrClientW32Error,
    AdsErrClientTimeoutInvalid,
    AdsErrClientPortNotOpen,
    AdsErrClientNoAmsAddr,
    AdsErrClientSyncInternal,
    AdsErrClientAddHash,
    AdsErrClientRemoveHash,
    AdsErrClientNoMoreSym,
    AdsErrClientSyncResInvalid,
    AdsErrClientSyncPortLocked,
    /// A code that the table does not name.
    Unknown(u32),
}

impl AdsError {
    /// The 32-bit code of this condition.
    pub open spec fn code(self) -> u32 {
        match self {
            AdsError::ErrNoError => 0x000,
            AdsError::ErrInternal => 0x001,
            AdsError::ErrNoRTime => 0x002,
            AdsError::ErrAllocLockedMem => 0x003,
            AdsError::ErrInsertMailBox => 0x004,
            AdsError::ErrWrongReceiveHMsg => 0x005,
            AdsError::ErrTargetPortNotFound => 0x006,
            AdsError::ErrTargetMachineNotFound => 0x007,
            AdsError::ErrUnknownCmdId => 0x008,
            AdsError::ErrBadTaskId => 0x009,
            AdsError::ErrNoIo => 0x00a,
            AdsError::ErrUnknownAmsCmd => 0x00b,
            AdsError::ErrWin32Error => 0x00c,
            AdsError::ErrPortNotConnected => 0x00d,
            AdsError::ErrInvalidAmsLength => 0x00e,
            AdsError::ErrInvalidAmsNetId => 0x00f,
            AdsError::ErrLowInstLevel => 0x010,
            AdsError::ErrNoDebugIntAvailable => 0x011,
            AdsError::ErrPortDisabled => 0x012,
            AdsError::ErrPortAlreadyConnected => 0x013,
            AdsError::ErrAmsSyncW32Error => 0x014,
            AdsError::ErrAmsSyncTimeout => 0x015,
            AdsError::ErrAmsSyncAmsError => 0x016,
            AdsError::ErrAmsSyncNoIndexInMap => 0x017,
            AdsError::ErrInvalidAmsPort => 0x018,
            AdsError::ErrNoMemory => 0x019,
            AdsError::ErrTcpSend => 0x01a,
            AdsError::ErrHostUnreachable => 0x01b,
            AdsError::ErrInvalidAmsFragment => 0x01c,
            AdsError::ErrTlsSend => 0x01d,
            AdsError::ErrAccessDenied => 0x01e,
            AdsError::RouterErrNoLockedMemory => 0x500,
            AdsError::RouterErrResizeMemory => 0x501,
            AdsError::RouterErrMailboxFull => 0x502,
            AdsError::RouterErrDebugBoxFull => 0x503,
            AdsError::RouterErrUnknownPortType => 0x504,
            AdsError::RouterErrNotInitialized => 0x505,
            AdsError::RouterErrPortAlreadyInUse => 0x506,
            AdsError::RouterErrNotRegistered => 0x507,
            AdsError::RouterErrNoMoreQueues => 0x508,
            AdsError::RouterErrInvalidPort => 0x509,
            AdsError::RouterErrNotActivated => 0x50a,
            AdsError::RouterErrFragmentBoxFull => 0x50b,
            AdsError::RouterErrFragmentTimeout => 0x50c,
            AdsError::RouterErrToBeRemoved => 0x50d,
            AdsError::AdsErrDeviceError => 0x700,
            AdsError::AdsErrDeviceSrvNotSupp => 0x701,
            AdsError::AdsErrDeviceInvalidGrp => 0x702,
            AdsError::AdsErrDeviceInvalidOffset => 0x703,
            AdsError::AdsErrDeviceInvalidAccess => 0x704,
            AdsError::AdsErrDeviceInvalidSize => 0x705,
            AdsError::AdsErrDeviceInvalidData => 0x706,
            AdsError::AdsErrDeviceNotReady => 0x707,
            AdsError::AdsErrDeviceBusy => 0x708,
            AdsError::AdsErrDeviceInvalidContext => 0x709,
            AdsError::AdsErrDeviceNoMemory => 0x70a,
            AdsError::AdsErrDeviceInvalidParm => 0x70b,
            AdsError::AdsErrDeviceNotFound => 0x70c,
            AdsError::AdsErrDeviceSyntax => 0x70d,
            AdsError::AdsErrDeviceIncompatible => 0x70e,
            AdsError::AdsErrDeviceExists => 0x70f,
            AdsError::AdsErrDeviceSymbolNotFound => 0x710,
            AdsError::AdsErrDeviceSymbolVersionInvalid => 0x711,
            AdsError::AdsErrDeviceInvalidState => 0x712,
            AdsError::AdsErrDeviceTransModeNotSupp => 0x713,
            AdsError::AdsErrDeviceNotifyHndInvalid => 0x714,
            AdsError::AdsErrDeviceClientUnknown => 0x715,
            AdsError::AdsErrDeviceNoMoreHdls => 0x716,
            AdsError::AdsErrDeviceInvalidWatchSize => 0x717,
            AdsError::AdsErrDeviceNotInit => 0x718,
            AdsError::AdsErrDeviceTimeout => 0x719,
            AdsError::AdsErrDeviceNoInterface => 0x71a,
            AdsError::AdsErrDeviceInvalidInterface => 0x71b,
            AdsError::AdsErrDeviceInvalidClsId => 0x71c,
            AdsError::AdsErrDeviceInvalidObjId => 0x71d,
            AdsError::AdsErrDevicePending => 0x71e,
            AdsError::AdsErrDeviceAborted => 0x71f,
            AdsError::AdsErrDeviceWarning => 0x720,
            AdsError::AdsErrDeviceInvalidArrayIdx => 0x721,
            AdsError::AdsErrDeviceSymbolNotActive => 0x722,
            AdsError::AdsErrDeviceAccessDenied => 0x723,
            AdsError::AdsErrDeviceLicenseNotFound => 0x724,
            AdsError::AdsErrDeviceLicenseExpired => 0x725,
            AdsError::AdsErrDeviceLicenseExceeded => 0x726,
            AdsError::AdsErrDeviceLicenseInvalid => 0x727,
            AdsError::AdsErrDeviceLicenseSystemId => 0x728,
            AdsError::AdsErrDeviceLicenseNoTimeLimit => 0x729,
            AdsError::AdsErrDeviceLicenseFutureIssue => 0x72a,
            AdsError::AdsErrDeviceLicenseTimeTooLong => 0x72b,
            AdsError::AdsErrDeviceException => 0x72c,
            AdsError::AdsErrDeviceLicenseDuplicated => 0x72d,
            AdsError::AdsErrDeviceSignatureInvalid => 0x72e,
            AdsError::AdsErrDeviceCertificateInvalid => 0x72f,
            AdsError::AdsErrClientError => 0x740,
            AdsError::AdsErrClientInvalidParm => 0x741,
            AdsError::AdsErrClientListEmpty => 0x742,
            AdsError::AdsErrClientVarUsed => 0x743,
            AdsError::AdsErrClientDuplInvokeId => 0x744,
            AdsError::AdsErrClientSyncTimeout => 0x745,
            AdsError::AdsErrClientW32Error => 0x746,
            AdsError::AdsErrClientTimeoutInvalid => 0x747,
            AdsError::AdsErrClientPortNotOpen => 0x748,
            AdsError::AdsErrClientNoAmsAddr => 0x749,
            AdsError::AdsErrClientSyncInternal => 0x750,
            AdsError::AdsErrClientAddHash => 0x751,
            AdsError::AdsErrClientRemoveHash => 0x752,
            AdsError::AdsErrClientNoMoreSym => 0x753,
            AdsError::AdsErrClientSyncResInvalid => 0x754,
            AdsError::AdsErrClientSyncPortLocked => 0x755,
            AdsError::Unknown(c) => c,
        }
    }

    /// The condition that a 32-bit code names.
    pub open spec fn from_code(c: u32) -> AdsError {
        match c {
            0x000 => AdsError::ErrNoError,
            0x001 => AdsError::ErrInternal,
            0x002 => AdsError::ErrNoRTime,
            0x003 => AdsError::ErrAllocLockedMem,
            0x004 => AdsError::ErrInsertMailBox,
            0x005 => AdsError::ErrWrongReceiveHMsg,
            0x006 => AdsError::ErrTargetPortNotFound,
            0x007 => AdsError::ErrTargetMachineNotFound,
            0x008 => AdsError::ErrUnknownCmdId,
            0x009 => AdsError::ErrBadTaskId,
            0x00a => AdsError::ErrNoIo,
            0x00b => AdsError::ErrUnknownAmsCmd,
            0x00c => AdsError::ErrWin32Error,
            0x00d => AdsError::ErrPortNotConnected,
            0x00e => AdsError::ErrInvalidAmsLength,
            0x00f => AdsError::ErrInvalidAmsNetId,
            0x010 => AdsError::ErrLowInstLevel,
            0x011 => AdsError::ErrNoDebugIntAvailable,
            0x012 => AdsError::ErrPortDisabled,
            0x013 => AdsError::ErrPortAlreadyConnected,
            0x014 => AdsError::ErrAmsSyncW32Error,
            0x015 => AdsError::ErrAmsSyncTimeout,
            0x016 => AdsError::ErrAmsSyncAmsError,
            0x017 => AdsError::ErrAmsSyncNoIndexInMap,
            0x018 => AdsError::ErrInvalidAmsPort,
            0x019 => AdsError::ErrNoMemory,
            0x01a => AdsError::ErrTcpSend,
            0x01b => AdsError::ErrHostUnreachable,
            0x01c => AdsError::ErrInvalidAmsFragment,
            0x01d => AdsError::ErrTlsSend,
            0x01e => AdsError::ErrAccessDenied,
            0x500 => AdsError::RouterErrNoLockedMemory,
            0x501 => AdsError::RouterErrResizeMemory,
            0x502 => AdsError::RouterErrMailboxFull,
            0x503 => AdsError::RouterErrDebugBoxFull,
            0x504 => AdsError::RouterErrUnknownPortType,
            0x505 => AdsError::RouterErrNotInitialized,
            0x506 => AdsError::RouterErrPortAlreadyInUse,
            0x507 => AdsError::RouterErrNotRegistered,
            0x508 => AdsError::RouterErrNoMoreQueues,
            0x509 => AdsError::RouterErrInvalidPort,
            0x50a => AdsError::RouterErrNotActivated,
            0x50b => AdsError::RouterErrFragmentBoxFull,
            0x50c => AdsError::RouterErrFragmentTimeout,
            0x50d => AdsError::RouterErrToBeRemoved,
            0x700 => AdsError::AdsErrDeviceError,
            0x701 => AdsError::AdsErrDeviceSrvNotSupp,
            0x702 => AdsError::AdsErrDeviceInvalidGrp,
            0x703 => AdsError::AdsErrDeviceInvalidOffset,
            0x704 => AdsError::AdsErrDeviceInvalidAccess,
            0x705 => AdsError::AdsErrDeviceInvalidSize,
            0x706 => AdsError::AdsErrDeviceInvalidData,
            0x707 => AdsError::AdsErrDeviceNotReady,
            0x708 => AdsError::AdsErrDeviceBusy,
            0x709 => AdsError::AdsErrDeviceInvalidContext,
            0x70a => AdsError::AdsErrDeviceNoMemory,
            0x70b => AdsError::AdsErrDeviceInvalidParm,
            0x70c => AdsError::AdsErrDeviceNotFound,
            0x70d => AdsError::AdsErrDeviceSyntax,
            0x70e => AdsError::AdsErrDeviceIncompatible,
            0x70f => AdsError::AdsErrDeviceExists,
            0x710 => AdsError::AdsErrDeviceSymbolNotFound,
            0x711 => AdsError::AdsErrDeviceSymbolVersionInvalid,
            0x712 => AdsError::AdsErrDeviceInvalidState,
            0x713 => AdsError::AdsErrDeviceTransModeNotSupp,
            0x714 => AdsError::AdsErrDeviceNotifyHndInvalid,
            0x715 => AdsError::AdsErrDeviceClientUnknown,
            0x716 => AdsError::AdsErrDeviceNoMoreHdls,
            0x717 => AdsError::AdsErrDeviceInvalidWatchSize,
            0x718 => AdsError::AdsErrDeviceNotInit,
            0x719 => AdsError::AdsErrDeviceTimeout,
            0x71a => AdsError::AdsErrDeviceNoInterface,
            0x71b => AdsError::AdsErrDeviceInvalidInterface,
            0x71c => AdsError::AdsErrDeviceInvalidClsId,
            0x71d => AdsError::AdsErrDeviceInvalidObjId,
            0x71e => AdsError::AdsErrDevicePending,
            0x71f => AdsError::AdsErrDeviceAborted,
            0x720 => AdsError::AdsErrDeviceWarning,
            0x721 => AdsError::AdsErrDeviceInvalidArrayIdx,
            0x722 => AdsError::AdsErrDeviceSymbolNotActive,
            0x723 => AdsError::AdsErrDeviceAccessDenied,
            0x724 => AdsError::AdsErrDeviceLicenseNotFound,
            0x725 => AdsError::AdsErrDeviceLicenseExpired,
            0x726 => AdsError::AdsErrDeviceLicenseExceeded,
            0x727 => AdsError::AdsErrDeviceLicenseInvalid,
            0x728 => AdsError::AdsErrDeviceLicenseSystemId,
            0x729 => AdsError::AdsErrDeviceLicenseNoTimeLimit,
            0x72a => AdsError::AdsErrDeviceLicenseFutureIssue,
            0x72b => AdsError::AdsErrDeviceLicenseTimeTooLong,
            0x72c => AdsError::AdsErrDeviceException,
            0x72d => AdsError::AdsErrDeviceLicenseDuplicated,
            0x72e => AdsError::AdsErrDeviceSignatureInvalid,
            0x72f => AdsError::AdsErrDeviceCertificateInvalid,
            0x740 => AdsError::AdsErrClientError,
            0x741 => AdsError::AdsErrClientInvalidParm,
            0x742 => AdsError::AdsErrClientListEmpty,
            0x743 => AdsError::AdsErrClientVarUsed,
            0x744 => AdsError::AdsErrClientDuplInvokeId,
            0x745 => AdsError::AdsErrClientSyncTimeout,
            0x746 => AdsError::AdsErrClientW32Error,
            0x747 => AdsError::AdsErrClientTimeoutInvalid,
            0x748 => AdsError::AdsErrClientPortNotOpen,
            0x749 => AdsError::AdsErrClientNoAmsAddr,
            0x750 => AdsError::AdsErrClientSyncInternal,
            0x751 => AdsError::AdsErrClientAddHash,
            0x752 => AdsError::AdsErrClientRemoveHash,
            0x753 => AdsError::AdsErrClientNoMoreSym,
            0x754 => AdsError::AdsErrClientSyncResInvalid,
            0x755 => AdsError::AdsErrClientSyncPortLocked,
            _ => AdsError::Unknown(c),
        }
    }

    /// An `Unknown` value never carries a code that the table names.
    pub open spec fn wf(self) -> bool {
        match self {
            AdsError::Unknown(c) => AdsError::from_code(c) == AdsError::Unknown(c),
            _ => true,
        }
    }

    /// The 32-bit code of this condition.
    pub fn as_u32(&self) -> (r: u32)
        ensures
            r == self.code(),
    {
        match self {
            AdsError::ErrNoError => 0x000,
            AdsError::ErrInternal => 0x001,
            AdsError::ErrNoRTime => 0x002,
            AdsError::ErrAllocLockedMem => 0x003,
            AdsError::ErrInsertMailBox => 0x004,
            AdsError::ErrWrongReceiveHMsg => 0x005,
            AdsError::ErrTargetPortNotFound => 0x006,
            AdsError::ErrTargetMachineNotFound => 0x007,
            AdsError::ErrUnknownCmdId => 0x008,
            AdsError::ErrBadTaskId => 0x009,
            AdsError::ErrNoIo => 0x00a,
            AdsError::ErrUnknownAmsCmd => 0x00b,
            AdsError::ErrWin32Error => 0x00c,
            AdsError::ErrPortNotConnected => 0x00d,
            AdsError::ErrInvalidAmsLength => 0x00e,
            AdsError::ErrInvalidAmsNetId => 0x00f,
            AdsError::ErrLowInstLevel => 0x010,
            AdsError::ErrNoDebugIntAvailable => 0x011,
            AdsError::ErrPortDisabled => 0x012,
            AdsError::ErrPortAlreadyConnected => 0x013,
            AdsError::ErrAmsSyncW32Error => 0x014,
            AdsError::ErrAmsSyncTimeout => 0x015,
            AdsError::ErrAmsSyncAmsError => 0x016,
            AdsError::ErrAmsSyncNoIndexInMap => 0x017,
            AdsError::ErrInvalidAmsPort => 0x018,
            AdsError::ErrNoMemory => 0x019,
            AdsError::ErrTcpSend => 0x01a,
            AdsError::ErrHostUnreachable => 0x01b,
            AdsError::ErrInvalidAmsFragment => 0x01c,
            AdsError::ErrTlsSend => 0x01d,
            AdsError::ErrAccessDenied => 0x01e,
            AdsError::RouterErrNoLockedMemory => 0x500,
            AdsError::RouterErrResizeMemory => 0x501,
            AdsError::RouterErrMailboxFull => 0x502,
            AdsError::RouterErrDebugBoxFull => 0x503,
            AdsError::RouterErrUnknownPortType => 0x504,
            AdsError::RouterErrNotInitialized => 0x505,
            AdsError::RouterErrPortAlreadyInUse => 0x506,
            AdsError::RouterErrNotRegistered => 0x507,
            AdsError::RouterErrNoMoreQueues => 0x508,
            AdsError::RouterErrInvalidPort => 0x509,
            AdsError::RouterErrNotActivated => 0x50a,
            AdsError::RouterErrFragmentBoxFull => 0x50b,
            AdsError::RouterErrFragmentTimeout => 0x50c,
            AdsError::RouterErrToBeRemoved => 0x50d,
            AdsError::AdsErrDeviceError => 0x700,
            AdsError::AdsErrDeviceSrvNotSupp => 0x701,
            AdsError::AdsErrDeviceInvalidGrp => 0x702,
            AdsError::AdsErrDeviceInvalidOffset => 0x703,
            AdsError::AdsErrDeviceInvalidAccess => 0x704,
            AdsError::AdsErrDeviceInvalidSize => 0x705,
            AdsError::AdsErrDeviceInvalidData => 0x706,
            AdsError::AdsErrDeviceNotReady => 0x707,
            AdsError::AdsErrDeviceBusy => 0x708,
            AdsError::AdsErrDeviceInvalidContext => 0x709,
            AdsError::AdsErrDeviceNoMemory => 0x70a,
            AdsError::AdsErrDeviceInvalidParm => 0x70b,
            AdsError::AdsErrDeviceNotFound => 0x70c,
            AdsError::AdsErrDeviceSyntax => 0x70d,
            AdsError::AdsErrDeviceIncompatible => 0x70e,
            AdsError::AdsErrDeviceExists => 0x70f,
            AdsError::AdsErrDeviceSymbolNotFound => 0x710,
            AdsError::AdsErrDeviceSymbolVersionInvalid => 0x711,
            AdsError::AdsErrDeviceInvalidState => 0x712,
            AdsError::AdsErrDeviceTransModeNotSupp => 0x713,
            AdsError::AdsErrDeviceNotifyHndInvalid => 0x714,
            AdsError::AdsErrDeviceClientUnknown => 0x715,
            AdsError::AdsErrDeviceNoMoreHdls => 0x716,
            AdsError::AdsErrDeviceInvalidWatchSize => 0x717,
            AdsError::AdsErrDeviceNotInit => 0x718,
            AdsError::AdsErrDeviceTimeout => 0x719,
            AdsError::AdsErrDeviceNoInterface => 0x71a,
            AdsError::AdsErrDeviceInvalidInterface => 0x71b,
            AdsError::AdsErrDeviceInvalidClsId => 0x71c,
            AdsError::AdsErrDeviceInvalidObjId => 0x71d,
            AdsError::AdsErrDevicePending => 0x71e,
            AdsError::AdsErrDeviceAborted => 0x71f,
            AdsError::AdsErrDeviceWarning => 0x720,
            AdsError::AdsErrDeviceInvalidArrayIdx => 0x721,
            AdsError::AdsErrDeviceSymbolNotActive => 0x722,
            AdsError::AdsErrDeviceAccessDenied => 0x723,
            AdsError::AdsErrDeviceLicenseNotFound => 0x724,
            AdsError::AdsErrDeviceLicenseExpired => 0x725,
            AdsError::AdsErrDeviceLicenseExceeded => 0x726,
            AdsError::AdsErrDeviceLicenseInvalid => 0x727,
            AdsError::AdsErrDeviceLicenseSystemId => 0x728,
            AdsError::AdsErrDeviceLicenseNoTimeLimit => 0x729,
            AdsError::AdsErrDeviceLicenseFutureIssue => 0x72a,
            AdsError::AdsErrDeviceLicenseTimeTooLong => 0x72b,
            AdsError::AdsErrDeviceException => 0x72c,
            AdsError::AdsErrDeviceLicenseDuplicated => 0x72d,
            AdsError::AdsErrDeviceSignatureInvalid => 0x72e,
            AdsError::AdsErrDeviceCertificateInvalid => 0x72f,
            AdsError::AdsErrClientError => 0x740,
            AdsError::AdsErrClientInvalidParm => 0x741,
            AdsError::AdsErrClientListEmpty => 0x742,
            AdsError::AdsErrClientVarUsed => 0x743,
            AdsError::AdsErrClientDuplInvokeId => 0x744,
            AdsError::AdsErrClientSyncTimeout => 0x745,
            AdsError::AdsErrClientW32Error => 0x746,
            AdsError::AdsErrClientTimeoutInvalid => 0x747,
            AdsError::AdsErrClientPortNotOpen => 0x748,
            AdsError::AdsErrClientNoAmsAddr => 0x749,
            AdsError::AdsErrClientSyncInternal => 0x750,
            AdsError::AdsErrClientAddHash => 0x751,
            AdsError::AdsErrClientRemoveHash => 0x752,
            AdsError::AdsErrClientNoMoreSym => 0x753,
            AdsError::AdsErrClientSyncResInvalid => 0x754,
            AdsError::AdsErrClientSyncPortLocked => 0x755,
            AdsError::Unknown(c) => *c,
        }
    }

    /// The condition that a 32-bit code names.
    pub fn from_u32(c: u32) -> (r: AdsError)
        ensures
            r == AdsError::from_code(c),
            r.wf(),
            r.code() == c,
    {
        match c {
            0x000 => AdsError::ErrNoError,
            0x001 => AdsError::ErrInternal,
            0x002 => AdsError::ErrNoRTime,
            0x003 => AdsError::ErrAllocLockedMem,
            0x004 => AdsError::ErrInsertMailBox,
            0x005 => AdsError::ErrWrongReceiveHMsg,
            0x006 => AdsError::ErrTargetPortNotFound,
            0x007 => AdsError::ErrTargetMachineNotFound,
            0x008 => AdsError::ErrUnknownCmdId,
            0x009 => AdsError::ErrBadTaskId,
            0x00a => AdsError::ErrNoIo,
            0x00b => AdsError::ErrUnknownAmsCmd,
            0x00c => AdsError::ErrWin32Error,
            0x00d => AdsError::ErrPortNotConnected,
            0x00e => AdsError::ErrInvalidAmsLength,
            0x00f => AdsError::ErrInvalidAmsNetId,
            0x010 => AdsError::ErrLowInstLevel,
            0x011 => AdsError::ErrNoDebugIntAvailable,
            0x012 => AdsError::ErrPortDisabled,
            0x013 => AdsError::ErrPortAlreadyConnected,
            0x014 => AdsError::ErrAmsSyncW32Error,
            0x015 => AdsError::ErrAmsSyncTimeout,
            0x016 => AdsError::ErrAmsSyncAmsError,
            0x017 => AdsError::ErrAmsSyncNoIndexInMap,
            0x018 => AdsError::ErrInvalidAmsPort,
            0x019 => AdsError::ErrNoMemory,
            0x01a => AdsError::ErrTcpSend,
            0x01b => AdsError::ErrHostUnreachable,
            0x01c => AdsError::ErrInvalidAmsFragment,
            0x01d => AdsError::ErrTlsSend,
            0x01e => AdsError::ErrAccessDenied,
            0x500 => AdsError::RouterErrNoLockedMemory,
            0x501 => AdsError::RouterErrResizeMemory,
            0x502 => AdsError::RouterErrMailboxFull,
            0x503 => AdsError::RouterErrDebugBoxFull,
            0x504 => AdsError::RouterErrUnknownPortType,
            0x505 => AdsError::RouterErrNotInitialized,
            0x506 => AdsError::RouterErrPortAlreadyInUse,
            0x507 => AdsError::RouterErrNotRegistered,
            0x508 => AdsError::RouterErrNoMoreQueues,
            0x509 => AdsError::RouterErrInvalidPort,
            0x50a => AdsError::RouterErrNotActivated,
            0x50b => AdsError::RouterErrFragmentBoxFull,
            0x50c => AdsError::RouterErrFragmentTimeout,
            0x50d => AdsError::RouterErrToBeRemoved,
            0x700 => AdsError::AdsErrDeviceError,
            0x701 => AdsError::AdsErrDeviceSrvNotSupp,
            0x702 => AdsError::AdsErrDeviceInvalidGrp,
            0x703 => AdsError::AdsErrDeviceInvalidOffset,
            0x704 => AdsError::AdsErrDeviceInvalidAccess,
            0x705 => AdsError::AdsErrDeviceInvalidSize,
            0x706 => AdsError::AdsErrDeviceInvalidData,
            0x707 => AdsError::AdsErrDeviceNotReady,
            0x708 => AdsError::AdsErrDeviceBusy,
            0x709 => AdsError::AdsErrDeviceInvalidContext,
            0x70a => AdsError::AdsErrDeviceNoMemory,
            0x70b => AdsError::AdsErrDeviceInvalidParm,
            0x70c => AdsError::AdsErrDeviceNotFound,
            0x70d => AdsError::AdsErrDeviceSyntax,
            0x70e => AdsError::AdsErrDeviceIncompatible,
            0x70f => AdsError::AdsErrDeviceExists,
            0x710 => AdsError::AdsErrDeviceSymbolNotFound,
            0x711 => AdsError::AdsErrDeviceSymbolVersionInvalid,
            0x712 => AdsError::AdsErrDeviceInvalidState,
            0x713 => AdsError::AdsErrDeviceTransModeNotSupp,
            0x714 => AdsError::AdsErrDeviceNotifyHndInvalid,
            0x715 => AdsError::AdsErrDeviceClientUnknown,
            0x716 => AdsError::AdsErrDeviceNoMoreHdls,
            0x717 => AdsError::AdsErrDeviceInvalidWatchSize,
            0x718 => AdsError::AdsErrDeviceNotInit,
            0x719 => AdsError::AdsErrDeviceTimeout,
            0x71a => AdsError::AdsErrDeviceNoInterface,
            0x71b => AdsError::AdsErrDeviceInvalidInterface,
            0x71c => AdsError::AdsErrDeviceInvalidClsId,
            0x71d => AdsError::AdsErrDeviceInvalidObjId,
            0x71e => AdsError::AdsErrDevicePending,
            0x71f => AdsError::AdsErrDeviceAborted,
            0x720 => AdsError::AdsErrDeviceWarning,
            0x721 => AdsError::AdsErrDeviceInvalidArrayIdx,
            0x722 => AdsError::AdsErrDeviceSymbolNotActive,
            0x723 => AdsError::AdsErrDeviceAccessDenied,
            0x724 => AdsError::AdsErrDeviceLicenseNotFound,
            0x725 => AdsError::AdsErrDeviceLicenseExpired,
            0x726 => AdsError::AdsErrDeviceLicenseExceeded,
            0x727 => AdsError::AdsErrDeviceLicenseInvalid,
            0x728 => AdsError::AdsErrDeviceLicenseSystemId,
            0x729 => AdsError::AdsErrDeviceLicenseNoTimeLimit,
            0x72a => AdsError::AdsErrDeviceLicenseFutureIssue,
            0x72b => AdsError::AdsErrDeviceLicenseTimeTooLong,
            0x72c => AdsError::AdsErrDeviceException,
            0x72d => AdsError::AdsErrDeviceLicenseDuplicated,
            0x72e => AdsError::AdsErrDeviceSignatureInvalid,
            0x72f => AdsError::AdsErrDeviceCertificateInvalid,
            0x740 => AdsError::AdsErrClientError,
            0x741 => AdsError::AdsErrClientInvalidParm,
            0x742 => AdsError::AdsErrClientListEmpty,
            0x743 => AdsError::AdsErrClientVarUsed,
            0x744 => AdsError::AdsErrClientDuplInvokeId,
            0x745 => AdsError::AdsErrClientSyncTimeout,
            0x746 => AdsError::AdsErrClientW32Error,
            0x747 => AdsError::AdsErrClientTimeoutInvalid,
            0x748 => AdsError::AdsErrClientPortNotOpen,
            0x749 => AdsError::AdsErrClientNoAmsAddr,
            0x750 => AdsError::AdsErrClientSyncInternal,
            0x751 => AdsError::AdsErrClientAddHash,
            0x752 => AdsError::AdsErrClientRemoveHash,
            0x753 => AdsError::AdsErrClientNoMoreSym,
            0x754 => AdsError::AdsErrClientSyncResInvalid,
            0x755 => AdsError::AdsErrClientSyncPortLocked,
            _ => AdsError::Unknown(c),
        }
    }

    /// Whether this is the success code, zero.
    pub fn is_ok(&self) -> (r: bool)
        ensures
            r == (self.code() == 0),
    {
        self.as_u32() == 0
    }
}

/// Naming a code and taking the code back gives the code.
pub proof fn lemma_code_of_from_code(c: u32)
    ensures
        AdsError::from_code(c).code() == c,
{
}

/// A well-formed condition is named by its own code.
pub proof fn lemma_from_code_of_code(e: AdsError)
    requires
        e.wf(),
    ensures
        AdsError::from_code(e.code()) == e,
{
}

impl From<u32> for AdsError {
    fn from(c: u32) -> (r: AdsError)
        ensures
            r == AdsError::from_code(c),
    {
        AdsError::from_u32(c)
    }
}

impl vstd::std_specs::convert::FromSpecImpl<u32> for AdsError {
    open spec fn obeys_from_spec() -> bool {
        true
    }

    open spec fn from_spec(c: u32) -> AdsError {
        AdsError::from_code(c)
    }
}

/// Why a dotted-sextet network id could not be parsed.
#[derive(Debug, Clone, Copy, PartialEq, Eq, Structural)]
pub enum AmsAddressError {
    /// The part at this position is not a decimal number from 0 to 255.
    ParseError { index: usize },
    /// The text has this many dot-separated parts instead of six.
    InvalidAddressLength { length: usize },
}

/// Input that does not hold a well-formed message: too short, or carrying a
/// value that the protocol does not define.
#[derive(Debug, Clone, Copy, PartialEq, Eq, Structural)]
pub struct MalformedFrame;

/// Why an operation of the client failed.
#[derive(Debug, Clone, Copy, PartialEq, Eq, Structural)]
pub enum ClientError {
    /// A response could not be decoded.
    MalformedFrame,
    /// The device answered with a nonzero result code.
    Device(AdsError),
    /// No symbol handle is cached for the variable.
    SymbolHandleMissing,
    /// No active subscription exists for the variable.
    NoSuchSubscription,
    /// A batch holds more sub-commands than the device accepts.
    BatchTooLarge,
    /// The correlation id is already held by an outstanding call.
    DuplicateInvokeId,
    /// The operation needs a live connection.
    NotConnected,
}

} // verus!

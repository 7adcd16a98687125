//! Error types of the codec and the protocol's status codes.

use vstd::prelude::*;

verus! {

/// Why a byte sequence could not be decoded, or a frame not interpreted.
#[derive(Debug, Clone, Copy, PartialEq, Eq, Structural)]
pub enum ProtoError {
    /// The input ends before a declared field is complete.
    UnexpectedEof,
    /// Declared lengths or counts contradict the size of the input.
    InvalidData,
    /// The frame carries the invalid command, which has no payload.
    InvalidCommand,
    /// A request was asked of a response frame, or a response of a request
    /// frame.
    WrongDirection,
}

/// A payload was asked for as a variant that it is not.
#[derive(Debug, Clone, Copy, PartialEq, Eq, Structural)]
pub enum TryIntoError {
    /// The response holds another variant.
    TryIntoResponseFailed,
    /// The request holds another variant.
    TryIntoRequestFailed,
}

/// `std::num::ParseIntError`, the error of `str::parse` for integers. It is
/// carried from the call to the caller and not looked into.
#[verifier::external_type_specification]
#[verifier::external_body]
pub struct ExParseIntError(std::num::ParseIntError);

/// `Clone::clone` of `std::num::ParseIntError`; nothing is claimed of the
/// copy.
pub assume_specification[ <std::num::ParseIntError as Clone>::clone ](
    error: &std::num::ParseIntError,
) -> (copy: std::num::ParseIntError)
;

/// Why a text is no address.
#[derive(Debug, PartialEq, Eq, Clone)]
pub enum AmsAddressError {
    /// A part of the text is no number, or none that fits.
    ParseError { source: std::num::ParseIntError },
    /// The text does not consist of a net id, a colon and a port.
    SplitError { length: usize },
    /// The net id has neither four nor six parts.
    InvalidAddressLength { length: usize },
}

/// The protocol's status codes: four bands of named codes, and every other
/// code kept as it came.
#[derive(Debug, Clone, Copy, PartialEq, Eq, Structural)]
pub enum AdsError {
    // General codes
    /// No error.
    ErrNoError,
    /// Inernal error.
    ErrInternal,
    /// No real-time.
    ErrNoRTime,
    /// Allocation locked - memory error.
    ErrAllocLockedMem,
    /// Mailbox full- the ADS message could not be sent. Reducing the number of
    /// ADS messages per cylce will help.
    ErrInsertMailBox,
    /// Wrong HMSG.
    ErrWrongRecieveHMSG,
    /// Target port not found - ADS server is not started or is not reachable.
    ErrTargetPortNotFound,
    /// Error target computer not found - AMS route was not found.
    ErrTargetMachineNotFound,
    /// Unknown command ID.
    ErrUnknownCmdId,
    /// Invalid task ID.
    ErrBadTaskId,
    /// No IO.
    ErrNoIO,
    /// Unknown AMS command.
    ErrUnknownAmsCmd,
    /// Wind32 error.
    ErrWin32Error,
    /// Port not connected.
    ErrPortNotConnected,
    /// Invalid AMS length.
    ErrInvalidAmsLength,
    /// Invalid AMS net ID.
    ErrInvalidAmsNetId,
    /// Installatin level is too low - TwinCat 2 licence error.
    ErrLowInstLevel,
    /// No debuging available.
    ErrNoDebugingAvailable,
    /// Port disabled - TwinCat system service not started.
    ErrPortDisabled,
    /// Port already connected.
    ErrPortAlreadyConnected,
    /// AMS sync wind32 error.
    ErrAmsSyncW32Error,
    /// Ams sync timeout.
    ErrAmsSyncTimeout,
    /// AMS sync error.
    ErrAmsSyncAmsError,
    /// No index map for AMS sysnc available.
    ErrAmsSyncNoIndexInMap,
    /// Invalid AMS port.
    ErrInvalidAmsPort,
    /// No memory.
    ErrNoMemory,
    /// TCP send error.
    ErrTcpSend,
    /// Host unreachable.
    ErrHostUnreachable,
    /// Invalid AMS fragment.
    ErrInvalidAmsFragment,
    /// TLS send error - secure ADS connection failed.
    ErrTlsSend,
    /// Access denied - secure ADS access denied.
    ErrAccessDenied,
    // Router codes
    /// Locked memory cannot be alocated.
    RouterErrNoLockedMemory,
    /// The router memory size could not be changed.
    RouterErrResizeMemory,
    /// The mailbox has reached the maximum number of possible messages.
    RouterErrMailboxFull,
    /// The debug mailbox has reached the maximum number of possible messages.
    RouterErrDebugBoxFull,
    /// The port type is unknown.
    RouterErrUnknownPortType,
    /// The router is not initialized.
    RouterErrNotInitialized,
    /// The port number is already assigned.
    RouterErrPortAlreadyInUse,
    /// The port is not registered.
    RouterErrNotRegistered,
    /// The maximum number of ports has been reached.
    RouterErrNoMoreQueues,
    /// The port is invalid.
    RouterErrInvalidPort,
    /// The router is not activated.
    RouterErrNotActivated,
    /// The mailbox has reached the maximum number for fragmented messages.
    RouterErrFragmentBoxFull,
    /// A fragment timeout has occured.
    RouterErrFragmentTimeout,
    /// The port is removed.
    RouterErrToBeRemoved,
    // Device and client codes
    /// General device error.
    AdsErrDeviceError,
    /// Service is not support by the server.
    AdsErrDeviceSrvNotSupp,
    /// Invalid index group.
    AdsErrDeviceInvalidGrp,
    /// Invalid index offset.
    AdsErrDeviceInvalidOffset,
    /// Reading or writing not permittet.
    AdsErrDeviceInvalidAccess,
    /// Parameter size not correct.
    AdsErrDeviceInvalidSize,
    /// Invalid data values.
    AdsErrDeviceInvalidData,
    /// Device is not ready to operate.
    AdsErrDeviceNotReady,
    /// Device is busy.
    AdsErrDeviceBusy,
    /// Invalid operating system context. This can result from use of ADS
    /// function blocks in different tasks. It may be possible to resolve this
    /// through multitasking synchronization in the PLC.
    AdsErrDeviceInvalidContext,
    /// Inusfficient memory.
    AdsErrDeviceNoMemory,
    /// Invalid parameter values.
    AdsErrDeviceInvalidParm,
    /// Not found (files, ...).
    AdsErrDeviceNotFound,
    /// Syntax error in file or command.
    AdsErrDeviceSyntax,
    /// Objects do not match.
    AdsErrDeviceIncompatible,
    /// Object already exists.
    AdsErrDeviceExists,
    /// Symbol not found.
    AdsErrDeviceSymbolNotFound,
    /// Invalid symbol version. This can occure due to an online change. Crate a new handle.
    AdsErrDeviceSymbolVersionInvalid,
    /// Device (server) is in invalid state.
    AdsErrDeviceInvalidState,
    /// Ads transmode not supported.
    AdsErrDeviceTransModeNotSupp,
    /// Notification handle is invalid.
    AdsErrDeviceNotifyHndInvalid,
    /// Notification client not registered.
    AdsErrDeviceClientUnknown,
    /// No further notification handle available.
    AdsErrDeviceNoMoreHDLS,
    /// Notification size too large.
    AdsErrDeviceInvalidWatchSize,
    /// Device not initialized.
    AdsErrDeviceNotInit,
    /// Device has a timeout.
    AdsErrDeviceTimeout,
    /// Interface query failed.
    AdsErrDeviceNoInterface,
    /// Wrong interface request.
    AdsErrDeviceInvalidInterface,
    /// Class ID is invalid.
    AdsErrDeviceInvalidClsID,
    /// Object ID is invalid.
    AdsErrDeviceInvalidOBJID,
    /// Request pending.
    AdsErrDevicePending,
    /// Request is aborted.
    AdsErrDeviceAborted,
    /// Signal warning.
    AdsErrDeviceWarning,
    /// Invalid array index.
    AdsErrDeviceInvalidArrayIDX,
    /// Symbol not active.
    AdsErrDeviceSymbolNotActive,
    /// Access denied.
    AdsErrDeviceAccessDenied,
    /// Missing license.
    AdsErrDeviceLicenseNotFound,
    /// License expired.
    AdsErrDeviceLicenseExpired,
    /// License exceeded.
    AdsErrDeviceLicenseExceeded,
    /// Invalid license.
    AdsErrDeviceLicenseInvalid,
    /// License problem: System ID is invalid.
    AdsErrDeviceLicenseSystemID,
    /// License not limited in time.
    AdsErrDeviceLicenseNoTimeLimit,
    /// License problem: Time in the future.
    AdsErrDeviceLicenseFuturReissue,
    /// License period too long.
    AdsErrDeivceLicenseTimeToLong,
    /// Exception at system startup.
    AdsErrDeviceException,
    /// License file read twice.
    AdsErrDeviceLicenseDublicated,
    /// Invalid signature.
    AdsErrDeviceSignatureInvalid,
    /// Invalid certificate.
    AdsErrDeviceCertificateInvalid,
    /// Public key not known from OEM.
    AdsErrDeviceLicenseOemNotFound,
    /// License not valid for system ID.
    AdsErrDeviceLicenseRestricted,
    /// Demo license prohibited.
    AdsErrDeviceLicenseDemoDenied,
    /// Invalid function ID.
    AdsErrDeviceInvalidFncID,
    /// Outside the valid range.
    AdsErrDeviceOutOfRange,
    /// Invalid alignment.
    AdsErrDeviceInvalidAlignment,
    /// Invalid platform level.
    AdsErrDeviceLicensePlatform,
    /// Context - forward to passive level.
    AdsErrDeviceForwardPL,
    /// Context - forward to sispatch level.
    AdsErrDeviceForwardDL,
    /// Contect - forward to real-time.
    AdsErrDeviceForwardRT,
    /// Client error.
    AdsErrClientError,
    /// Service contains an invalid parameter.
    AdsErrClientInvalidParm,
    /// Possing list is empty.
    AdsErrClientListEmpty,
    /// Var connection already in use.
    AdsErrClientVarUsed,
    /// The called ID is already in use.
    AdsErrClientDublIvokeID,
    /// Timeout has occured - the remote terminal is not responding in the
    /// specific ADS timeout. The router setting of the remote terminal may be
    /// configured incorrectly.
    AdsErrClientSyncTimeout,
    /// Error in win32 subsystem.
    AdsErrClientW32Error,
    /// Invalid client timeout value.
    AdsErrClientTimeoutInvalid,
    /// Port not open.
    AdsErrClientPortNotOpen,
    /// No Ams Address.
    AdsErrClientNoAmsAddress,
    /// Internal error in ADS sync.
    AdsErrClientSyncInternal,
    /// Hash table overflow.
    AdsErrClientAddHash,
    /// Key not found in the table.
    AdsErrClientRemoveHash,
    /// No symbols in the cache.
    AdsErrClientNoMoreSym,
    /// Invalid response received.
    AdsErrClientSyncResInvalid,
    /// Sync port is locked.
    AdsErrClientSyncPortLocked,
    // Real-time codes
    /// Internal error in the real-time system.
    RtErrInternal,
    /// Time value is not valid.
    RtErrBadTimerPeriods,
    /// Task pointer has the invalid value 0 (zero).
    RtErrInvalidTaskPtr,
    /// Stack pointer has the invalid value 0 (zero).
    RtErrInvalidStackPtr,
    /// The requested task priority is already assigned.
    RtErrPrioExists,
    /// No free TCB (Task control block) available. The maximum number of TCB's is 64.
    RtErrNoMoreTCB,
    /// No free semaphores available. The maximum number of semaphores is 64.
    RtErrNoMoreSemas,
    /// No free space available in the queue. The maximum number of positions in the queue is 64.
    RtErrNoMoreQueues,
    /// An external synchronization interrupt is already applied.
    RtErrExtIrqAlreadyDef,
    /// No externel sync interrupt applied.
    RtErrExtIrqNotDef,
    /// Application of the external synchronization interrupt has failed.
    RtErrExtIrgInstallFaild,
    /// Call of a service function in the wrong context.
    RtErrIrqlNotLessOrEqual,
    /// Intel VT-x extension not supported.
    RtErrVmxNotSupported,
    /// Intel VT-x extension is not enabled in the BIOS.
    RtErrVmxDisabled,
    /// Missing function in Intel VT-x extension.
    RtErrVmxControlsMissing,
    /// Activation of intel VT-x fails.
    RtErrVmxEnableFails,
    /// A code outside the four bands, possibly one of the transport layer.
    ErrUnknowAdsError { error_code: u32 },
}

impl View for AdsError {
    type V = AdsError;

    open spec fn view(&self) -> AdsError {
        *self
    }
}

impl AdsError {
    /// The integer that stands for a status on the wire.
    pub open spec fn code(self) -> u32 {
        match self {
            AdsError::ErrNoError => 0,
            AdsError::ErrInternal => 1,
            AdsError::ErrNoRTime => 2,
            AdsError::ErrAllocLockedMem => 3,
            AdsError::ErrInsertMailBox => 4,
            AdsError::ErrWrongRecieveHMSG => 5,
            AdsError::ErrTargetPortNotFound => 6,
            AdsError::ErrTargetMachineNotFound => 7,
            AdsError::ErrUnknownCmdId => 8,
            AdsError::ErrBadTaskId => 9,
            AdsError::ErrNoIO => 10,
            AdsError::ErrUnknownAmsCmd => 11,
            AdsError::ErrWin32Error => 12,
            AdsError::ErrPortNotConnected => 13,
            AdsError::ErrInvalidAmsLength => 14,
            AdsError::ErrInvalidAmsNetId => 15,
            AdsError::ErrLowInstLevel => 16,
            AdsError::ErrNoDebugingAvailable => 17,
            AdsError::ErrPortDisabled => 18,
            AdsError::ErrPortAlreadyConnected => 19,
            AdsError::ErrAmsSyncW32Error => 20,
            AdsError::ErrAmsSyncTimeout => 21,
            AdsError::ErrAmsSyncAmsError => 22,
            AdsError::ErrAmsSyncNoIndexInMap => 23,
            AdsError::ErrInvalidAmsPort => 24,
            AdsError::ErrNoMemory => 25,
            AdsError::ErrTcpSend => 26,
            AdsError::ErrHostUnreachable => 27,
            AdsError::ErrInvalidAmsFragment => 28,
            AdsError::ErrTlsSend => 29,
            AdsError::ErrAccessDenied => 30,
            AdsError::RouterErrNoLockedMemory => 1280,
            AdsError::RouterErrResizeMemory => 1281,
            AdsError::RouterErrMailboxFull => 1282,
            AdsError::RouterErrDebugBoxFull => 1283,
            AdsError::RouterErrUnknownPortType => 1284,
            AdsError::RouterErrNotInitialized => 1285,
            AdsError::RouterErrPortAlreadyInUse => 1286,
            AdsError::RouterErrNotRegistered => 1287,
            AdsError::RouterErrNoMoreQueues => 1288,
            AdsError::RouterErrInvalidPort => 1289,
            AdsError::RouterErrNotActivated => 1290,
            AdsError::RouterErrFragmentBoxFull => 1291,
            AdsError::RouterErrFragmentTimeout => 1292,
            AdsError::RouterErrToBeRemoved => 1293,
            AdsError::AdsErrDeviceError => 1792,
            AdsError::AdsErrDeviceSrvNotSupp => 1793,
            AdsError::AdsErrDeviceInvalidGrp => 1794,
            AdsError::AdsErrDeviceInvalidOffset => 1795,
            AdsError::AdsErrDeviceInvalidAccess => 1796,
            AdsError::AdsErrDeviceInvalidSize => 1797,
            AdsError::AdsErrDeviceInvalidData => 1798,
            AdsError::AdsErrDeviceNotReady => 1799,
            AdsError::AdsErrDeviceBusy => 1800,
            AdsError::AdsErrDeviceInvalidContext => 1801,
            AdsError::AdsErrDeviceNoMemory => 1802,
            AdsError::AdsErrDeviceInvalidParm => 1803,
            AdsError::AdsErrDeviceNotFound => 1804,
            AdsError::AdsErrDeviceSyntax => 1805,
            AdsError::AdsErrDeviceIncompatible => 1806,
            AdsError::AdsErrDeviceExists => 1807,
            AdsError::AdsErrDeviceSymbolNotFound => 1808,
            AdsError::AdsErrDeviceSymbolVersionInvalid => 1809,
            AdsError::AdsErrDeviceInvalidState => 1810,
            AdsError::AdsErrDeviceTransModeNotSupp => 1811,
            AdsError::AdsErrDeviceNotifyHndInvalid => 1812,
            AdsError::AdsErrDeviceClientUnknown => 1813,
            AdsError::AdsErrDeviceNoMoreHDLS => 1814,
            AdsError::AdsErrDeviceInvalidWatchSize => 1815,
            AdsError::AdsErrDeviceNotInit => 1816,
            AdsError::AdsErrDeviceTimeout => 1817,
            AdsError::AdsErrDeviceNoInterface => 1818,
            AdsError::AdsErrDeviceInvalidInterface => 1819,
            AdsError::AdsErrDeviceInvalidClsID => 1820,
            AdsError::AdsErrDeviceInvalidOBJID => 1821,
            AdsError::AdsErrDevicePending => 1822,
            AdsError::AdsErrDeviceAborted => 1823,
            AdsError::AdsErrDeviceWarning => 1824,
            AdsError::AdsErrDeviceInvalidArrayIDX => 1825,
            AdsError::AdsErrDeviceSymbolNotActive => 1826,
            AdsError::AdsErrDeviceAccessDenied => 1827,
            AdsError::AdsErrDeviceLicenseNotFound => 1828,
            AdsError::AdsErrDeviceLicenseExpired => 1829,
            AdsError::AdsErrDeviceLicenseExceeded => 1830,
            AdsError::AdsErrDeviceLicenseInvalid => 1831,
            AdsError::AdsErrDeviceLicenseSystemID => 1832,
            AdsError::AdsErrDeviceLicenseNoTimeLimit => 1833,
            AdsError::AdsErrDeviceLicenseFuturReissue => 1834,
            AdsError::AdsErrDeivceLicenseTimeToLong => 1835,
            AdsError::AdsErrDeviceException => 1836,
            AdsError::AdsErrDeviceLicenseDublicated => 1837,
            AdsError::AdsErrDeviceSignatureInvalid => 1838,
            AdsError::AdsErrDeviceCertificateInvalid => 1839,
            AdsError::AdsErrDeviceLicenseOemNotFound => 1840,
            AdsError::AdsErrDeviceLicenseRestricted => 1841,
            AdsError::AdsErrDeviceLicenseDemoDenied => 1842,
            AdsError::AdsErrDeviceInvalidFncID => 1843,
            AdsError::AdsErrDeviceOutOfRange => 1844,
            AdsError::AdsErrDeviceInvalidAlignment => 1845,
            AdsError::AdsErrDeviceLicensePlatform => 1846,
            AdsError::AdsErrDeviceForwardPL => 1847,
            AdsError::AdsErrDeviceForwardDL => 1848,
            AdsError::AdsErrDeviceForwardRT => 1849,
            AdsError::AdsErrClientError => 1856,
            AdsError::AdsErrClientInvalidParm => 1857,
            AdsError::AdsErrClientListEmpty => 1858,
            AdsError::AdsErrClientVarUsed => 1859,
            AdsError::AdsErrClientDublIvokeID => 1860,
            AdsError::AdsErrClientSyncTimeout => 1861,
            AdsError::AdsErrClientW32Error => 1862,
            AdsError::AdsErrClientTimeoutInvalid => 1863,
            AdsError::AdsErrClientPortNotOpen => 1864,
            AdsError::AdsErrClientNoAmsAddress => 1865,
            AdsError::AdsErrClientSyncInternal => 1872,
            AdsError::AdsErrClientAddHash => 1873,
            AdsError::AdsErrClientRemoveHash => 1874,
            AdsError::AdsErrClientNoMoreSym => 1875,
            AdsError::AdsErrClientSyncResInvalid => 1876,
            AdsError::AdsErrClientSyncPortLocked => 1877,
            AdsError::RtErrInternal => 4096,
            AdsError::RtErrBadTimerPeriods => 4097,
            AdsError::RtErrInvalidTaskPtr => 4098,
            AdsError::RtErrInvalidStackPtr => 4099,
            AdsError::RtErrPrioExists => 4100,
            AdsError::RtErrNoMoreTCB => 4101,
            AdsError::RtErrNoMoreSemas => 4102,
            AdsError::RtErrNoMoreQueues => 4103,
            AdsError::RtErrExtIrqAlreadyDef => 4109,
            AdsError::RtErrExtIrqNotDef => 4110,
            AdsError::RtErrExtIrgInstallFaild => 4111,
            AdsError::RtErrIrqlNotLessOrEqual => 4112,
            AdsError::RtErrVmxNotSupported => 4119,
            AdsError::RtErrVmxDisabled => 4120,
            AdsError::RtErrVmxControlsMissing => 4121,
            AdsError::RtErrVmxEnableFails => 4122,
            AdsError::ErrUnknowAdsError { error_code } => error_code,
        }
    }

    /// The status that an integer stands for: its name where it has one,
    /// else the integer itself, kept.
    pub open spec fn of_code(error_code: u32) -> AdsError {
        match error_code {
            0 => AdsError::ErrNoError,
            1 => AdsError::ErrInternal,
            2 => AdsError::ErrNoRTime,
            3 => AdsError::ErrAllocLockedMem,
            4 => AdsError::ErrInsertMailBox,
            5 => AdsError::ErrWrongRecieveHMSG,
            6 => AdsError::ErrTargetPortNotFound,
            7 => AdsError::ErrTargetMachineNotFound,
            8 => AdsError::ErrUnknownCmdId,
            9 => AdsError::ErrBadTaskId,
            10 => AdsError::ErrNoIO,
            11 => AdsError::ErrUnknownAmsCmd,
            12 => AdsError::ErrWin32Error,
            13 => AdsError::ErrPortNotConnected,
            14 => AdsError::ErrInvalidAmsLength,
            15 => AdsError::ErrInvalidAmsNetId,
            16 => AdsError::ErrLowInstLevel,
            17 => AdsError::ErrNoDebugingAvailable,
            18 => AdsError::ErrPortDisabled,
            19 => AdsError::ErrPortAlreadyConnected,
            20 => AdsError::ErrAmsSyncW32Error,
            21 => AdsError::ErrAmsSyncTimeout,
            22 => AdsError::ErrAmsSyncAmsError,
            23 => AdsError::ErrAmsSyncNoIndexInMap,
            24 => AdsError::ErrInvalidAmsPort,
            25 => AdsError::ErrNoMemory,
            26 => AdsError::ErrTcpSend,
            27 => AdsError::ErrHostUnreachable,
            28 => AdsError::ErrInvalidAmsFragment,
            29 => AdsError::ErrTlsSend,
            30 => AdsError::ErrAccessDenied,
            1280 => AdsError::RouterErrNoLockedMemory,
            1281 => AdsError::RouterErrResizeMemory,
            1282 => AdsError::RouterErrMailboxFull,
            1283 => AdsError::RouterErrDebugBoxFull,
            1284 => AdsError::RouterErrUnknownPortType,
            1285 => AdsError::RouterErrNotInitialized,
            1286 => AdsError::RouterErrPortAlreadyInUse,
            1287 => AdsError::RouterErrNotRegistered,
            1288 => AdsError::RouterErrNoMoreQueues,
            1289 => AdsError::RouterErrInvalidPort,
            1290 => AdsError::RouterErrNotActivated,
            1291 => AdsError::RouterErrFragmentBoxFull,
            1292 => AdsError::RouterErrFragmentTimeout,
            1293 => AdsError::RouterErrToBeRemoved,
            1792 => AdsError::AdsErrDeviceError,
            1793 => AdsError::AdsErrDeviceSrvNotSupp,
            1794 => AdsError::AdsErrDeviceInvalidGrp,
            1795 => AdsError::AdsErrDeviceInvalidOffset,
            1796 => AdsError::AdsErrDeviceInvalidAccess,
            1797 => AdsError::AdsErrDeviceInvalidSize,
            1798 => AdsError::AdsErrDeviceInvalidData,
            1799 => AdsError::AdsErrDeviceNotReady,
            1800 => AdsError::AdsErrDeviceBusy,
            1801 => AdsError::AdsErrDeviceInvalidContext,
            1802 => AdsError::AdsErrDeviceNoMemory,
            1803 => AdsError::AdsErrDeviceInvalidParm,
            1804 => AdsError::AdsErrDeviceNotFound,
            1805 => AdsError::AdsErrDeviceSyntax,
            1806 => AdsError::AdsErrDeviceIncompatible,
            1807 => AdsError::AdsErrDeviceExists,
            1808 => AdsError::AdsErrDeviceSymbolNotFound,
            1809 => AdsError::AdsErrDeviceSymbolVersionInvalid,
            1810 => AdsError::AdsErrDeviceInvalidState,
            1811 => AdsError::AdsErrDeviceTransModeNotSupp,
            1812 => AdsError::AdsErrDeviceNotifyHndInvalid,
            1813 => AdsError::AdsErrDeviceClientUnknown,
            1814 => AdsError::AdsErrDeviceNoMoreHDLS,
            1815 => AdsError::AdsErrDeviceInvalidWatchSize,
            1816 => AdsError::AdsErrDeviceNotInit,
            1817 => AdsError::AdsErrDeviceTimeout,
            1818 => AdsError::AdsErrDeviceNoInterface,
            1819 => AdsError::AdsErrDeviceInvalidInterface,
            1820 => AdsError::AdsErrDeviceInvalidClsID,
            1821 => AdsError::AdsErrDeviceInvalidOBJID,
            1822 => AdsError::AdsErrDevicePending,
            1823 => AdsError::AdsErrDeviceAborted,
            1824 => AdsError::AdsErrDeviceWarning,
            1825 => AdsError::AdsErrDeviceInvalidArrayIDX,
            1826 => AdsError::AdsErrDeviceSymbolNotActive,
            1827 => AdsError::AdsErrDeviceAccessDenied,
            1828 => AdsError::AdsErrDeviceLicenseNotFound,
            1829 => AdsError::AdsErrDeviceLicenseExpired,
            1830 => AdsError::AdsErrDeviceLicenseExceeded,
            1831 => AdsError::AdsErrDeviceLicenseInvalid,
            1832 => AdsError::AdsErrDeviceLicenseSystemID,
            1833 => AdsError::AdsErrDeviceLicenseNoTimeLimit,
            1834 => AdsError::AdsErrDeviceLicenseFuturReissue,
            1835 => AdsError::AdsErrDeivceLicenseTimeToLong,
            1836 => AdsError::AdsErrDeviceException,
            1837 => AdsError::AdsErrDeviceLicenseDublicated,
            1838 => AdsError::AdsErrDeviceSignatureInvalid,
            1839 => AdsError::AdsErrDeviceCertificateInvalid,
            1840 => AdsError::AdsErrDeviceLicenseOemNotFound,
            1841 => AdsError::AdsErrDeviceLicenseRestricted,
            1842 => AdsError::AdsErrDeviceLicenseDemoDenied,
            1843 => AdsError::AdsErrDeviceInvalidFncID,
            1844 => AdsError::AdsErrDeviceOutOfRange,
            1845 => AdsError::AdsErrDeviceInvalidAlignment,
            1846 => AdsError::AdsErrDeviceLicensePlatform,
            1847 => AdsError::AdsErrDeviceForwardPL,
            1848 => AdsError::AdsErrDeviceForwardDL,
            1849 => AdsError::AdsErrDeviceForwardRT,
            1856 => AdsError::AdsErrClientError,
            1857 => AdsError::AdsErrClientInvalidParm,
            1858 => AdsError::AdsErrClientListEmpty,
            1859 => AdsError::AdsErrClientVarUsed,
            1860 => AdsError::AdsErrClientDublIvokeID,
            1861 => AdsError::AdsErrClientSyncTimeout,
            1862 => AdsError::AdsErrClientW32Error,
            1863 => AdsError::AdsErrClientTimeoutInvalid,
            1864 => AdsError::AdsErrClientPortNotOpen,
            1865 => AdsError::AdsErrClientNoAmsAddress,
            1872 => AdsError::AdsErrClientSyncInternal,
            1873 => AdsError::AdsErrClientAddHash,
            1874 => AdsError::AdsErrClientRemoveHash,
            1875 => AdsError::AdsErrClientNoMoreSym,
            1876 => AdsError::AdsErrClientSyncResInvalid,
            1877 => AdsError::AdsErrClientSyncPortLocked,
            4096 => AdsError::RtErrInternal,
            4097 => AdsError::RtErrBadTimerPeriods,
            4098 => AdsError::RtErrInvalidTaskPtr,
            4099 => AdsError::RtErrInvalidStackPtr,
            4100 => AdsError::RtErrPrioExists,
            4101 => AdsError::RtErrNoMoreTCB,
            4102 => AdsError::RtErrNoMoreSemas,
            4103 => AdsError::RtErrNoMoreQueues,
            4109 => AdsError::RtErrExtIrqAlreadyDef,
            4110 => AdsError::RtErrExtIrqNotDef,
            4111 => AdsError::RtErrExtIrgInstallFaild,
            4112 => AdsError::RtErrIrqlNotLessOrEqual,
            4119 => AdsError::RtErrVmxNotSupported,
            4120 => AdsError::RtErrVmxDisabled,
            4121 => AdsError::RtErrVmxControlsMissing,
            4122 => AdsError::RtErrVmxEnableFails,
            _ => AdsError::ErrUnknowAdsError { error_code },
        }
    }

    /// Whether an integer has a name.
    pub open spec fn is_named_code(error_code: u32) -> bool {
        !(AdsError::of_code(error_code) is ErrUnknowAdsError)
    }

    /// Whether a status is the one that its own code decodes to: a named
    /// status always is, an unknown one unless it holds a code that has a name.
    pub open spec fn is_canonical(self) -> bool {
        self is ErrUnknowAdsError ==> !AdsError::is_named_code(self->error_code)
    }

    /// The integer that stands for the status on the wire.
    pub fn as_u32(&self) -> (error_code: u32)
        ensures
            error_code == self.code(),
    {
        match self {
            AdsError::ErrNoError => 0,
            AdsError::ErrInternal => 1,
            AdsError::ErrNoRTime => 2,
            AdsError::ErrAllocLockedMem => 3,
            AdsError::ErrInsertMailBox => 4,
            AdsError::ErrWrongRecieveHMSG => 5,
            AdsError::ErrTargetPortNotFound => 6,
            AdsError::ErrTargetMachineNotFound => 7,
            AdsError::ErrUnknownCmdId => 8,
            AdsError::ErrBadTaskId => 9,
            AdsError::ErrNoIO => 10,
            AdsError::ErrUnknownAmsCmd => 11,
            AdsError::ErrWin32Error => 12,
            AdsError::ErrPortNotConnected => 13,
            AdsError::ErrInvalidAmsLength => 14,
            AdsError::ErrInvalidAmsNetId => 15,
            AdsError::ErrLowInstLevel => 16,
            AdsError::ErrNoDebugingAvailable => 17,
            AdsError::ErrPortDisabled => 18,
            AdsError::ErrPortAlreadyConnected => 19,
            AdsError::ErrAmsSyncW32Error => 20,
            AdsError::ErrAmsSyncTimeout => 21,
            AdsError::ErrAmsSyncAmsError => 22,
            AdsError::ErrAmsSyncNoIndexInMap => 23,
            AdsError::ErrInvalidAmsPort => 24,
            AdsError::ErrNoMemory => 25,
            AdsError::ErrTcpSend => 26,
            AdsError::ErrHostUnreachable => 27,
            AdsError::ErrInvalidAmsFragment => 28,
            AdsError::ErrTlsSend => 29,
            AdsError::ErrAccessDenied => 30,
            AdsError::RouterErrNoLockedMemory => 1280,
            AdsError::RouterErrResizeMemory => 1281,
            AdsError::RouterErrMailboxFull => 1282,
            AdsError::RouterErrDebugBoxFull => 1283,
            AdsError::RouterErrUnknownPortType => 1284,
            AdsError::RouterErrNotInitialized => 1285,
            AdsError::RouterErrPortAlreadyInUse => 1286,
            AdsError::RouterErrNotRegistered => 1287,
            AdsError::RouterErrNoMoreQueues => 1288,
            AdsError::RouterErrInvalidPort => 1289,
            AdsError::RouterErrNotActivated => 1290,
            AdsError::RouterErrFragmentBoxFull => 1291,
            AdsError::RouterErrFragmentTimeout => 1292,
            AdsError::RouterErrToBeRemoved => 1293,
            AdsError::AdsErrDeviceError => 1792,
            AdsError::AdsErrDeviceSrvNotSupp => 1793,
            AdsError::AdsErrDeviceInvalidGrp => 1794,
            AdsError::AdsErrDeviceInvalidOffset => 1795,
            AdsError::AdsErrDeviceInvalidAccess => 1796,
            AdsError::AdsErrDeviceInvalidSize => 1797,
            AdsError::AdsErrDeviceInvalidData => 1798,
            AdsError::AdsErrDeviceNotReady => 1799,
            AdsError::AdsErrDeviceBusy => 1800,
            AdsError::AdsErrDeviceInvalidContext => 1801,
            AdsError::AdsErrDeviceNoMemory => 1802,
            AdsError::AdsErrDeviceInvalidParm => 1803,
            AdsError::AdsErrDeviceNotFound => 1804,
            AdsError::AdsErrDeviceSyntax => 1805,
            AdsError::AdsErrDeviceIncompatible => 1806,
            AdsError::AdsErrDeviceExists => 1807,
            AdsError::AdsErrDeviceSymbolNotFound => 1808,
            AdsError::AdsErrDeviceSymbolVersionInvalid => 1809,
            AdsError::AdsErrDeviceInvalidState => 1810,
            AdsError::AdsErrDeviceTransModeNotSupp => 1811,
            AdsError::AdsErrDeviceNotifyHndInvalid => 1812,
            AdsError::AdsErrDeviceClientUnknown => 1813,
            AdsError::AdsErrDeviceNoMoreHDLS => 1814,
            AdsError::AdsErrDeviceInvalidWatchSize => 1815,
            AdsError::AdsErrDeviceNotInit => 1816,
            AdsError::AdsErrDeviceTimeout => 1817,
            AdsError::AdsErrDeviceNoInterface => 1818,
            AdsError::AdsErrDeviceInvalidInterface => 1819,
            AdsError::AdsErrDeviceInvalidClsID => 1820,
            AdsError::AdsErrDeviceInvalidOBJID => 1821,
            AdsError::AdsErrDevicePending => 1822,
            AdsError::AdsErrDeviceAborted => 1823,
            AdsError::AdsErrDeviceWarning => 1824,
            AdsError::AdsErrDeviceInvalidArrayIDX => 1825,
            AdsError::AdsErrDeviceSymbolNotActive => 1826,
            AdsError::AdsErrDeviceAccessDenied => 1827,
            AdsError::AdsErrDeviceLicenseNotFound => 1828,
            AdsError::AdsErrDeviceLicenseExpired => 1829,
            AdsError::AdsErrDeviceLicenseExceeded => 1830,
            AdsError::AdsErrDeviceLicenseInvalid => 1831,
            AdsError::AdsErrDeviceLicenseSystemID => 1832,
            AdsError::AdsErrDeviceLicenseNoTimeLimit => 1833,
            AdsError::AdsErrDeviceLicenseFuturReissue => 1834,
            AdsError::AdsErrDeivceLicenseTimeToLong => 1835,
            AdsError::AdsErrDeviceException => 1836,
            AdsError::AdsErrDeviceLicenseDublicated => 1837,
            AdsError::AdsErrDeviceSignatureInvalid => 1838,
            AdsError::AdsErrDeviceCertificateInvalid => 1839,
            AdsError::AdsErrDeviceLicenseOemNotFound => 1840,
            AdsError::AdsErrDeviceLicenseRestricted => 1841,
            AdsError::AdsErrDeviceLicenseDemoDenied => 1842,
            AdsError::AdsErrDeviceInvalidFncID => 1843,
            AdsError::AdsErrDeviceOutOfRange => 1844,
            AdsError::AdsErrDeviceInvalidAlignment => 1845,
            AdsError::AdsErrDeviceLicensePlatform => 1846,
            AdsError::AdsErrDeviceForwardPL => 1847,
            AdsError::AdsErrDeviceForwardDL => 1848,
            AdsError::AdsErrDeviceForwardRT => 1849,
            AdsError::AdsErrClientError => 1856,
            AdsError::AdsErrClientInvalidParm => 1857,
            AdsError::AdsErrClientListEmpty => 1858,
            AdsError::AdsErrClientVarUsed => 1859,
            AdsError::AdsErrClientDublIvokeID => 1860,
            AdsError::AdsErrClientSyncTimeout => 1861,
            AdsError::AdsErrClientW32Error => 1862,
            AdsError::AdsErrClientTimeoutInvalid => 1863,
            AdsError::AdsErrClientPortNotOpen => 1864,
            AdsError::AdsErrClientNoAmsAddress => 1865,
            AdsError::AdsErrClientSyncInternal => 1872,
            AdsError::AdsErrClientAddHash => 1873,
            AdsError::AdsErrClientRemoveHash => 1874,
            AdsError::AdsErrClientNoMoreSym => 1875,
            AdsError::AdsErrClientSyncResInvalid => 1876,
            AdsError::AdsErrClientSyncPortLocked => 1877,
            AdsError::RtErrInternal => 4096,
            AdsError::RtErrBadTimerPeriods => 4097,
            AdsError::RtErrInvalidTaskPtr => 4098,
            AdsError::RtErrInvalidStackPtr => 4099,
            AdsError::RtErrPrioExists => 4100,
            AdsError::RtErrNoMoreTCB => 4101,
            AdsError::RtErrNoMoreSemas => 4102,
            AdsError::RtErrNoMoreQueues => 4103,
            AdsError::RtErrExtIrqAlreadyDef => 4109,
            AdsError::RtErrExtIrqNotDef => 4110,
            AdsError::RtErrExtIrgInstallFaild => 4111,
            AdsError::RtErrIrqlNotLessOrEqual => 4112,
            AdsError::RtErrVmxNotSupported => 4119,
            AdsError::RtErrVmxDisabled => 4120,
            AdsError::RtErrVmxControlsMissing => 4121,
            AdsError::RtErrVmxEnableFails => 4122,
            AdsError::ErrUnknowAdsError { error_code } => *error_code,
        }
    }
}

impl AdsError {
    /// The status that an integer stands for.
    pub fn from_code(error_code: u32) -> (status: AdsError)
        ensures
            status == AdsError::of_code(error_code),
    {
        match error_code {
            0 => AdsError::ErrNoError,
            1 => AdsError::ErrInternal,
            2 => AdsError::ErrNoRTime,
            3 => AdsError::ErrAllocLockedMem,
            4 => AdsError::ErrInsertMailBox,
            5 => AdsError::ErrWrongRecieveHMSG,
            6 => AdsError::ErrTargetPortNotFound,
            7 => AdsError::ErrTargetMachineNotFound,
            8 => AdsError::ErrUnknownCmdId,
            9 => AdsError::ErrBadTaskId,
            10 => AdsError::ErrNoIO,
            11 => AdsError::ErrUnknownAmsCmd,
            12 => AdsError::ErrWin32Error,
            13 => AdsError::ErrPortNotConnected,
            14 => AdsError::ErrInvalidAmsLength,
            15 => AdsError::ErrInvalidAmsNetId,
            16 => AdsError::ErrLowInstLevel,
            17 => AdsError::ErrNoDebugingAvailable,
            18 => AdsError::ErrPortDisabled,
            19 => AdsError::ErrPortAlreadyConnected,
            20 => AdsError::ErrAmsSyncW32Error,
            21 => AdsError::ErrAmsSyncTimeout,
            22 => AdsError::ErrAmsSyncAmsError,
            23 => AdsError::ErrAmsSyncNoIndexInMap,
            24 => AdsError::ErrInvalidAmsPort,
            25 => AdsError::ErrNoMemory,
            26 => AdsError::ErrTcpSend,
            27 => AdsError::ErrHostUnreachable,
            28 => AdsError::ErrInvalidAmsFragment,
            29 => AdsError::ErrTlsSend,
            30 => AdsError::ErrAccessDenied,
            1280 => AdsError::RouterErrNoLockedMemory,
            1281 => AdsError::RouterErrResizeMemory,
            1282 => AdsError::RouterErrMailboxFull,
            1283 => AdsError::RouterErrDebugBoxFull,
            1284 => AdsError::RouterErrUnknownPortType,
            1285 => AdsError::RouterErrNotInitialized,
            1286 => AdsError::RouterErrPortAlreadyInUse,
            1287 => AdsError::RouterErrNotRegistered,
            1288 => AdsError::RouterErrNoMoreQueues,
            1289 => AdsError::RouterErrInvalidPort,
            1290 => AdsError::RouterErrNotActivated,
            1291 => AdsError::RouterErrFragmentBoxFull,
            1292 => AdsError::RouterErrFragmentTimeout,
            1293 => AdsError::RouterErrToBeRemoved,
            1792 => AdsError::AdsErrDeviceError,
            1793 => AdsError::AdsErrDeviceSrvNotSupp,
            1794 => AdsError::AdsErrDeviceInvalidGrp,
            1795 => AdsError::AdsErrDeviceInvalidOffset,
            1796 => AdsError::AdsErrDeviceInvalidAccess,
            1797 => AdsError::AdsErrDeviceInvalidSize,
            1798 => AdsError::AdsErrDeviceInvalidData,
            1799 => AdsError::AdsErrDeviceNotReady,
            1800 => AdsError::AdsErrDeviceBusy,
            1801 => AdsError::AdsErrDeviceInvalidContext,
            1802 => AdsError::AdsErrDeviceNoMemory,
            1803 => AdsError::AdsErrDeviceInvalidParm,
            1804 => AdsError::AdsErrDeviceNotFound,
            1805 => AdsError::AdsErrDeviceSyntax,
            1806 => AdsError::AdsErrDeviceIncompatible,
            1807 => AdsError::AdsErrDeviceExists,
            1808 => AdsError::AdsErrDeviceSymbolNotFound,
            1809 => AdsError::AdsErrDeviceSymbolVersionInvalid,
            1810 => AdsError::AdsErrDeviceInvalidState,
            1811 => AdsError::AdsErrDeviceTransModeNotSupp,
            1812 => AdsError::AdsErrDeviceNotifyHndInvalid,
            1813 => AdsError::AdsErrDeviceClientUnknown,
            1814 => AdsError::AdsErrDeviceNoMoreHDLS,
            1815 => AdsError::AdsErrDeviceInvalidWatchSize,
            1816 => AdsError::AdsErrDeviceNotInit,
            1817 => AdsError::AdsErrDeviceTimeout,
            1818 => AdsError::AdsErrDeviceNoInterface,
            1819 => AdsError::AdsErrDeviceInvalidInterface,
            1820 => AdsError::AdsErrDeviceInvalidClsID,
            1821 => AdsError::AdsErrDeviceInvalidOBJID,
            1822 => AdsError::AdsErrDevicePending,
            1823 => AdsError::AdsErrDeviceAborted,
            1824 => AdsError::AdsErrDeviceWarning,
            1825 => AdsError::AdsErrDeviceInvalidArrayIDX,
            1826 => AdsError::AdsErrDeviceSymbolNotActive,
            1827 => AdsError::AdsErrDeviceAccessDenied,
            1828 => AdsError::AdsErrDeviceLicenseNotFound,
            1829 => AdsError::AdsErrDeviceLicenseExpired,
            1830 => AdsError::AdsErrDeviceLicenseExceeded,
            1831 => AdsError::AdsErrDeviceLicenseInvalid,
            1832 => AdsError::AdsErrDeviceLicenseSystemID,
            1833 => AdsError::AdsErrDeviceLicenseNoTimeLimit,
            1834 => AdsError::AdsErrDeviceLicenseFuturReissue,
            1835 => AdsError::AdsErrDeivceLicenseTimeToLong,
            1836 => AdsError::AdsErrDeviceException,
            1837 => AdsError::AdsErrDeviceLicenseDublicated,
            1838 => AdsError::AdsErrDeviceSignatureInvalid,
            1839 => AdsError::AdsErrDeviceCertificateInvalid,
            1840 => AdsError::AdsErrDeviceLicenseOemNotFound,
            1841 => AdsError::AdsErrDeviceLicenseRestricted,
            1842 => AdsError::AdsErrDeviceLicenseDemoDenied,
            1843 => AdsError::AdsErrDeviceInvalidFncID,
            1844 => AdsError::AdsErrDeviceOutOfRange,
            1845 => AdsError::AdsErrDeviceInvalidAlignment,
            1846 => AdsError::AdsErrDeviceLicensePlatform,
            1847 => AdsError::AdsErrDeviceForwardPL,
            1848 => AdsError::AdsErrDeviceForwardDL,
            1849 => AdsError::AdsErrDeviceForwardRT,
            1856 => AdsError::AdsErrClientError,
            1857 => AdsError::AdsErrClientInvalidParm,
            1858 => AdsError::AdsErrClientListEmpty,
            1859 => AdsError::AdsErrClientVarUsed,
            1860 => AdsError::AdsErrClientDublIvokeID,
            1861 => AdsError::AdsErrClientSyncTimeout,
            1862 => AdsError::AdsErrClientW32Error,
            1863 => AdsError::AdsErrClientTimeoutInvalid,
            1864 => AdsError::AdsErrClientPortNotOpen,
            1865 => AdsError::AdsErrClientNoAmsAddress,
            1872 => AdsError::AdsErrClientSyncInternal,
            1873 => AdsError::AdsErrClientAddHash,
            1874 => AdsError::AdsErrClientRemoveHash,
            1875 => AdsError::AdsErrClientNoMoreSym,
            1876 => AdsError::AdsErrClientSyncResInvalid,
            1877 => AdsError::AdsErrClientSyncPortLocked,
            4096 => AdsError::RtErrInternal,
            4097 => AdsError::RtErrBadTimerPeriods,
            4098 => AdsError::RtErrInvalidTaskPtr,
            4099 => AdsError::RtErrInvalidStackPtr,
            4100 => AdsError::RtErrPrioExists,
            4101 => AdsError::RtErrNoMoreTCB,
            4102 => AdsError::RtErrNoMoreSemas,
            4103 => AdsError::RtErrNoMoreQueues,
            4109 => AdsError::RtErrExtIrqAlreadyDef,
            4110 => AdsError::RtErrExtIrqNotDef,
            4111 => AdsError::RtErrExtIrgInstallFaild,
            4112 => AdsError::RtErrIrqlNotLessOrEqual,
            4119 => AdsError::RtErrVmxNotSupported,
            4120 => AdsError::RtErrVmxDisabled,
            4121 => AdsError::RtErrVmxControlsMissing,
            4122 => AdsError::RtErrVmxEnableFails,
            val => AdsError::ErrUnknowAdsError { error_code: val },
        }
    }
}

impl From<u32> for AdsError {
    fn from(error_code: u32) -> (status: AdsError) {
        AdsError::from_code(error_code)
    }
}

impl vstd::std_specs::convert::FromSpecImpl<u32> for AdsError {
    open spec fn obeys_from_spec() -> bool {
        true
    }

    open spec fn from_spec(error_code: u32) -> AdsError {
        AdsError::of_code(error_code)
    }
}

/// The code of the status of an integer is that integer, for every integer;
/// an integer without a name decodes to the unknown status that holds it;
/// and a canonical status, so every named one, is the status of its own code.
pub proof fn lemma_status_code_bijection(status: AdsError, error_code: u32)
    ensures
        AdsError::of_code(error_code).code() == error_code,
        !AdsError::is_named_code(error_code) ==> AdsError::of_code(error_code)
            == (AdsError::ErrUnknowAdsError { error_code }),
        status.is_canonical() ==> AdsError::of_code(status.code()) == status,
        !(status is ErrUnknowAdsError) ==> status.is_canonical(),
{
}

} // verus!

//! Typed errors of the session layer.
//!
//! Each variant is a distinct failure category, so that callers match on
//! variants and need not inspect opaque codes.

use vstd::prelude::*;
use vstd::string::StringExecFns;

use crate::text::{append_decimal, append_hexadecimal, owned};
use crate::text::{decimal, hexadecimal};

verus! {

/// The category of an operating-system error.
#[derive(Clone, Copy, Debug, PartialEq, Eq, Structural)]
pub enum IoErrorKind {
    NotFound,
    PermissionDenied,
    ConnectionRefused,
    ConnectionReset,
    HostUnreachable,
    NetworkUnreachable,
    ConnectionAborted,
    NotConnected,
    AddrInUse,
    AddrNotAvailable,
    NetworkDown,
    BrokenPipe,
    AlreadyExists,
    WouldBlock,
    NotADirectory,
    IsADirectory,
    DirectoryNotEmpty,
    ReadOnlyFilesystem,
    StaleNetworkFileHandle,
    InvalidInput,
    InvalidData,
    TimedOut,
    WriteZero,
    StorageFull,
    NotSeekable,
    QuotaExceeded,
    FileTooLarge,
    ResourceBusy,
    ExecutableFileBusy,
    Deadlock,
    CrossesDevices,
    TooManyLinks,
    InvalidFilename,
    ArgumentListTooLong,
    Interrupted,
    Unsupported,
    UnexpectedEof,
    OutOfMemory,
    Other,
    /// A category that has no name of its own.
    Uncategorized,
}

/// An operating-system or provider error: its category, its text and, where the
/// system reported one, its number.
#[derive(Debug)]
pub struct IoError {
    pub kind: IoErrorKind,
    pub raw_os_error: Option<i32>,
    pub message: String,
}

impl Clone for IoError {
    fn clone(&self) -> (copy: Self)
        ensures
            copy == *self,
    {
        IoError {
            kind: self.kind,
            raw_os_error: self.raw_os_error,
            message: self.message.clone(),
        }
    }
}

impl IoError {
    /// Whether this is an error of the given category and text that no system call reported.
    pub open spec fn is(self, kind: IoErrorKind, message: Seq<char>) -> bool {
        self.kind == kind && self.raw_os_error is None && self.message@ == message
    }

    pub fn new(kind: IoErrorKind, message: String) -> (error: Self)
        ensures
            error == (IoError { kind, raw_os_error: None, message }),
    {
        IoError { kind, raw_os_error: None, message }
    }

    pub fn other(message: String) -> (error: Self)
        ensures
            error == (IoError { kind: IoErrorKind::Other, raw_os_error: None, message }),
    {
        IoError { kind: IoErrorKind::Other, raw_os_error: None, message }
    }
}

/// The status of a work completion.
#[derive(Clone, Copy, Debug, PartialEq, Eq, Structural)]
pub enum WcStatus {
    Success,
    LocLenErr,
    LocQpOpErr,
    LocEecOpErr,
    LocProtErr,
    WrFlushErr,
    MwBindErr,
    BadRespErr,
    LocAccessErr,
    RemInvReqErr,
    RemAccessErr,
    RemOpErr,
    RetryExcErr,
    RnrRetryExcErr,
    LocRddViolErr,
    RemInvRdReqErr,
    RemAbortErr,
    InvEecnErr,
    InvEecStateErr,
    FatalErr,
    RespTimeoutErr,
    GeneralErr,
    Unknown(u32),
}

impl WcStatus {
    /// The status of a completion number, in the numbering of the verbs interface.
    pub open spec fn of_raw(raw: u32) -> WcStatus {
        if raw == 0 {
            WcStatus::Success
        } else if raw == 1 {
            WcStatus::LocLenErr
        } else if raw == 2 {
            WcStatus::LocQpOpErr
        } else if raw == 3 {
            WcStatus::LocEecOpErr
        } else if raw == 4 {
            WcStatus::LocProtErr
        } else if raw == 5 {
            WcStatus::WrFlushErr
        } else if raw == 6 {
            WcStatus::MwBindErr
        } else if raw == 7 {
            WcStatus::BadRespErr
        } else if raw == 8 {
            WcStatus::LocAccessErr
        } else if raw == 9 {
            WcStatus::RemInvReqErr
        } else if raw == 10 {
            WcStatus::RemAccessErr
        } else if raw == 11 {
            WcStatus::RemOpErr
        } else if raw == 12 {
            WcStatus::RetryExcErr
        } else if raw == 13 {
            WcStatus::RnrRetryExcErr
        } else if raw == 14 {
            WcStatus::LocRddViolErr
        } else if raw == 15 {
            WcStatus::RemInvRdReqErr
        } else if raw == 16 {
            WcStatus::RemAbortErr
        } else if raw == 17 {
            WcStatus::InvEecnErr
        } else if raw == 18 {
            WcStatus::InvEecStateErr
        } else if raw == 19 {
            WcStatus::FatalErr
        } else if raw == 20 {
            WcStatus::RespTimeoutErr
        } else if raw == 21 {
            WcStatus::GeneralErr
        } else {
            WcStatus::Unknown(raw)
        }
    }

    pub fn from_raw(raw: u32) -> (status: WcStatus)
        ensures
            status == WcStatus::of_raw(raw),
    {
        match raw {
            0 => WcStatus::Success,
            1 => WcStatus::LocLenErr,
            2 => WcStatus::LocQpOpErr,
            3 => WcStatus::LocEecOpErr,
            4 => WcStatus::LocProtErr,
            5 => WcStatus::WrFlushErr,
            6 => WcStatus::MwBindErr,
            7 => WcStatus::BadRespErr,
            8 => WcStatus::LocAccessErr,
            9 => WcStatus::RemInvReqErr,
            10 => WcStatus::RemAccessErr,
            11 => WcStatus::RemOpErr,
            12 => WcStatus::RetryExcErr,
            13 => WcStatus::RnrRetryExcErr,
            14 => WcStatus::LocRddViolErr,
            15 => WcStatus::RemInvRdReqErr,
            16 => WcStatus::RemAbortErr,
            17 => WcStatus::InvEecnErr,
            18 => WcStatus::InvEecStateErr,
            19 => WcStatus::FatalErr,
            20 => WcStatus::RespTimeoutErr,
            21 => WcStatus::GeneralErr,
            _ => WcStatus::Unknown(raw),
        }
    }
}

/// Errors returned by session operations.
#[derive(Debug)]
pub enum Error {
    /// No RDMA devices were found on this system.
    NoDevices,
    /// The requested RDMA device was not found by name.
    DeviceNotFound(String),
    /// An ibverbs or OS-level error occurred.
    Verbs(IoError),
    /// A builder or configuration parameter was invalid.
    InvalidConfig(String),
    /// Posting a work request to a queue pair failed.
    PostFailed(IoError),
    /// A work completion finished with an error status.
    CompletionError { status: WcStatus, vendor_err: u32 },
    /// A non-blocking operation found nothing ready.
    WouldBlock,
    /// An outbound message exceeds the configured buffer capacity.
    MessageTooLarge { size: usize, capacity: usize },
    /// The transport or connection has been shut down or disconnected.
    TransportClosed,
    /// The completion driver has stopped.
    DriverShutdown,
    /// The in-flight registry or buffer pool has no available capacity.
    CapacityExhausted,
    /// Connection close could not establish a boundary for accepted work requests.
    ConnectionQuarantined { outstanding_operations: usize, cq_debt: usize },
    /// Connection retirement retained its resources because the queue pair
    /// could not be destroyed.
    ConnectionDestroyQuarantined { cause: String },
    /// Engine termination retained unsafe live state.
    EngineWedged { retained_bundles: usize, outstanding_operations: usize, cq_debt: usize },
    /// A wire-protocol violation was detected.
    ProtocolViolation(String),
}

impl Clone for Error {
    fn clone(&self) -> (copy: Self)
        ensures
            copy == *self,
    {
        match self {
            Error::NoDevices => Error::NoDevices,
            Error::DeviceNotFound(name) => Error::DeviceNotFound(name.clone()),
            Error::Verbs(error) => Error::Verbs(error.clone()),
            Error::InvalidConfig(message) => Error::InvalidConfig(message.clone()),
            Error::PostFailed(error) => Error::PostFailed(error.clone()),
            Error::CompletionError { status, vendor_err } => Error::CompletionError {
                status: *status,
                vendor_err: *vendor_err,
            },
            Error::WouldBlock => Error::WouldBlock,
            Error::MessageTooLarge { size, capacity } => Error::MessageTooLarge {
                size: *size,
                capacity: *capacity,
            },
            Error::TransportClosed => Error::TransportClosed,
            Error::DriverShutdown => Error::DriverShutdown,
            Error::CapacityExhausted => Error::CapacityExhausted,
            Error::ConnectionQuarantined { outstanding_operations, cq_debt } =>
            Error::ConnectionQuarantined {
                outstanding_operations: *outstanding_operations,
                cq_debt: *cq_debt,
            },
            Error::ConnectionDestroyQuarantined { cause } => Error::ConnectionDestroyQuarantined {
                cause: cause.clone(),
            },
            Error::EngineWedged { retained_bundles, outstanding_operations, cq_debt } =>
            Error::EngineWedged {
                retained_bundles: *retained_bundles,
                outstanding_operations: *outstanding_operations,
                cq_debt: *cq_debt,
            },
            Error::ProtocolViolation(message) => Error::ProtocolViolation(message.clone()),
        }
    }
}

/// An error of the device layer below the session.
#[derive(Debug)]
pub enum DeviceError {
    NoDevices,
    DeviceNotFound(String),
    Verbs(IoError),
    InvalidArg(String),
    WorkCompletion { status: u32, vendor_err: u32 },
    WouldBlock,
    ConnectionFault(String),
    Timeout(String),
}

impl Error {
    /// Whether this is an invalid-configuration error with the given text.
    pub open spec fn is_invalid_config(self, message: Seq<char>) -> bool {
        self matches Error::InvalidConfig(text) && text@ == message
    }

    /// Whether this is a verbs error of the given category and text.
    pub open spec fn is_verbs(self, kind: IoErrorKind, message: Seq<char>) -> bool {
        self matches Error::Verbs(error) && error.is(kind, message)
    }

    /// The name of a completion status.
    pub open spec fn status_text(status: WcStatus) -> Seq<char> {
        match status {
            WcStatus::Success => "Success"@,
            WcStatus::LocLenErr => "LocLenErr"@,
            WcStatus::LocQpOpErr => "LocQpOpErr"@,
            WcStatus::LocEecOpErr => "LocEecOpErr"@,
            WcStatus::LocProtErr => "LocProtErr"@,
            WcStatus::WrFlushErr => "WrFlushErr"@,
            WcStatus::MwBindErr => "MwBindErr"@,
            WcStatus::BadRespErr => "BadRespErr"@,
            WcStatus::LocAccessErr => "LocAccessErr"@,
            WcStatus::RemInvReqErr => "RemInvReqErr"@,
            WcStatus::RemAccessErr => "RemAccessErr"@,
            WcStatus::RemOpErr => "RemOpErr"@,
            WcStatus::RetryExcErr => "RetryExcErr"@,
            WcStatus::RnrRetryExcErr => "RnrRetryExcErr"@,
            WcStatus::LocRddViolErr => "LocRddViolErr"@,
            WcStatus::RemInvRdReqErr => "RemInvRdReqErr"@,
            WcStatus::RemAbortErr => "RemAbortErr"@,
            WcStatus::InvEecnErr => "InvEecnErr"@,
            WcStatus::InvEecStateErr => "InvEecStateErr"@,
            WcStatus::FatalErr => "FatalErr"@,
            WcStatus::RespTimeoutErr => "RespTimeoutErr"@,
            WcStatus::GeneralErr => "GeneralErr"@,
            WcStatus::Unknown(raw) => "Unknown("@ + decimal(raw as nat) + ")"@,
        }
    }

    /// The text shown for this error.
    pub open spec fn text(self) -> Seq<char> {
        match self {
            Error::NoDevices => "no RDMA devices found"@,
            Error::DeviceNotFound(name) => "device not found: "@ + name@,
            Error::Verbs(error) => "verbs error: "@ + error.message@,
            Error::InvalidConfig(message) => "invalid configuration: "@ + message@,
            Error::PostFailed(error) => "post failed: "@ + error.message@,
            Error::CompletionError { status, vendor_err } => "completion error: "@
                + Error::status_text(status) + " (vendor_err="@ + hexadecimal(vendor_err as nat)
                + ")"@,
            Error::WouldBlock => "operation would block"@,
            Error::MessageTooLarge { size, capacity } => "message too large: "@ + decimal(
                size as nat,
            ) + " bytes exceeds "@ + decimal(capacity as nat) + " byte capacity"@,
            Error::TransportClosed => "transport closed"@,
            Error::DriverShutdown => "driver shut down"@,
            Error::CapacityExhausted => "capacity exhausted"@,
            Error::ConnectionQuarantined { outstanding_operations, cq_debt } =>
            "connection quarantined with "@ + decimal(outstanding_operations as nat)
                + " outstanding operations and "@ + decimal(cq_debt as nat)
                + " retained CQ credits"@,
            Error::ConnectionDestroyQuarantined { cause } => "connection destroy quarantined: "@
                + cause@,
            Error::EngineWedged { retained_bundles, outstanding_operations, cq_debt } =>
            "engine wedged with "@ + decimal(retained_bundles as nat) + " retained bundles, "@
                + decimal(outstanding_operations as nat) + " outstanding operations, and "@
                + decimal(cq_debt as nat) + " retained CQ credits"@,
            Error::ProtocolViolation(detail) => "protocol violation: "@ + detail@,
        }
    }

    fn append_status(text: &mut String, status: WcStatus)
        ensures
            final(text)@ == old(text)@ + Error::status_text(status),
    {
        match status {
            WcStatus::Success => text.append("Success"),
            WcStatus::LocLenErr => text.append("LocLenErr"),
            WcStatus::LocQpOpErr => text.append("LocQpOpErr"),
            WcStatus::LocEecOpErr => text.append("LocEecOpErr"),
            WcStatus::LocProtErr => text.append("LocProtErr"),
            WcStatus::WrFlushErr => text.append("WrFlushErr"),
            WcStatus::MwBindErr => text.append("MwBindErr"),
            WcStatus::BadRespErr => text.append("BadRespErr"),
            WcStatus::LocAccessErr => text.append("LocAccessErr"),
            WcStatus::RemInvReqErr => text.append("RemInvReqErr"),
            WcStatus::RemAccessErr => text.append("RemAccessErr"),
            WcStatus::RemOpErr => text.append("RemOpErr"),
            WcStatus::RetryExcErr => text.append("RetryExcErr"),
            WcStatus::RnrRetryExcErr => text.append("RnrRetryExcErr"),
            WcStatus::LocRddViolErr => text.append("LocRddViolErr"),
            WcStatus::RemInvRdReqErr => text.append("RemInvRdReqErr"),
            WcStatus::RemAbortErr => text.append("RemAbortErr"),
            WcStatus::InvEecnErr => text.append("InvEecnErr"),
            WcStatus::InvEecStateErr => text.append("InvEecStateErr"),
            WcStatus::FatalErr => text.append("FatalErr"),
            WcStatus::RespTimeoutErr => text.append("RespTimeoutErr"),
            WcStatus::GeneralErr => text.append("GeneralErr"),
            WcStatus::Unknown(raw) => {
                text.append("Unknown(");
                append_decimal(text, raw as u64);
                text.append(")");
                assert(text@ =~= old(text)@ + Error::status_text(status));
            },
        }
    }

    /// The text of this error.
    pub fn to_string(&self) -> (text: String)
        ensures
            text@ == self.text(),
    {
        let mut text: String = String::new();
        match self {
            Error::NoDevices => text.append("no RDMA devices found"),
            Error::DeviceNotFound(name) => {
                text.append("device not found: ");
                text.append(name.as_str());
            },
            Error::Verbs(error) => {
                text.append("verbs error: ");
                text.append(error.message.as_str());
            },
            Error::InvalidConfig(message) => {
                text.append("invalid configuration: ");
                text.append(message.as_str());
            },
            Error::PostFailed(error) => {
                text.append("post failed: ");
                text.append(error.message.as_str());
            },
            Error::CompletionError { status, vendor_err } => {
                text.append("completion error: ");
                Error::append_status(&mut text, *status);
                text.append(" (vendor_err=");
                append_hexadecimal(&mut text, *vendor_err as u64);
                text.append(")");
            },
            Error::WouldBlock => text.append("operation would block"),
            Error::MessageTooLarge { size, capacity } => {
                text.append("message too large: ");
                append_decimal(&mut text, *size as u64);
                text.append(" bytes exceeds ");
                append_decimal(&mut text, *capacity as u64);
                text.append(" byte capacity");
            },
            Error::TransportClosed => text.append("transport closed"),
            Error::DriverShutdown => text.append("driver shut down"),
            Error::CapacityExhausted => text.append("capacity exhausted"),
            Error::ConnectionQuarantined { outstanding_operations, cq_debt } => {
                text.append("connection quarantined with ");
                append_decimal(&mut text, *outstanding_operations as u64);
                text.append(" outstanding operations and ");
                append_decimal(&mut text, *cq_debt as u64);
                text.append(" retained CQ credits");
            },
            Error::ConnectionDestroyQuarantined { cause } => {
                text.append("connection destroy quarantined: ");
                text.append(cause.as_str());
            },
            Error::EngineWedged { retained_bundles, outstanding_operations, cq_debt } => {
                text.append("engine wedged with ");
                append_decimal(&mut text, *retained_bundles as u64);
                text.append(" retained bundles, ");
                append_decimal(&mut text, *outstanding_operations as u64);
                text.append(" outstanding operations, and ");
                append_decimal(&mut text, *cq_debt as u64);
                text.append(" retained CQ credits");
            },
            Error::ProtocolViolation(detail) => {
                text.append("protocol violation: ");
                text.append(detail.as_str());
            },
        }
        assert(text@ =~= self.text());
        text
    }

    /// The operating-system error behind this one.
    pub fn source(&self) -> (cause: Option<&IoError>)
        ensures
            match self {
                Error::Verbs(error) => cause == Some(error),
                Error::PostFailed(error) => cause == Some(error),
                _ => cause is None,
            },
    {
        match self {
            Error::Verbs(error) => Some(error),
            Error::PostFailed(error) => Some(error),
            _ => None,
        }
    }

    /// The session error for an error of the device layer.
    pub fn from_v1(error: DeviceError) -> (converted: Error)
        ensures
            match error {
                DeviceError::NoDevices => converted == Error::NoDevices,
                DeviceError::DeviceNotFound(name) => converted == Error::DeviceNotFound(name),
                DeviceError::Verbs(io) => converted == Error::Verbs(io),
                DeviceError::InvalidArg(message) => converted == Error::InvalidConfig(message),
                DeviceError::WorkCompletion { status, vendor_err } => converted == (
                Error::CompletionError { status: WcStatus::of_raw(status), vendor_err }),
                DeviceError::WouldBlock => converted == Error::WouldBlock,
                DeviceError::ConnectionFault(message) | DeviceError::Timeout(message) =>
                    converted.is_verbs(IoErrorKind::Other, message@),
            },
    {
        match error {
            DeviceError::NoDevices => Error::NoDevices,
            DeviceError::DeviceNotFound(name) => Error::DeviceNotFound(name),
            DeviceError::Verbs(io) => Error::Verbs(io),
            DeviceError::InvalidArg(message) => Error::InvalidConfig(message),
            DeviceError::WorkCompletion { status, vendor_err } => Error::CompletionError {
                status: WcStatus::from_raw(status),
                vendor_err,
            },
            DeviceError::WouldBlock => Error::WouldBlock,
            DeviceError::ConnectionFault(message) => Error::Verbs(IoError::other(message)),
            DeviceError::Timeout(message) => Error::Verbs(IoError::other(message)),
        }
    }

    /// An invalid-configuration error with a fixed text.
    pub fn invalid(message: &str) -> (error: Error)
        ensures
            error.is_invalid_config(message@),
    {
        Error::InvalidConfig(owned(message))
    }
}

impl From<IoError> for Error {
    fn from(error: IoError) -> Self {
        Error::Verbs(error)
    }
}

impl vstd::std_specs::convert::FromSpecImpl<IoError> for Error {
    open spec fn obeys_from_spec() -> bool {
        true
    }

    open spec fn from_spec(error: IoError) -> Self {
        Error::Verbs(error)
    }
}

} // verus!

//! The ways an operation of the engine can fail.

use crate::state::State;
use crate::status::Status;
use vstd::prelude::*;

verus! {

/// What the operating system reported when a transfer or a file access
/// failed: its error number, or 0 where it gave none.
#[derive(Debug, Clone, Copy, PartialEq, Eq, Structural)]
pub struct OsError {
    pub errno: i32,
}

/// The error number with which the kernel reports a stalled endpoint.
pub const EPIPE: i32 = 32;

/// `nix::errno::Errno::EPIPE` as a number. nix defines the variant as
/// `libc::EPIPE`, which is 32 on Linux, the one system whose USB file system
/// the host side drives; the contract claims that number.
#[verifier::external_body]
fn errno_epipe() -> (errno: i32)
    ensures
        errno == EPIPE,
{
    nix::errno::Errno::EPIPE as i32
}

impl OsError {
    /// Whether the failure is an endpoint stall.
    pub open spec fn spec_is_stall(self) -> bool {
        self.errno == EPIPE
    }

    /// Whether the failure is an endpoint stall, which the device uses to
    /// say "not now" rather than "never".
    #[verifier::when_used_as_spec(spec_is_stall)]
    pub fn is_stall(self) -> (stall: bool)
        ensures
            stall == self.spec_is_stall(),
    {
        self.errno == errno_epipe()
    }
}

/// A failure, by kind.
#[derive(Debug, Clone, PartialEq, Eq)]
pub enum Error {
    /// No device could be bound.
    DeviceNotFound(String),
    /// The caller broke a rule of the interface.
    Argument(String),
    /// The device answered with something that is no valid reply.
    InvalidControlResponse(String),
    /// The device is in another state than the operation needs: the status
    /// it reported, and the state that was expected.
    InvalidState(Status, State),
    /// The device reported a status other than the expected one.
    InvalidStatus(Status, u8),
    /// A transfer failed.
    USB(String, OsError),
    /// A transfer failed in the operating system.
    USBNix(String, OsError),
    /// Reading or writing the local file failed.
    FileIO(OsError),
    /// A byte that names no DfuSe command.
    UnknownCommandByte(u8),
    /// An address outside the flash region that can be erased.
    Address(u32),
    /// The device's memory differs from the file at this address.
    Verify(u32),
}

/// An [`Error`] as a mathematical value, with its texts as sequences.
pub enum ErrorView {
    DeviceNotFound(Seq<char>),
    Argument(Seq<char>),
    InvalidControlResponse(Seq<char>),
    InvalidState(Status, State),
    InvalidStatus(Status, u8),
    USB(Seq<char>, OsError),
    USBNix(Seq<char>, OsError),
    FileIO(OsError),
    UnknownCommandByte(u8),
    Address(u32),
    Verify(u32),
}

impl View for Error {
    type V = ErrorView;

    open spec fn view(&self) -> ErrorView {
        match *self {
            Error::DeviceNotFound(text) => ErrorView::DeviceNotFound(text@),
            Error::Argument(text) => ErrorView::Argument(text@),
            Error::InvalidControlResponse(text) => ErrorView::InvalidControlResponse(text@),
            Error::InvalidState(status, state) => ErrorView::InvalidState(status, state),
            Error::InvalidStatus(status, expected) => ErrorView::InvalidStatus(status, expected),
            Error::USB(context, cause) => ErrorView::USB(context@, cause),
            Error::USBNix(context, cause) => ErrorView::USBNix(context@, cause),
            Error::FileIO(cause) => ErrorView::FileIO(cause),
            Error::UnknownCommandByte(byte) => ErrorView::UnknownCommandByte(byte),
            Error::Address(address) => ErrorView::Address(address),
            Error::Verify(address) => ErrorView::Verify(address),
        }
    }
}

/// Whether a result is the one that its model gives: the same value on
/// success, the same failure otherwise.
pub open spec fn agrees<T>(got: Result<T, Error>, expected: Result<T, ErrorView>) -> bool {
    match (got, expected) {
        (Ok(value), Ok(wanted)) => value == wanted,
        (Err(err), Err(wanted)) => err@ == wanted,
        _ => false,
    }
}

impl ErrorView {
    /// The exit code that a program ends with after this failure.
    pub open spec fn exit_code(self) -> i32 {
        match self {
            ErrorView::DeviceNotFound(_) => 64,
            ErrorView::Argument(_) => 65,
            ErrorView::USB(_, _) => 66,
            ErrorView::USBNix(_, _) => 67,
            ErrorView::InvalidControlResponse(_) => 68,
            ErrorView::InvalidState(_, _) => 69,
            ErrorView::InvalidStatus(_, _) => 70,
            ErrorView::FileIO(_) => 71,
            ErrorView::UnknownCommandByte(_) => 72,
            ErrorView::Address(_) => 73,
            ErrorView::Verify(_) => 74,
        }
    }
}

impl Error {
    /// The exit code that a program ends with after this failure: 64 to 74,
    /// one for each kind.
    pub fn exit_code(&self) -> (code: i32)
        ensures
            code == self@.exit_code(),
            64 <= code <= 74,
    {
        match self {
            Error::DeviceNotFound(_) => 64,
            Error::Argument(_) => 65,
            Error::USB(_, _) => 66,
            Error::USBNix(_, _) => 67,
            Error::InvalidControlResponse(_) => 68,
            Error::InvalidState(_, _) => 69,
            Error::InvalidStatus(_, _) => 70,
            Error::FileIO(_) => 71,
            Error::UnknownCommandByte(_) => 72,
            Error::Address(_) => 73,
            Error::Verify(_) => 74,
        }
    }
}

impl From<Error> for i32 {
    fn from(err: Error) -> (code: i32) {
        err.exit_code()
    }
}

impl vstd::std_specs::convert::FromSpecImpl<Error> for i32 {
    open spec fn obeys_from_spec() -> bool {
        true
    }

    open spec fn from_spec(err: Error) -> i32 {
        err@.exit_code()
    }
}

impl From<OsError> for Error {
    fn from(cause: OsError) -> (err: Error) {
        Error::FileIO(cause)
    }
}

impl vstd::std_specs::convert::FromSpecImpl<OsError> for Error {
    open spec fn obeys_from_spec() -> bool {
        true
    }

    open spec fn from_spec(cause: OsError) -> Error {
        Error::FileIO(cause)
    }
}

} // verus!

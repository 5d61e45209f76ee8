//! What the engine asks of its host, and what the host reports back.
//!
//! The engine never touches the bus, the clock or a file. It hands the host
//! an [`Action`]; the host carries it out and answers with an [`Event`].

use crate::command::DfuseCommand;
use crate::error::{Error, ErrorView, OsError};
use crate::status::Status;
use vstd::prelude::*;

verus! {

/// DFU request: leave the application and enter DFU mode.
pub const DFU_DETACH: u8 = 0;

/// DFU request: send a block, or a DfuSe command, to the device.
pub const DFU_DNLOAD: u8 = 1;

/// DFU request: read a block from the device.
pub const DFU_UPLOAD: u8 = 2;

/// DFU request: read the status block.
pub const DFU_GET_STATUS: u8 = 3;

/// DFU request: leave the error state.
pub const DFU_CLRSTATUS: u8 = 4;

/// DFU request: read the state byte alone.
pub const DFU_GETSTATE: u8 = 5;

/// DFU request: return to the idle state.
pub const DFU_ABORT: u8 = 6;

/// Request type of a class request to an interface, host to device.
pub const CLASS_INTERFACE_OUT: u8 = 0x21;

/// Request type of a class request to an interface, device to host.
pub const CLASS_INTERFACE_IN: u8 = 0xA1;

/// What an operation hands back when it succeeds.
#[derive(Debug, Clone, PartialEq, Eq)]
pub enum Output {
    /// Nothing but the success.
    Done,
    /// The last status block that the device reported.
    Status(Status),
    /// The commands that the device supports.
    Commands(Vec<DfuseCommand>),
}

/// An [`Output`] as a mathematical value.
pub enum OutputView {
    Done,
    Status(Status),
    Commands(Seq<DfuseCommand>),
}

impl View for Output {
    type V = OutputView;

    open spec fn view(&self) -> OutputView {
        match *self {
            Output::Done => OutputView::Done,
            Output::Status(status) => OutputView::Status(status),
            Output::Commands(commands) => OutputView::Commands(commands@),
        }
    }
}

/// What the host is to do next.
#[allow(inconsistent_fields)]
#[derive(Debug, PartialEq, Eq)]
pub enum Action {
    /// Make a class request to the interface, host to device. `data` is the
    /// data stage; with `None` there is none. `awaited` asks for the
    /// transfer variant whose completion is awaited.
    ControlOut { request: u8, value: u16, index: u16, data: Option<Vec<u8>>, timeout: u32, awaited: bool },
    /// Make a class request to the interface, device to host, for `length`
    /// bytes.
    ControlIn { request: u8, value: u16, index: u16, length: u16, timeout: u32, awaited: bool },
    /// Wait for so many milliseconds.
    Sleep { millis: u32 },
    /// Read up to `length` bytes from the local file.
    ReadFile { length: usize },
    /// Write all of `data` to the local file.
    WriteFile { data: Vec<u8> },
    /// The operation is over, with this result.
    Finish(Result<Output, Error>),
}

/// An [`Action`] as a mathematical value.
#[allow(inconsistent_fields)]
pub enum ActionView {
    ControlOut {
        request: u8,
        value: u16,
        index: u16,
        data: Option<Seq<u8>>,
        timeout: u32,
        awaited: bool,
    },
    ControlIn { request: u8, value: u16, index: u16, length: u16, timeout: u32, awaited: bool },
    Sleep { millis: u32 },
    ReadFile { length: usize },
    WriteFile { data: Seq<u8> },
    Finish(Result<OutputView, ErrorView>),
}

impl View for Action {
    type V = ActionView;

    open spec fn view(&self) -> ActionView {
        match *self {
            Action::ControlOut { request, value, index, data, timeout, awaited } => {
                ActionView::ControlOut {
                    request,
                    value,
                    index,
                    data: match data {
                        Some(bytes) => Some(bytes@),
                        None => None,
                    },
                    timeout,
                    awaited,
                }
            },
            Action::ControlIn { request, value, index, length, timeout, awaited } => {
                ActionView::ControlIn { request, value, index, length, timeout, awaited }
            },
            Action::Sleep { millis } => ActionView::Sleep { millis },
            Action::ReadFile { length } => ActionView::ReadFile { length },
            Action::WriteFile { data } => ActionView::WriteFile { data: data@ },
            Action::Finish(result) => ActionView::Finish(
                match result {
                    Ok(output) => Ok(output@),
                    Err(err) => Err(err@),
                },
            ),
        }
    }
}

impl ActionView {
    /// The request type byte of a control transfer: a class request to an
    /// interface, in the transfer's direction. Other actions have none.
    pub open spec fn request_type(self) -> Option<u8> {
        match self {
            ActionView::ControlOut { .. } => Some(CLASS_INTERFACE_OUT),
            ActionView::ControlIn { .. } => Some(CLASS_INTERFACE_IN),
            _ => None,
        }
    }

    /// Whether the action is a transfer that moves a block of memory: a
    /// download or an upload with a transaction number of 2 or more.
    pub open spec fn is_block_transfer(self) -> bool {
        match self {
            ActionView::ControlOut { request, value, .. } => request == DFU_DNLOAD && value >= 2,
            ActionView::ControlIn { request, value, .. } => request == DFU_UPLOAD && value >= 2,
            _ => false,
        }
    }

    /// The number of bytes that a control transfer carries or asks for.
    pub open spec fn payload(self) -> int {
        match self {
            ActionView::ControlOut { data: Some(bytes), .. } => bytes.len() as int,
            ActionView::ControlIn { length, .. } => length as int,
            _ => 0,
        }
    }
}

impl Action {
    /// The request type byte for a control transfer: the direction bit, the
    /// class type and the interface recipient put together.
    pub fn request_type(&self) -> (byte: Option<u8>)
        ensures
            byte == self@.request_type(),
            self@ is ControlOut ==> byte == Some((0x00u8 | 0x20u8 | 0x01u8)),
            self@ is ControlIn ==> byte == Some((0x80u8 | 0x20u8 | 0x01u8)),
    {
        assert(0x00u8 | 0x20u8 | 0x01u8 == 0x21u8) by (bit_vector);
        assert(0x80u8 | 0x20u8 | 0x01u8 == 0xA1u8) by (bit_vector);
        match self {
            Action::ControlOut { .. } => Some(CLASS_INTERFACE_OUT),
            Action::ControlIn { .. } => Some(CLASS_INTERFACE_IN),
            _ => None,
        }
    }
}

/// What happened to the action that the host was asked for.
#[derive(Debug, Clone, PartialEq, Eq)]
pub enum Event {
    /// Nothing yet: the host asks for the first action.
    Start,
    /// The transfer to the device went through.
    Sent,
    /// The transfer from the device went through, with these bytes.
    Received(Vec<u8>),
    /// The transfer failed.
    Failed(OsError),
    /// The time to wait is over.
    Woke,
    /// The file gave these bytes.
    FileRead(Vec<u8>),
    /// The file took the bytes.
    FileWritten,
    /// Reading or writing the file failed.
    FileFailed(OsError),
}

/// An [`Event`] as a mathematical value.
pub enum EventView {
    Start,
    Sent,
    Received(Seq<u8>),
    Failed(OsError),
    Woke,
    FileRead(Seq<u8>),
    FileWritten,
    FileFailed(OsError),
}

impl View for Event {
    type V = EventView;

    open spec fn view(&self) -> EventView {
        match *self {
            Event::Start => EventView::Start,
            Event::Sent => EventView::Sent,
            Event::Received(bytes) => EventView::Received(bytes@),
            Event::Failed(cause) => EventView::Failed(cause),
            Event::Woke => EventView::Woke,
            Event::FileRead(bytes) => EventView::FileRead(bytes@),
            Event::FileWritten => EventView::FileWritten,
            Event::FileFailed(cause) => EventView::FileFailed(cause),
        }
    }
}

} // verus!

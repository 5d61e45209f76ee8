//! The driver: one claimed interface of a device, and the operations that
//! can be run on it.
//!
//! A `Dfu` holds the configuration only. Each of its operations returns a
//! [`Task`]; the host runs the task against the device.

use crate::engine::{Task, TaskView};
use crate::error::{Error, ErrorView};
use crate::script::{chunk_count, Operation};
use crate::state::State;
use crate::transaction::{calculate_pages, ceil_div, region_fits, spec_calculate_pages};
use crate::transport::Output;
use vstd::prelude::*;

verus! {

/// Timeout of a control transfer unless set otherwise, in milliseconds.
pub const DEFAULT_TIMEOUT: u32 = 3000;

/// Size of a transfer unless set otherwise, in bytes.
pub const DEFAULT_XFER_SIZE: u16 = 1024;

/// The longest region that can be erased: its pages, counted from any
/// address that may be erased, all start inside the address space.
pub const MAX_ERASE_LENGTH: u32 = 0xF7FE_0000;

/// The part of a file's length that a 32-bit length holds.
pub open spec fn low_word(file_length: u64) -> u32 {
    (file_length % 0x1_0000_0000) as u32
}

/// How many bytes of a file are meant: the length asked for, which the
/// file must hold, or the whole file, which must not be empty.
pub open spec fn spec_length(file_length: u64, length: Option<u32>) -> Result<u32, ErrorView> {
    match length {
        Some(wanted) => if low_word(file_length) < wanted {
            Err(ErrorView::Argument("Length is larger than the file"@))
        } else {
            Ok(wanted)
        },
        None => if low_word(file_length) == 0 {
            Err(ErrorView::Argument("File is empty"@))
        } else {
            Ok(low_word(file_length))
        },
    }
}

/// Settles how many bytes of a file of `file_length` bytes to work on. A
/// length that is asked for must not exceed the file; without one the whole
/// file is meant, and an empty file is refused. Of the file's length only
/// the low 32 bits count.
pub fn get_length_from_file(file_length: u64, length: Option<u32>) -> (resolved: Result<
    u32,
    Error,
>)
    ensures
        crate::error::agrees(resolved, spec_length(file_length, length)),
{
    let available: u32 = (file_length % 0x1_0000_0000) as u32;
    match length {
        Some(wanted) => if available < wanted {
            Err(Error::Argument("Length is larger than the file".to_owned()))
        } else {
            Ok(wanted)
        },
        None => if available == 0 {
            Err(Error::Argument("File is empty".to_owned()))
        } else {
            Ok(available)
        },
    }
}

/// The operation that erasing a region amounts to, or why it is refused.
pub open spec fn spec_erase(address: u32, length: u32) -> Result<Operation, ErrorView> {
    match spec_calculate_pages(address, length) {
        Ok(pages) => Ok(Operation::ErasePages { address, pages }),
        Err(err) => Err(err),
    }
}

/// The operation that reading a region back for comparison amounts to, or
/// why it is refused.
pub open spec fn spec_verify(file_length: u64, address: u32, length: Option<u32>, xfer_max: u16)
    -> Result<Operation, ErrorView> {
    match spec_length(file_length, length) {
        Ok(resolved) => Ok(Operation::Verify { address, length: resolved, xfer_max }),
        Err(err) => Err(err),
    }
}

/// The operation that programming a file amounts to, or why it is refused.
pub open spec fn spec_download(file_length: u64, address: u32, length: Option<u32>, xfer_max: u16)
    -> Result<Operation, ErrorView> {
    match spec_length(file_length, length) {
        Ok(resolved) => match spec_calculate_pages(address, resolved) {
            Ok(pages) => Ok(Operation::DownloadRaw { address, pages, length: resolved, xfer_max }),
            Err(err) => Err(err),
        },
        Err(err) => Err(err),
    }
}

/// Whether a task is the fresh task for the planned operation, or the
/// refusal is the planned one.
pub open spec fn planned(
    task: Result<Task, Error>,
    plan: Result<Operation, ErrorView>,
    interface: u16,
    timeout: u32,
) -> bool {
    match (task, plan) {
        (Ok(fresh), Ok(op)) => fresh@ == TaskView::initial(op, interface, timeout) && fresh@.wf(),
        (Err(err), Err(wanted)) => err@ == wanted,
        _ => false,
    }
}

/// The driver for one interface of a device in DFU mode.
#[derive(Debug, Clone, Copy)]
pub struct Dfu {
    interface: u16,
    timeout: u32,
    xfer_size: u16,
}

impl Dfu {
    #[verifier::type_invariant]
    spec fn inv(self) -> bool {
        self.xfer_size > 0
    }

    /// The interface number, sent as the index of every request.
    pub closed spec fn spec_interface(self) -> u16 {
        self.interface
    }

    /// The timeout of each control transfer, in milliseconds.
    pub closed spec fn spec_timeout(self) -> u32 {
        self.timeout
    }

    /// The most bytes that one transfer moves.
    pub closed spec fn spec_xfer_size(self) -> u16 {
        self.xfer_size
    }

    /// The fresh task for an operation on this interface.
    pub open spec fn fresh(self, op: Operation) -> TaskView {
        TaskView::initial(op, self.spec_interface(), self.spec_timeout())
    }

    /// A driver for `interface`, with a timeout of 3000 ms and transfers of
    /// 1024 bytes.
    pub fn new(interface: u16) -> (dfu: Dfu)
        ensures
            dfu.spec_interface() == interface,
            dfu.spec_timeout() == DEFAULT_TIMEOUT,
            dfu.spec_xfer_size() == DEFAULT_XFER_SIZE,
    {
        Dfu { interface, timeout: DEFAULT_TIMEOUT, xfer_size: DEFAULT_XFER_SIZE }
    }

    /// The same driver with another timeout for its control transfers.
    pub fn with_timeout(self, timeout: u32) -> (dfu: Dfu)
        ensures
            dfu.spec_interface() == self.spec_interface(),
            dfu.spec_timeout() == timeout,
            dfu.spec_xfer_size() == self.spec_xfer_size(),
    {
        proof {
            use_type_invariant(&self);
        }
        Dfu { interface: self.interface, timeout, xfer_size: self.xfer_size }
    }

    /// The same driver with another transfer size. A size of 0 is refused
    /// as an `Argument` error: nothing could be moved with it.
    pub fn with_xfer_size(self, xfer_size: u16) -> (dfu: Result<Dfu, Error>)
        ensures
            xfer_size > 0 <==> dfu is Ok,
            dfu matches Ok(set) ==> set.spec_interface() == self.spec_interface()
                && set.spec_timeout() == self.spec_timeout() && set.spec_xfer_size() == xfer_size,
            dfu matches Err(err) ==> err@ == ErrorView::Argument("Transfer size must be > 0"@),
    {
        if xfer_size == 0 {
            return Err(Error::Argument("Transfer size must be > 0".to_owned()));
        }
        Ok(Dfu { interface: self.interface, timeout: self.timeout, xfer_size })
    }

    /// The interface number.
    pub fn interface(&self) -> (interface: u16)
        ensures
            interface == self.spec_interface(),
    {
        self.interface
    }

    /// The timeout of each control transfer, in milliseconds.
    pub fn timeout(&self) -> (timeout: u32)
        ensures
            timeout == self.spec_timeout(),
    {
        self.timeout
    }

    /// The most bytes that one transfer moves; never 0.
    pub fn xfer_size(&self) -> (xfer_size: u16)
        ensures
            xfer_size == self.spec_xfer_size(),
            xfer_size > 0,
    {
        proof {
            use_type_invariant(self);
        }
        self.xfer_size
    }

    /// Whether a region can be read back or compared: it ends inside the
    /// address space, and its transfers do not outrun the transaction
    /// numbers. `upload` and `verify` ask for this.
    pub fn can_read(&self, address: u32, length: u32) -> (fits: bool)
        ensures
            fits == region_fits(address, length, self.spec_xfer_size()),
    {
        proof {
            use_type_invariant(self);
        }
        length <= u32::MAX - address && chunk_count(length, self.xfer_size) <= 0xFFFE
    }

    /// Whether so many bytes can be programmed: their pages can be erased,
    /// and their blocks do not outrun the transaction numbers.
    /// `download_raw` asks for this of the length it settles on.
    pub fn can_program(&self, length: u32) -> (fits: bool)
        ensures
            fits == (length <= MAX_ERASE_LENGTH && ceil_div(
                length as int,
                self.spec_xfer_size() as int,
            ) <= u16::MAX - 1),
    {
        proof {
            use_type_invariant(self);
        }
        length <= MAX_ERASE_LENGTH && chunk_count(length, self.xfer_size) <= 0xFFFE
    }

    /// Reads the status block, trying again after a stall or a malformed
    /// reply up to `retries` more times. The task hands back the status.
    pub fn get_status(&self, retries: u8) -> (task: Task)
        ensures
            task@ == self.fresh(Operation::GetStatus { retries }),
            task@.wf(),
    {
        Task::new(Operation::GetStatus { retries }, self.interface, self.timeout)
    }

    /// Sends CLRSTATUS, which takes the device out of its error state.
    pub fn clear_status(&self) -> (task: Task)
        ensures
            task@ == self.fresh(Operation::ClearStatus),
            task@.wf(),
    {
        Task::new(Operation::ClearStatus, self.interface, self.timeout)
    }

    /// Sends DETACH, which asks a device in application mode to enter DFU
    /// mode.
    pub fn detach(&self) -> (task: Task)
        ensures
            task@ == self.fresh(Operation::Detach),
            task@.wf(),
    {
        Task::new(Operation::Detach, self.interface, self.timeout)
    }

    /// Samples the status until the device is in `wait_for_state`, or in
    /// `DfuDownloadBusy` if none is given, up to `retries` more times after
    /// the first sample. The task hands back the status that matched.
    pub fn status_wait_for(&self, retries: u8, wait_for_state: Option<State>) -> (task: Task)
        ensures
            task@ == self.fresh(
                Operation::WaitFor {
                    retries,
                    state: match wait_for_state {
                        Some(state) => state,
                        None => State::DfuDownloadBusy,
                    },
                },
            ),
            task@.wf(),
    {
        let state = match wait_for_state {
            Some(state) => state,
            None => State::DfuDownloadBusy,
        };
        Task::new(Operation::WaitFor { retries, state }, self.interface, self.timeout)
    }

    /// Sets the address pointer and waits for the device to take it. The
    /// task hands back the status.
    pub fn set_address(&self, address: u32) -> (task: Task)
        ensures
            task@ == self.fresh(Operation::SetAddress { address }),
            task@.wf(),
    {
        Task::new(Operation::SetAddress { address }, self.interface, self.timeout)
    }

    /// Makes the device leave DFU mode and run the program at `address`.
    pub fn reset_stm32(&self, address: u32) -> (task: Task)
        ensures
            task@ == self.fresh(Operation::ResetStm32 { address }),
            task@.wf(),
    {
        Task::new(Operation::ResetStm32 { address }, self.interface, self.timeout)
    }

    /// Asks the device for the commands it supports. The task hands back
    /// the commands.
    pub fn dfuse_get_commands(&self) -> (task: Task)
        ensures
            task@ == self.fresh(Operation::GetCommands),
            task@.wf(),
    {
        Task::new(Operation::GetCommands, self.interface, self.timeout)
    }

    /// Compares the device's memory at `address` with a file of
    /// `file_length` bytes: `length` bytes of it, or all of it. The length
    /// is settled as `get_length_from_file` does, and its refusals are
    /// handed on.
    pub fn verify(&self, file_length: u64, address: u32, length: Option<u32>) -> (task: Result<
        Task,
        Error,
    >)
        requires
            spec_length(file_length, length) matches Ok(resolved) ==> region_fits(
                address,
                resolved,
                self.spec_xfer_size(),
            ),
        ensures
            planned(
                task,
                spec_verify(file_length, address, length, self.spec_xfer_size()),
                self.spec_interface(),
                self.spec_timeout(),
            ),
    {
        proof {
            use_type_invariant(self);
        }
        match get_length_from_file(file_length, length) {
            Ok(resolved) => Ok(
                Task::new(
                    Operation::Verify { address, length: resolved, xfer_max: self.xfer_size },
                    self.interface,
                    self.timeout,
                ),
            ),
            Err(err) => Err(err),
        }
    }

    /// Erases the pages of the `length` bytes at `address`. A length of 0
    /// is refused as an `Argument` error and an address outside the flash
    /// region as an `Address` error, before anything is sent.
    pub fn erase_pages(&self, address: u32, length: u32) -> (task: Result<Task, Error>)
        requires
            length <= MAX_ERASE_LENGTH,
        ensures
            planned(task, spec_erase(address, length), self.spec_interface(), self.spec_timeout()),
    {
        match calculate_pages(address, length) {
            Ok(pages) => Ok(
                Task::new(Operation::ErasePages { address, pages }, self.interface, self.timeout),
            ),
            Err(err) => Err(err),
        }
    }

    /// Erases the whole flash.
    pub fn mass_erase(&self) -> (task: Task)
        ensures
            task@ == self.fresh(Operation::MassErase),
            task@.wf(),
    {
        Task::new(Operation::MassErase, self.interface, self.timeout)
    }

    /// Reads `length` bytes of the device's memory at `address` into the
    /// file.
    pub fn upload(&self, address: u32, length: u32) -> (task: Task)
        requires
            region_fits(address, length, self.spec_xfer_size()),
        ensures
            task@ == self.fresh(
                Operation::Upload { address, length, xfer_max: self.spec_xfer_size() },
            ),
            task@.wf(),
    {
        proof {
            use_type_invariant(self);
        }
        Task::new(
            Operation::Upload { address, length, xfer_max: self.xfer_size },
            self.interface,
            self.timeout,
        )
    }

    /// Sends ABORT and checks that the device is idle afterwards: the way
    /// back to a known state from anywhere.
    pub fn abort_to_idle(&self) -> (task: Task)
        ensures
            task@ == self.fresh(Operation::AbortToIdle),
            task@.wf(),
    {
        Task::new(Operation::AbortToIdle, self.interface, self.timeout)
    }

    /// Programs a file of `file_length` bytes into the flash at `address`:
    /// `length` bytes of it, or all of it. The region is erased first. The
    /// length is settled as `get_length_from_file` does and the pages are
    /// counted as `calculate_pages` does; their refusals are handed on
    /// before anything is sent.
    pub fn download_raw(&self, file_length: u64, address: u32, length: Option<u32>) -> (task:
        Result<Task, Error>)
        requires
            spec_length(file_length, length) matches Ok(resolved) ==> resolved <= MAX_ERASE_LENGTH
                && ceil_div(resolved as int, self.spec_xfer_size() as int) <= u16::MAX - 1,
        ensures
            planned(
                task,
                spec_download(file_length, address, length, self.spec_xfer_size()),
                self.spec_interface(),
                self.spec_timeout(),
            ),
    {
        proof {
            use_type_invariant(self);
        }
        let resolved: u32 = match get_length_from_file(file_length, length) {
            Ok(resolved) => resolved,
            Err(err) => {
                return Err(err);
            },
        };
        match calculate_pages(address, resolved) {
            Ok(pages) => Ok(
                Task::new(
                    Operation::DownloadRaw {
                        address,
                        pages,
                        length: resolved,
                        xfer_max: self.xfer_size,
                    },
                    self.interface,
                    self.timeout,
                ),
            ),
            Err(err) => Err(err),
        }
    }

    /// The first half of letting go of the device: one status sample that
    /// succeeds if the device is idle.
    pub fn close(&self) -> (task: Task)
        ensures
            task@ == self.fresh(Operation::WaitFor { retries: 0, state: State::DfuIdle }),
            task@.wf(),
    {
        self.status_wait_for(0, Some(State::DfuIdle))
    }

    /// The second half: given how `close` ended, the task that brings the
    /// device back to idle, if one is needed. A device that was idle needs
    /// none.
    pub fn recover(&self, closed: &Result<Output, Error>) -> (task: Option<Task>)
        ensures
            task is Some <==> closed is Err,
            task matches Some(abort) ==> abort@ == self.fresh(Operation::AbortToIdle)
                && abort@.wf(),
    {
        match closed {
            Ok(_) => None,
            Err(_) => Some(self.abort_to_idle()),
        }
    }
}

} // verus!

//! The operations of the engine, each as the list of protocol steps that
//! carries it out.
//!
//! An operation is described by its parameters alone. Its script is a
//! function of them: `len` says how many steps there are, `step_at` what the
//! step at an index is. An operation runs its steps in order and ends at the
//! first that fails.

use crate::command::DfuseCommand;
use crate::state::State;
use crate::transaction::{ceil_div, chunk_at, region_fits, Transaction, PAGE_SIZE};
use crate::transaction::lemma_cursor_transfers;
use vstd::prelude::*;

verus! {

/// Bytes asked for when the list of commands is read.
pub const COMMAND_LIST_LENGTH: u16 = 1024;

/// One step of the protocol.
#[derive(Debug, Clone, Copy, PartialEq, Eq, Structural)]
pub enum Step {
    /// Read the status block; a stall or a malformed reply is tried again,
    /// up to `retries` more times.
    GetStatus { retries: u8 },
    /// Sample the status until the device is in `state`, up to `retries`
    /// more times after the first sample.
    WaitFor { retries: u8, state: State },
    /// Send a DfuSe command, as a download with transaction 0.
    Command(DfuseCommand),
    /// Send a download without a data stage.
    DownloadEmpty { transaction: u16 },
    /// Send the block that is held, as a download.
    DownloadHeld { transaction: u16 },
    /// Read `length` bytes from the device and hold them.
    Upload { transaction: u16, length: u16 },
    /// Send ABORT and check that the device is idle afterwards.
    Abort,
    /// Send CLRSTATUS.
    ClearStatus,
    /// Send DETACH.
    Detach,
    /// Read a block of `length` bytes from the file and hold it.
    ReadFile { length: u16 },
    /// Write the block that is held to the file.
    WriteHeld,
    /// Compare the block that is held, read at `address`, with the next
    /// bytes of the file.
    CompareHeld { address: u32 },
}

impl Step {
    /// The transaction number, if the step moves a block of memory.
    pub open spec fn block_transaction(self) -> Option<u16> {
        match self {
            Step::DownloadHeld { transaction } => Some(transaction),
            Step::Upload { transaction, length } => if transaction >= 2 {
                Some(transaction)
            } else {
                None
            },
            _ => None,
        }
    }

    /// The number of bytes a step takes from, or asks of, the file or the
    /// device for a block.
    pub open spec fn block_size(self) -> int {
        match self {
            Step::Upload { length, .. } => length as int,
            Step::ReadFile { length } => length as int,
            _ => 0,
        }
    }
}

/// An operation, by its parameters.
#[derive(Debug, Clone, Copy, PartialEq, Eq, Structural)]
pub enum Operation {
    /// Read the status block.
    GetStatus { retries: u8 },
    /// Take the device out of its error state.
    ClearStatus,
    /// Ask a device in application mode to enter DFU mode.
    Detach,
    /// Wait until the device is in `state`.
    WaitFor { retries: u8, state: State },
    /// Bring the device back to idle.
    AbortToIdle,
    /// Set the address pointer.
    SetAddress { address: u32 },
    /// Leave DFU mode and run the program at `address`.
    ResetStm32 { address: u32 },
    /// Ask which commands the device supports.
    GetCommands,
    /// Erase the whole flash.
    MassErase,
    /// Erase `pages` pages, the first at `address`.
    ErasePages { address: u32, pages: u16 },
    /// Read `length` bytes at `address` into the file.
    Upload { address: u32, length: u32, xfer_max: u16 },
    /// Compare `length` bytes at `address` with the file.
    Verify { address: u32, length: u32, xfer_max: u16 },
    /// Erase `pages` pages at `address`, then write `length` bytes of the
    /// file there.
    DownloadRaw { address: u32, pages: u16, length: u32, xfer_max: u16 },
}

/// The step at `index` of erasing pages from `address` on: a wait for the
/// idle state, then for each page the erase command and two waits, first
/// for the device to be busy and then for it to be done.
pub open spec fn erase_step(address: u32, index: int) -> Step {
    if index == 0 {
        Step::WaitFor { retries: 0, state: State::DfuIdle }
    } else if (index - 1) % 3 == 0 {
        Step::Command(DfuseCommand::ErasePage((address + ((index - 1) / 3) * 0x1_0000) as u32))
    } else if (index - 1) % 3 == 1 {
        Step::WaitFor { retries: 0, state: State::DfuDownloadBusy }
    } else {
        Step::WaitFor { retries: 100, state: State::DfuDownloadIdle }
    }
}

/// The number of steps that erasing `pages` pages takes.
pub open spec fn erase_len(pages: int) -> int {
    1 + 3 * pages
}

/// The step at `index` of reading a region back: set the address, take one
/// status sample, abort to idle and wait for the idle state; then for each
/// transfer of the region an upload, followed by writing the block to the
/// file or by comparing it with the file; then abort to idle.
pub open spec fn read_step(compare: bool, address: u32, length: u32, xfer_max: u16, index: int)
    -> Step {
    let chunks = ceil_div(length as int, xfer_max as int);
    if index == 0 {
        Step::Command(DfuseCommand::SetAddress(address))
    } else if index == 1 {
        Step::WaitFor { retries: 0, state: State::DfuDownloadBusy }
    } else if index == 2 {
        Step::Abort
    } else if index == 3 {
        Step::WaitFor { retries: 0, state: State::DfuIdle }
    } else if index < 4 + 2 * chunks {
        let chunk = chunk_at(address as int, length as int, xfer_max as int, (index - 4) / 2);
        if (index - 4) % 2 == 0 {
            Step::Upload { transaction: chunk.transaction as u16, length: chunk.size as u16 }
        } else if compare {
            Step::CompareHeld { address: chunk.address as u32 }
        } else {
            Step::WriteHeld
        }
    } else {
        Step::Abort
    }
}

/// The number of steps that reading a region back takes.
pub open spec fn read_len(length: u32, xfer_max: u16) -> int {
    4 + 2 * ceil_div(length as int, xfer_max as int) + 1
}

/// The step at `index` of writing a region, once it is erased: abort to
/// idle and wait for the idle state; then for each block read it from the
/// file, set the address, wait, send the block, and wait for the device to
/// be busy and then to be done; then abort to idle. Every block goes to
/// `address`: the address is sent anew each time and never moved.
pub open spec fn write_step(address: u32, length: u32, xfer_max: u16, index: int) -> Step {
    let chunks = ceil_div(length as int, xfer_max as int);
    if index == 0 {
        Step::Abort
    } else if index == 1 {
        Step::WaitFor { retries: 0, state: State::DfuIdle }
    } else if index < 2 + 6 * chunks {
        let chunk = chunk_at(address as int, length as int, xfer_max as int, (index - 2) / 6);
        let part = (index - 2) % 6;
        if part == 0 {
            Step::ReadFile { length: chunk.size as u16 }
        } else if part == 1 {
            Step::Command(DfuseCommand::SetAddress(address))
        } else if part == 2 {
            Step::WaitFor { retries: 100, state: State::DfuDownloadIdle }
        } else if part == 3 {
            Step::DownloadHeld { transaction: chunk.transaction as u16 }
        } else if part == 4 {
            Step::WaitFor { retries: 100, state: State::DfuDownloadBusy }
        } else {
            Step::WaitFor { retries: 100, state: State::DfuDownloadIdle }
        }
    } else {
        Step::Abort
    }
}

/// The number of steps that writing a region takes, once it is erased.
pub open spec fn write_len(length: u32, xfer_max: u16) -> int {
    2 + 6 * ceil_div(length as int, xfer_max as int) + 1
}

impl Operation {
    /// Whether the operation stays within the address space and the
    /// transaction counter.
    pub open spec fn wf(self) -> bool {
        match self {
            Operation::ErasePages { address, pages } => {
                &&& pages >= 1
                &&& address + (pages - 1) * 0x1_0000 <= u32::MAX
            },
            Operation::Upload { address, length, xfer_max } => {
                &&& xfer_max > 0
                &&& region_fits(address, length, xfer_max)
            },
            Operation::Verify { address, length, xfer_max } => {
                &&& xfer_max > 0
                &&& region_fits(address, length, xfer_max)
            },
            Operation::DownloadRaw { address, pages, length, xfer_max } => {
                &&& pages >= 1
                &&& address + (pages - 1) * 0x1_0000 <= u32::MAX
                &&& xfer_max > 0
                &&& length > 0
                &&& ceil_div(length as int, xfer_max as int) <= u16::MAX - 1
            },
            _ => true,
        }
    }

    /// The number of steps.
    pub open spec fn len(self) -> int {
        match self {
            Operation::GetStatus { .. } => 1,
            Operation::ClearStatus => 1,
            Operation::Detach => 1,
            Operation::WaitFor { .. } => 1,
            Operation::AbortToIdle => 1,
            Operation::SetAddress { .. } => 2,
            Operation::ResetStm32 { .. } => 5,
            Operation::GetCommands => 2,
            Operation::MassErase => 4,
            Operation::ErasePages { pages, .. } => erase_len(pages as int),
            Operation::Upload { length, xfer_max, .. } => read_len(length, xfer_max),
            Operation::Verify { length, xfer_max, .. } => read_len(length, xfer_max),
            Operation::DownloadRaw { pages, length, xfer_max, .. } => erase_len(pages as int)
                + write_len(length, xfer_max),
        }
    }

    /// The step at `index`.
    pub open spec fn step_at(self, index: int) -> Step {
        match self {
            Operation::GetStatus { retries } => Step::GetStatus { retries },
            Operation::ClearStatus => Step::ClearStatus,
            Operation::Detach => Step::Detach,
            Operation::WaitFor { retries, state } => Step::WaitFor { retries, state },
            Operation::AbortToIdle => Step::Abort,
            Operation::SetAddress { address } => if index == 0 {
                Step::Command(DfuseCommand::SetAddress(address))
            } else {
                Step::WaitFor { retries: 0, state: State::DfuDownloadIdle }
            },
            Operation::ResetStm32 { address } => if index == 0 {
                Step::Abort
            } else if index == 1 {
                Step::Command(DfuseCommand::SetAddress(address))
            } else if index == 2 {
                Step::WaitFor { retries: 0, state: State::DfuDownloadIdle }
            } else if index == 3 {
                Step::DownloadEmpty { transaction: 2 }
            } else {
                Step::GetStatus { retries: 100 }
            },
            Operation::GetCommands => if index == 0 {
                Step::Abort
            } else {
                Step::Upload { transaction: 0, length: COMMAND_LIST_LENGTH }
            },
            Operation::MassErase => if index == 0 {
                Step::WaitFor { retries: 0, state: State::DfuIdle }
            } else if index == 1 {
                Step::Command(DfuseCommand::MassErase)
            } else if index == 2 {
                Step::WaitFor { retries: 0, state: State::DfuDownloadBusy }
            } else {
                Step::WaitFor { retries: 10, state: State::DfuDownloadIdle }
            },
            Operation::ErasePages { address, .. } => erase_step(address, index),
            Operation::Upload { address, length, xfer_max } => read_step(
                false,
                address,
                length,
                xfer_max,
                index,
            ),
            Operation::Verify { address, length, xfer_max } => read_step(
                true,
                address,
                length,
                xfer_max,
                index,
            ),
            Operation::DownloadRaw { address, pages, length, xfer_max } => if index < erase_len(
                pages as int,
            ) {
                erase_step(address, index)
            } else {
                write_step(address, length, xfer_max, index - erase_len(pages as int))
            },
        }
    }

    /// The script: all steps in order.
    pub open spec fn script(self) -> Seq<Step> {
        Seq::new(self.len() as nat, |index: int| self.step_at(index))
    }

    /// The number of blocks of memory that the operation moves.
    pub open spec fn blocks(self) -> int {
        match self {
            Operation::Upload { length, xfer_max, .. } => ceil_div(length as int, xfer_max as int),
            Operation::Verify { length, xfer_max, .. } => ceil_div(length as int, xfer_max as int),
            Operation::DownloadRaw { length, xfer_max, .. } => ceil_div(
                length as int,
                xfer_max as int,
            ),
            _ => 0,
        }
    }

    /// The index of the step that moves block number `block`, counted
    /// from 0.
    pub open spec fn block_position(self, block: int) -> int {
        match self {
            Operation::DownloadRaw { pages, .. } => erase_len(pages as int) + 2 + 6 * block + 3,
            _ => 4 + 2 * block,
        }
    }

    /// The most bytes that one block of the operation holds.
    pub open spec fn block_limit(self) -> int {
        match self {
            Operation::Upload { xfer_max, .. } => xfer_max as int,
            Operation::Verify { xfer_max, .. } => xfer_max as int,
            Operation::DownloadRaw { xfer_max, .. } => xfer_max as int,
            _ => 0,
        }
    }

    /// The number of blocks that are moved at or before the step at
    /// `index`.
    pub open spec fn blocks_until(self, index: int) -> int {
        match self {
            Operation::Upload { .. } => counted(index - 4, 2, self.blocks()),
            Operation::Verify { .. } => counted(index - 4, 2, self.blocks()),
            Operation::DownloadRaw { pages, .. } => counted(
                index - erase_len(pages as int) - 5,
                6,
                self.blocks(),
            ),
            _ => 0,
        }
    }

    /// Which block a step belongs to, if `index` is where a block is moved.
    pub open spec fn block_index(self, index: int) -> int {
        match self {
            Operation::DownloadRaw { pages, .. } => (index - erase_len(pages as int) - 2) / 6,
            _ => (index - 4) / 2,
        }
    }

    /// The most bytes that are held when the step at `index` begins: the
    /// size of the block in hand where a block is on its way between the
    /// device and the file, and what one transfer can carry elsewhere.
    pub open spec fn held_limit(self, index: int) -> int {
        match self {
            Operation::Upload { address, length, xfer_max } => read_held_limit(
                length,
                xfer_max,
                index,
            ),
            Operation::Verify { address, length, xfer_max } => read_held_limit(
                length,
                xfer_max,
                index,
            ),
            Operation::DownloadRaw { address, pages, length, xfer_max } => {
                let inner = index - erase_len(pages as int);
                if 2 <= inner < 2 + 6 * ceil_div(length as int, xfer_max as int) && 1 <= (inner
                    - 2) % 6 <= 3 {
                    chunk_at(address as int, length as int, xfer_max as int, (inner - 2) / 6).size
                } else {
                    u16::MAX as int
                }
            },
            _ => u16::MAX as int,
        }
    }

    /// The number of steps of the script.
    pub fn length(&self) -> (count: u32)
        requires
            self.wf(),
        ensures
            count == self.len(),
            count >= 1,
    {
        match *self {
            Operation::GetStatus { .. } => 1,
            Operation::ClearStatus => 1,
            Operation::Detach => 1,
            Operation::WaitFor { .. } => 1,
            Operation::AbortToIdle => 1,
            Operation::SetAddress { .. } => 2,
            Operation::ResetStm32 { .. } => 5,
            Operation::GetCommands => 2,
            Operation::MassErase => 4,
            Operation::ErasePages { pages, .. } => 1 + 3 * (pages as u32),
            Operation::Upload { length, xfer_max, .. } => 5 + 2 * chunk_count(length, xfer_max),
            Operation::Verify { length, xfer_max, .. } => 5 + 2 * chunk_count(length, xfer_max),
            Operation::DownloadRaw { pages, length, xfer_max, .. } => {
                let erase: u32 = 1 + 3 * (pages as u32);
                erase + 3 + 6 * chunk_count(length, xfer_max)
            },
        }
    }

    /// The step at `index` of the script.
    pub fn step(&self, index: u32) -> (step: Step)
        requires
            self.wf(),
            index < self.len(),
        ensures
            step == self.step_at(index as int),
    {
        match *self {
            Operation::GetStatus { retries } => Step::GetStatus { retries },
            Operation::ClearStatus => Step::ClearStatus,
            Operation::Detach => Step::Detach,
            Operation::WaitFor { retries, state } => Step::WaitFor { retries, state },
            Operation::AbortToIdle => Step::Abort,
            Operation::SetAddress { address } => if index == 0 {
                Step::Command(DfuseCommand::SetAddress(address))
            } else {
                Step::WaitFor { retries: 0, state: State::DfuDownloadIdle }
            },
            Operation::ResetStm32 { address } => if index == 0 {
                Step::Abort
            } else if index == 1 {
                Step::Command(DfuseCommand::SetAddress(address))
            } else if index == 2 {
                Step::WaitFor { retries: 0, state: State::DfuDownloadIdle }
            } else if index == 3 {
                Step::DownloadEmpty { transaction: 2 }
            } else {
                Step::GetStatus { retries: 100 }
            },
            Operation::GetCommands => if index == 0 {
                Step::Abort
            } else {
                Step::Upload { transaction: 0, length: COMMAND_LIST_LENGTH }
            },
            Operation::MassErase => if index == 0 {
                Step::WaitFor { retries: 0, state: State::DfuIdle }
            } else if index == 1 {
                Step::Command(DfuseCommand::MassErase)
            } else if index == 2 {
                Step::WaitFor { retries: 0, state: State::DfuDownloadBusy }
            } else {
                Step::WaitFor { retries: 10, state: State::DfuDownloadIdle }
            },
            Operation::ErasePages { address, pages } => erase_step_of(address, pages, index),
            Operation::Upload { address, length, xfer_max } => read_step_of(
                false,
                address,
                length,
                xfer_max,
                index,
            ),
            Operation::Verify { address, length, xfer_max } => read_step_of(
                true,
                address,
                length,
                xfer_max,
                index,
            ),
            Operation::DownloadRaw { address, pages, length, xfer_max } => {
                let erase: u32 = 1 + 3 * (pages as u32);
                if index < erase {
                    erase_step_of(address, pages, index)
                } else {
                    write_step_of(address, length, xfer_max, index - erase)
                }
            },
        }
    }
}

/// How many of `blocks` blocks, the first moved at offset 0 and each
/// `apart` steps after the one before, are moved at or before `offset`.
pub open spec fn counted(offset: int, apart: int, blocks: int) -> int {
    if blocks <= 0 || offset < 0 {
        0
    } else if apart == 2 {
        if offset / 2 + 1 <= blocks {
            offset / 2 + 1
        } else {
            blocks
        }
    } else {
        if offset / 6 + 1 <= blocks {
            offset / 6 + 1
        } else {
            blocks
        }
    }
}

/// The most bytes held at `index` while a region is read back: after an
/// upload, the size of the block that it asked for.
pub open spec fn read_held_limit(length: u32, xfer_max: u16, index: int) -> int {
    if 4 <= index < 4 + 2 * ceil_div(length as int, xfer_max as int) && (index - 4) % 2 == 1 {
        chunk_at(0, length as int, xfer_max as int, (index - 4) / 2).size
    } else {
        u16::MAX as int
    }
}

/// The number of transfers that a region of `length` bytes takes.
pub fn chunk_count(length: u32, xfer_max: u16) -> (count: u32)
    requires
        xfer_max > 0,
    ensures
        count == ceil_div(length as int, xfer_max as int),
{
    let sum: u64 = length as u64 + xfer_max as u64 - 1;
    let count: u64 = sum / (xfer_max as u64);
    proof {
        lemma_ceil_div_bounds(length as int, xfer_max as int);
    }
    count as u32
}

/// The rounded-up quotient lies between 0 and the dividend, and that many
/// divisors cover the dividend while one fewer does not.
pub proof fn lemma_ceil_div_bounds(n: int, d: int)
    requires
        n >= 0,
        d > 0,
    ensures
        0 <= ceil_div(n, d) <= n,
        ceil_div(n, d) * d >= n,
        (ceil_div(n, d) - 1) * d < n || n == 0,
        n > 0 ==> ceil_div(n, d) >= 1,
{
    let q = (n + d - 1) / d;
    let r = (n + d - 1) % d;
    vstd::arithmetic::div_mod::lemma_fundamental_div_mod(n + d - 1, d);
    assert(n + d - 1 == d * q + r);
    assert(0 <= r < d);
    assert(q * d == d * q) by (nonlinear_arith);
    assert((q - 1) * d == q * d - d) by (nonlinear_arith);
    assert(q >= 0) by (nonlinear_arith)
        requires
            d * q + r >= 0,
            0 <= r < d,
            d > 0,
    ;
    assert(q <= n) by (nonlinear_arith)
        requires
            n + d - 1 == d * q + r,
            0 <= r,
            d > 0,
            n >= 0,
            q >= 0,
    ;
    assert(n > 0 ==> q >= 1) by (nonlinear_arith)
        requires
            n + d - 1 == d * q + r,
            r < d,
            d > 0,
    ;
}

/// A transfer that exists starts inside the region.
pub proof fn lemma_chunk_inside(length: int, xfer_max: int, index: int)
    requires
        length >= 0,
        xfer_max > 0,
        0 <= index < ceil_div(length, xfer_max),
    ensures
        0 <= index * xfer_max < length,
        0 < chunk_at(0, length, xfer_max, index).size <= xfer_max,
        index * xfer_max + chunk_at(0, length, xfer_max, index).size <= length,
{
    lemma_ceil_div_bounds(length, xfer_max);
    let q = ceil_div(length, xfer_max);
    assert(index * xfer_max <= (q - 1) * xfer_max) by (nonlinear_arith)
        requires
            index <= q - 1,
            xfer_max > 0,
    ;
    assert(index * xfer_max >= 0) by (nonlinear_arith)
        requires
            index >= 0,
            xfer_max > 0,
    ;
}

fn erase_step_of(address: u32, pages: u16, index: u32) -> (step: Step)
    requires
        pages >= 1,
        address + (pages - 1) * 0x1_0000 <= u32::MAX,
        index < erase_len(pages as int),
    ensures
        step == erase_step(address, index as int),
{
    if index == 0 {
        Step::WaitFor { retries: 0, state: State::DfuIdle }
    } else {
        let page: u32 = (index - 1) / 3;
        let part: u32 = (index - 1) % 3;
        if part == 0 {
            let start: u32 = address + page * PAGE_SIZE;
            Step::Command(DfuseCommand::ErasePage(start))
        } else if part == 1 {
            Step::WaitFor { retries: 0, state: State::DfuDownloadBusy }
        } else {
            Step::WaitFor { retries: 100, state: State::DfuDownloadIdle }
        }
    }
}

fn chunk_of(address: u32, length: u32, xfer_max: u16, index: u32) -> (chunk: (u16, u32, u16))
    requires
        xfer_max > 0,
        index < ceil_div(length as int, xfer_max as int),
        ceil_div(length as int, xfer_max as int) <= u16::MAX - 1,
    ensures
        chunk.0 == chunk_at(address as int, length as int, xfer_max as int, index as int).transaction,
        chunk.2 == chunk_at(address as int, length as int, xfer_max as int, index as int).size,
        address + length <= u32::MAX ==> chunk.1 == chunk_at(
            address as int,
            length as int,
            xfer_max as int,
            index as int,
        ).address,
        0 < chunk.2 <= xfer_max,
{
    proof {
        lemma_chunk_inside(length as int, xfer_max as int, index as int);
    }
    let offset: u32 = index * (xfer_max as u32);
    let rest: u32 = length - offset;
    let size: u16 = if rest >= xfer_max as u32 {
        xfer_max
    } else {
        rest as u16
    };
    let start: u32 = if address <= u32::MAX - length {
        address + offset
    } else {
        address
    };
    ((2 + index) as u16, start, size)
}

fn read_step_of(compare: bool, address: u32, length: u32, xfer_max: u16, index: u32) -> (step:
    Step)
    requires
        xfer_max > 0,
        region_fits(address, length, xfer_max),
        index < read_len(length, xfer_max),
    ensures
        step == read_step(compare, address, length, xfer_max, index as int),
{
    let chunks: u32 = chunk_count(length, xfer_max);
    if index == 0 {
        Step::Command(DfuseCommand::SetAddress(address))
    } else if index == 1 {
        Step::WaitFor { retries: 0, state: State::DfuDownloadBusy }
    } else if index == 2 {
        Step::Abort
    } else if index == 3 {
        Step::WaitFor { retries: 0, state: State::DfuIdle }
    } else if index < 4 + 2 * chunks {
        let chunk: (u16, u32, u16) = chunk_of(address, length, xfer_max, (index - 4) / 2);
        if (index - 4) % 2 == 0 {
            Step::Upload { transaction: chunk.0, length: chunk.2 }
        } else if compare {
            Step::CompareHeld { address: chunk.1 }
        } else {
            Step::WriteHeld
        }
    } else {
        Step::Abort
    }
}

fn write_step_of(address: u32, length: u32, xfer_max: u16, index: u32) -> (step: Step)
    requires
        xfer_max > 0,
        ceil_div(length as int, xfer_max as int) <= u16::MAX - 1,
        index < write_len(length, xfer_max),
    ensures
        step == write_step(address, length, xfer_max, index as int),
{
    let chunks: u32 = chunk_count(length, xfer_max);
    if index == 0 {
        Step::Abort
    } else if index == 1 {
        Step::WaitFor { retries: 0, state: State::DfuIdle }
    } else if index < 2 + 6 * chunks {
        let chunk: (u16, u32, u16) = chunk_of(address, length, xfer_max, (index - 2) / 6);
        let part: u32 = (index - 2) % 6;
        if part == 0 {
            Step::ReadFile { length: chunk.2 }
        } else if part == 1 {
            Step::Command(DfuseCommand::SetAddress(address))
        } else if part == 2 {
            Step::WaitFor { retries: 100, state: State::DfuDownloadIdle }
        } else if part == 3 {
            Step::DownloadHeld { transaction: chunk.0 }
        } else if part == 4 {
            Step::WaitFor { retries: 100, state: State::DfuDownloadBusy }
        } else {
            Step::WaitFor { retries: 100, state: State::DfuDownloadIdle }
        }
    } else {
        Step::Abort
    }
}

/// Erasing `pages` pages from `address` on waits for the idle state once and
/// then sends one erase command for each page, the pages 64 KiB apart, each
/// followed by a wait for the busy state without a retry and a wait for the
/// end of the erase with up to 100 retries.
pub proof fn lemma_erase_pages_script(address: u32, pages: u16, page: int)
    requires
        (Operation::ErasePages { address, pages }).wf(),
        0 <= page < pages,
    ensures
        ({
            let op = Operation::ErasePages { address, pages };
            &&& op.len() == 1 + 3 * pages
            &&& op.step_at(0) == Step::WaitFor { retries: 0, state: State::DfuIdle }
            &&& address + page * 0x1_0000 <= u32::MAX
            &&& op.step_at(1 + 3 * page) == Step::Command(
                DfuseCommand::ErasePage((address + page * 0x1_0000) as u32),
            )
            &&& op.step_at(2 + 3 * page) == Step::WaitFor {
                retries: 0,
                state: State::DfuDownloadBusy,
            }
            &&& op.step_at(3 + 3 * page) == Step::WaitFor {
                retries: 100,
                state: State::DfuDownloadIdle,
            }
        }),
{
}

/// The transfers that move a block carry the transaction numbers 2, 3, 4
/// and so on, in the order of the script and without a gap: block number
/// `k` is moved at `block_position(k)` with transaction `2 + k`, the
/// positions grow with `k`, and no other step moves a block.
pub proof fn lemma_block_transactions(op: Operation)
    requires
        op.wf(),
    ensures
        forall|k: int|
            0 <= k < op.blocks() ==> {
                &&& 0 <= #[trigger] op.block_position(k) < op.len()
                &&& 2 + k <= u16::MAX
                &&& op.step_at(op.block_position(k)).block_transaction() == Some((2 + k) as u16)
            },
        forall|j: int, k: int|
            0 <= j < k ==> #[trigger] op.block_position(j) < #[trigger] op.block_position(k),
        forall|i: int|
            0 <= i < op.len() && (#[trigger] op.step_at(i)).block_transaction() is Some ==> {
                &&& 0 <= op.block_index(i) < op.blocks()
                &&& i == op.block_position(op.block_index(i))
            },
{
    match op {
        Operation::Upload { address, length, xfer_max } => {
            lemma_ceil_div_bounds(length as int, xfer_max as int);
        },
        Operation::Verify { address, length, xfer_max } => {
            lemma_ceil_div_bounds(length as int, xfer_max as int);
        },
        Operation::DownloadRaw { address, pages, length, xfer_max } => {
            lemma_ceil_div_bounds(length as int, xfer_max as int);
        },
        _ => {},
    }
}

/// No step asks the device or the file for a block of more than the
/// operation's transfer size, and none asks for an empty one.
pub proof fn lemma_block_sizes(op: Operation, index: int)
    requires
        op.wf(),
        0 <= index < op.len(),
        op.step_at(index) is ReadFile || (op.step_at(index) is Upload && op.step_at(
            index,
        ).block_transaction() is Some),
    ensures
        0 < op.step_at(index).block_size() <= op.block_limit(),
        op.held_limit(index + 1) == op.step_at(index).block_size(),
{
    match op {
        Operation::Upload { address, length, xfer_max } => {
            lemma_read_block_size(false, address, length, xfer_max, index);
        },
        Operation::Verify { address, length, xfer_max } => {
            lemma_read_block_size(true, address, length, xfer_max, index);
        },
        Operation::DownloadRaw { address, pages, length, xfer_max } => {
            let inner = index - erase_len(pages as int);
            let block = (inner - 2) / 6;
            lemma_ceil_div_bounds(length as int, xfer_max as int);
            assert(2 <= inner < 2 + 6 * ceil_div(length as int, xfer_max as int));
            assert((inner - 2) % 6 == 0);
            assert((inner + 1 - 2) / 6 == block);
            lemma_chunk_inside(length as int, xfer_max as int, block);
            assert(chunk_at(address as int, length as int, xfer_max as int, block).size
                == chunk_at(0, length as int, xfer_max as int, block).size);
        },
        _ => {},
    }
}

proof fn lemma_read_block_size(
    compare: bool,
    address: u32,
    length: u32,
    xfer_max: u16,
    index: int,
)
    requires
        xfer_max > 0,
        region_fits(address, length, xfer_max),
        0 <= index < read_len(length, xfer_max),
        read_step(compare, address, length, xfer_max, index).block_transaction() is Some,
    ensures
        0 < read_step(compare, address, length, xfer_max, index).block_size() <= xfer_max,
        read_held_limit(length, xfer_max, index + 1) == read_step(
            compare,
            address,
            length,
            xfer_max,
            index,
        ).block_size(),
{
    let block = (index - 4) / 2;
    lemma_ceil_div_bounds(length as int, xfer_max as int);
    assert(4 <= index < 4 + 2 * ceil_div(length as int, xfer_max as int));
    assert((index - 4) % 2 == 0);
    assert((index + 1 - 4) / 2 == block);
    lemma_chunk_inside(length as int, xfer_max as int, block);
    assert(chunk_at(address as int, length as int, xfer_max as int, block).size == chunk_at(
        0,
        length as int,
        xfer_max as int,
        block,
    ).size);
}

/// What is held never has to shrink from one step to the next, except
/// where the step itself brings the block: past any step but an upload or
/// a file read, the limit of the next step is no lower.
pub proof fn lemma_held_limit_carries(op: Operation, index: int)
    requires
        op.wf(),
        0 <= index,
        index + 1 < op.len(),
        !(op.step_at(index) is Upload),
        !(op.step_at(index) is ReadFile),
    ensures
        op.held_limit(index + 1) >= op.held_limit(index) || op.held_limit(index + 1) == u16::MAX,
        op.step_at(index) is DownloadHeld || op.step_at(index) is WriteHeld || op.step_at(index)
            is CompareHeld ==> op.held_limit(index + 1) == u16::MAX,
{
}

/// Where the held block is compared or sent, it is no larger than the
/// operation's transfer size, and comparing it stays in the address space.
pub proof fn lemma_held_limit_bounds(op: Operation, index: int)
    requires
        op.wf(),
        0 <= index < op.len(),
    ensures
        0 < op.held_limit(index) <= u16::MAX,
        op.step_at(index) is DownloadHeld ==> op.held_limit(index) <= op.block_limit(),
        op.step_at(index) matches Step::CompareHeld { address } ==> address + op.held_limit(index)
            <= u32::MAX,
{
    match op {
        Operation::Upload { address, length, xfer_max } => {
            lemma_ceil_div_bounds(length as int, xfer_max as int);
            if 4 <= index < 4 + 2 * ceil_div(length as int, xfer_max as int) {
                lemma_chunk_inside(length as int, xfer_max as int, (index - 4) / 2);
            }
        },
        Operation::Verify { address, length, xfer_max } => {
            lemma_ceil_div_bounds(length as int, xfer_max as int);
            if 4 <= index < 4 + 2 * ceil_div(length as int, xfer_max as int) {
                lemma_chunk_inside(length as int, xfer_max as int, (index - 4) / 2);
            }
        },
        Operation::DownloadRaw { address, pages, length, xfer_max } => {
            let inner = index - erase_len(pages as int);
            lemma_ceil_div_bounds(length as int, xfer_max as int);
            if 2 <= inner < 2 + 6 * ceil_div(length as int, xfer_max as int) {
                lemma_chunk_inside(length as int, xfer_max as int, (inner - 2) / 6);
            }
        },
        _ => {},
    }
}

/// Reading a region back follows the cursor over that region: there are as
/// many uploads as the cursor makes transfers, and the upload of block `k`
/// has the transaction number and the size of the cursor's transfer `k`.
/// With the cursor's own law, the uploads ask for `length` bytes in all.
pub proof fn lemma_read_follows_cursor(
    compare: bool,
    address: u32,
    length: u32,
    xfer_max: u16,
    block: int,
)
    requires
        xfer_max > 0,
        region_fits(address, length, xfer_max),
        0 <= block < ceil_div(length as int, xfer_max as int),
    ensures
        ({
            let transfers = Transaction::spec_new(address, length, xfer_max).transfers();
            &&& transfers.len() == ceil_div(length as int, xfer_max as int)
            &&& read_step(compare, address, length, xfer_max, 4 + 2 * block) == Step::Upload {
                transaction: transfers[block].transaction as u16,
                length: transfers[block].size as u16,
            }
            &&& compare ==> read_step(compare, address, length, xfer_max, 5 + 2 * block)
                == Step::CompareHeld { address: transfers[block].address as u32 }
            &&& !compare ==> read_step(compare, address, length, xfer_max, 5 + 2 * block)
                == Step::WriteHeld
        }),
{
    lemma_cursor_transfers(address, length, xfer_max, block);
}

/// Writing a region reads the file in the blocks that the cursor over the
/// region makes, and sends block `k` with the cursor's transaction number
/// for transfer `k`; before each block the address is set to the start of
/// the region.
pub proof fn lemma_write_follows_cursor(address: u32, length: u32, xfer_max: u16, block: int)
    requires
        xfer_max > 0,
        address + length <= u32::MAX,
        0 <= block < ceil_div(length as int, xfer_max as int),
        ceil_div(length as int, xfer_max as int) <= u16::MAX - 1,
    ensures
        ({
            let transfers = Transaction::spec_new(address, length, xfer_max).transfers();
            &&& transfers.len() == ceil_div(length as int, xfer_max as int)
            &&& write_step(address, length, xfer_max, 2 + 6 * block) == Step::ReadFile {
                length: transfers[block].size as u16,
            }
            &&& write_step(address, length, xfer_max, 3 + 6 * block) == Step::Command(
                DfuseCommand::SetAddress(address),
            )
            &&& write_step(address, length, xfer_max, 5 + 6 * block) == Step::DownloadHeld {
                transaction: transfers[block].transaction as u16,
            }
        }),
{
    lemma_cursor_transfers(address, length, xfer_max, block);
}

/// Every script has at least one step, and its indices fit in 32 bits.
pub proof fn lemma_len_bounds(op: Operation)
    requires
        op.wf(),
    ensures
        1 <= op.len() <= u32::MAX,
        0 <= op.blocks() <= u16::MAX - 1,
{
    match op {
        Operation::Upload { address, length, xfer_max } => {
            lemma_ceil_div_bounds(length as int, xfer_max as int);
        },
        Operation::Verify { address, length, xfer_max } => {
            lemma_ceil_div_bounds(length as int, xfer_max as int);
        },
        Operation::DownloadRaw { address, pages, length, xfer_max } => {
            lemma_ceil_div_bounds(length as int, xfer_max as int);
        },
        _ => {},
    }
}

proof fn lemma_read_blocks_until(compare: bool, address: u32, length: u32, xfer_max: u16, index: int)
    requires
        xfer_max > 0,
        region_fits(address, length, xfer_max),
        0 < index < read_len(length, xfer_max),
    ensures
        ({
            let blocks = ceil_div(length as int, xfer_max as int);
            let moves = read_step(compare, address, length, xfer_max, index).block_transaction()
                is Some;
            &&& 0 <= counted(index - 4, 2, blocks) <= blocks
            &&& moves ==> counted(index - 4, 2, blocks) == counted(index - 5, 2, blocks) + 1
            &&& moves ==> counted(index - 4, 2, blocks) == (index - 4) / 2 + 1
            &&& !moves ==> counted(index - 4, 2, blocks) == counted(index - 5, 2, blocks)
        }),
{
    let blocks = ceil_div(length as int, xfer_max as int);
    lemma_ceil_div_bounds(length as int, xfer_max as int);
    if 4 <= index < 4 + 2 * blocks {
        let block = (index - 4) / 2;
        assert(0 <= block < blocks);
        if (index - 4) % 2 == 0 {
            assert(index - 4 == 2 * block);
            assert(index > 4 ==> (index - 5) / 2 == block - 1);
            assert(2 + block <= u16::MAX);
        } else {
            assert(index - 4 == 2 * block + 1);
            assert((index - 5) / 2 == block);
        }
    } else if index >= 4 + 2 * blocks {
        assert(index == 4 + 2 * blocks);
        assert((index - 4) / 2 == blocks);
        assert(blocks > 0 ==> (index - 5) / 2 == blocks - 1);
    }
}

proof fn lemma_write_blocks_until(address: u32, length: u32, xfer_max: u16, index: int)
    requires
        xfer_max > 0,
        ceil_div(length as int, xfer_max as int) <= u16::MAX - 1,
        0 <= index < write_len(length, xfer_max),
    ensures
        ({
            let blocks = ceil_div(length as int, xfer_max as int);
            let moves = write_step(address, length, xfer_max, index).block_transaction() is Some;
            &&& 0 <= counted(index - 5, 6, blocks) <= blocks
            &&& moves ==> counted(index - 5, 6, blocks) == counted(index - 6, 6, blocks) + 1
            &&& moves ==> counted(index - 5, 6, blocks) == (index - 5) / 6 + 1 && (index - 5) / 6
                == (index - 2) / 6
            &&& !moves ==> counted(index - 5, 6, blocks) == counted(index - 6, 6, blocks)
        }),
{
    let blocks = ceil_div(length as int, xfer_max as int);
    lemma_ceil_div_bounds(length as int, xfer_max as int);
    if 2 <= index < 2 + 6 * blocks {
        let block = (index - 2) / 6;
        let part = (index - 2) % 6;
        assert(0 <= block < blocks);
        assert(index - 2 == 6 * block + part);
        if part == 3 {
            assert(index - 5 == 6 * block);
            assert((index - 5) / 6 == block);
            assert(block > 0 ==> (index - 6) / 6 == block - 1);
            assert(2 + block <= u16::MAX);
        } else if part < 3 {
            assert(index >= 5 ==> (index - 5) / 6 == block - 1);
            assert(index >= 6 ==> (index - 6) / 6 == block - 1);
        } else {
            assert((index - 5) / 6 == block);
            assert((index - 6) / 6 == block);
        }
    } else if index >= 2 + 6 * blocks {
        assert(index == 2 + 6 * blocks);
        assert(blocks > 0 ==> (index - 5) / 6 == blocks - 1);
        assert(blocks > 0 ==> (index - 6) / 6 == blocks - 1);
    }
}

/// Counting the blocks along the script: the count grows by one exactly at
/// the steps that move a block, where it reaches the number of that block
/// plus one, and nowhere else.
pub proof fn lemma_blocks_until(op: Operation, index: int)
    requires
        op.wf(),
        0 <= index < op.len(),
    ensures
        op.blocks_until(0) == 0,
        0 <= op.blocks_until(index) <= op.blocks(),
        index > 0 && op.step_at(index).block_transaction() is Some ==> op.blocks_until(index)
            == op.blocks_until(index - 1) + 1 && op.blocks_until(index) == op.block_index(index)
            + 1,
        index > 0 && op.step_at(index).block_transaction() is None ==> op.blocks_until(index)
            == op.blocks_until(index - 1),
        op.step_at(0).block_transaction() is None,
{
    lemma_len_bounds(op);
    match op {
        Operation::Upload { address, length, xfer_max } => {
            if index > 0 {
                lemma_read_blocks_until(false, address, length, xfer_max, index);
            }
        },
        Operation::Verify { address, length, xfer_max } => {
            if index > 0 {
                lemma_read_blocks_until(true, address, length, xfer_max, index);
            }
        },
        Operation::DownloadRaw { address, pages, length, xfer_max } => {
            let erase = erase_len(pages as int);
            if index >= erase {
                lemma_write_blocks_until(address, length, xfer_max, index - erase);
            }
        },
        _ => {},
    }
}

} // verus!

//! The engine: a task carries out the script of one operation, one event at
//! a time.
//!
//! `TaskView` is the engine as a mathematical state machine: `step` maps a
//! state and an event to the next state and the action to take. `Task` is
//! the state in memory, and `Task::step` computes exactly that function.

use crate::block::{first_mismatch, fit, fitted, mismatch};
use crate::command::{list, spec_list};
use crate::error::{Error, ErrorView, OsError};
use crate::script::{lemma_block_sizes, lemma_held_limit_bounds, lemma_held_limit_carries};
use crate::script::lemma_len_bounds;
use crate::script::{Operation, Step};
use crate::state::State;
use crate::status::Status;
use crate::transport::{Action, ActionView, Event, EventView, Output, OutputView};
use crate::transport::{DFU_ABORT, DFU_CLRSTATUS, DFU_DETACH, DFU_DNLOAD, DFU_GET_STATUS};
use crate::transport::DFU_UPLOAD;
use vstd::prelude::*;

verus! {

/// Milliseconds to rest after a stalled status request.
pub const STALL_REST: u32 = 3000;

/// Milliseconds to rest after a malformed status reply.
pub const MALFORMED_REST: u32 = 100;

/// Milliseconds between two status samples of a wait.
pub const BACKOFF: u32 = 100;

/// Milliseconds to let the device settle after it stalled a download.
pub const SETTLE: u32 = 10;

/// Retries of each status request made while waiting for a state.
pub const SAMPLE_RETRIES: u8 = 10;

/// Why a status request is being tried again.
#[derive(Debug, Clone, Copy, PartialEq, Eq, Structural)]
pub enum Fault {
    /// The device stalled the request.
    Stall(OsError),
    /// The reply was not a status block.
    Malformed,
}

impl Fault {
    /// The failure that is reported when no retry is left.
    pub open spec fn error(self) -> ErrorView {
        match self {
            Fault::Stall(cause) => ErrorView::USB("Control transfer: DFU_GET_STATUS"@, cause),
            Fault::Malformed => ErrorView::InvalidControlResponse("Status length was not 6"@),
        }
    }

    /// How long to rest before the retry.
    pub open spec fn rest(self) -> u32 {
        match self {
            Fault::Stall(_) => STALL_REST,
            Fault::Malformed => MALFORMED_REST,
        }
    }
}

/// Where a task stands within its current step.
#[derive(Debug, Clone, Copy, PartialEq, Eq, Structural)]
pub enum Phase {
    /// Nothing was asked of the host yet.
    Idle,
    /// The step's own control transfer is under way.
    Transfer,
    /// The device stalled a download and is given time to settle.
    Settle,
    /// A status request is under way.
    Polling,
    /// A status request failed and is tried again after a rest.
    Rest(Fault),
    /// The device was not in the awaited state; the next sample follows.
    Backoff,
    /// A file access is under way.
    File,
    /// The operation is over.
    Finished,
}

/// Whether a phase can occur within a step: a transfer belongs to the steps
/// that open with one, a status request to those that read the status, a
/// file access to those that touch the file.
pub open spec fn phase_fits(phase: Phase, step: Step) -> bool {
    match phase {
        Phase::Idle | Phase::Finished => true,
        Phase::Transfer => match step {
            Step::Command(_) | Step::DownloadEmpty { .. } | Step::DownloadHeld { .. } => true,
            Step::Upload { .. } | Step::Abort | Step::ClearStatus | Step::Detach => true,
            _ => false,
        },
        Phase::Settle => match step {
            Step::Command(_) | Step::DownloadEmpty { .. } | Step::DownloadHeld { .. } => true,
            _ => false,
        },
        Phase::Polling | Phase::Rest(_) | Phase::Backoff => match step {
            Step::GetStatus { .. } | Step::WaitFor { .. } | Step::Abort => true,
            _ => false,
        },
        Phase::File => match step {
            Step::ReadFile { .. } | Step::WriteHeld | Step::CompareHeld { .. } => true,
            _ => false,
        },
    }
}

/// A task as a mathematical value.
pub struct TaskView {
    /// The operation that is carried out.
    pub op: Operation,
    /// The interface number, sent as the index of every request.
    pub interface: u16,
    /// Timeout of each control transfer, in milliseconds.
    pub timeout: u32,
    /// Index of the current step.
    pub pc: int,
    /// Where the task stands within the step.
    pub phase: Phase,
    /// Retries left for the status request under way.
    pub attempts: u8,
    /// Status samples left for the wait under way.
    pub samples: u8,
    /// The block in hand.
    pub held: Seq<u8>,
    /// The last status block that the device reported.
    pub status: Status,
}

/// The failure reported when the host answers with an event that does not
/// belong to the action it was asked for.
pub open spec fn misuse() -> ErrorView {
    ErrorView::Argument("Unexpected event"@)
}

impl Operation {
    /// What the operation hands back once all its steps are done.
    pub open spec fn outcome(self, held: Seq<u8>, status: Status) -> Result<
        OutputView,
        ErrorView,
    > {
        match self {
            Operation::GetStatus { .. } => Ok(OutputView::Status(status)),
            Operation::WaitFor { .. } => Ok(OutputView::Status(status)),
            Operation::SetAddress { .. } => Ok(OutputView::Status(status)),
            Operation::GetCommands => match spec_list(held) {
                Ok(commands) => Ok(OutputView::Commands(commands)),
                Err(err) => Err(err),
            },
            _ => Ok(OutputView::Done),
        }
    }
}

impl TaskView {
    /// A task that has not begun.
    pub open spec fn initial(op: Operation, interface: u16, timeout: u32) -> TaskView {
        TaskView {
            op,
            interface,
            timeout,
            pc: 0,
            phase: Phase::Idle,
            attempts: 0,
            samples: 0,
            held: Seq::empty(),
            status: Status { status: 0, poll_timeout: 0, state: 0, string_index: 0 },
        }
    }

    /// Whether the task is in a state that stepping from `initial` reaches.
    pub open spec fn wf(self) -> bool {
        &&& self.op.wf()
        &&& 0 <= self.pc < self.op.len()
        &&& self.pc <= u32::MAX
        &&& self.held.len() <= self.op.held_limit(self.pc)
        &&& phase_fits(self.phase, self.op.step_at(self.pc))
    }

    /// The step that the task is at.
    pub open spec fn current(self) -> Step {
        self.op.step_at(self.pc)
    }

    /// A request to the device, with the task's interface and timeout.
    pub open spec fn control_out(self, request: u8, value: u16, data: Option<Seq<u8>>, awaited: bool)
        -> ActionView {
        ActionView::ControlOut {
            request,
            value,
            index: self.interface,
            data,
            timeout: self.timeout,
            awaited,
        }
    }

    /// A request for bytes from the device, with the task's interface and
    /// timeout.
    pub open spec fn control_in(self, request: u8, value: u16, length: u16, awaited: bool)
        -> ActionView {
        ActionView::ControlIn {
            request,
            value,
            index: self.interface,
            length,
            timeout: self.timeout,
            awaited,
        }
    }

    /// Asks for the status block, with `attempts` retries in reserve.
    pub open spec fn poll(self, attempts: u8) -> (TaskView, ActionView) {
        (
            TaskView { phase: Phase::Polling, attempts, ..self },
            self.control_in(DFU_GET_STATUS, 0, 6, false),
        )
    }

    /// Rests after a failed status request.
    pub open spec fn rest(self, fault: Fault) -> (TaskView, ActionView) {
        (TaskView { phase: Phase::Rest(fault), ..self }, ActionView::Sleep { millis: fault.rest() })
    }

    /// Ends the operation.
    pub open spec fn finish(self, result: Result<OutputView, ErrorView>) -> (TaskView, ActionView) {
        (
            TaskView { phase: Phase::Finished, held: Seq::empty(), ..self },
            ActionView::Finish(result),
        )
    }

    /// Ends the operation with a failure.
    pub open spec fn fail(self, error: ErrorView) -> (TaskView, ActionView) {
        self.finish(Err(error))
    }

    /// Begins the current step: every step opens with one action.
    pub open spec fn begin(self) -> (TaskView, ActionView) {
        match self.current() {
            Step::GetStatus { retries } => (TaskView { samples: 0, ..self }).poll(retries),
            Step::WaitFor { retries, state } => (TaskView { samples: retries, ..self }).poll(
                SAMPLE_RETRIES,
            ),
            Step::Command(command) => (
                TaskView { phase: Phase::Transfer, ..self },
                self.control_out(DFU_DNLOAD, 0, Some(command.spec_bytes()), false),
            ),
            Step::DownloadEmpty { transaction } => (
                TaskView { phase: Phase::Transfer, ..self },
                self.control_out(DFU_DNLOAD, transaction, None, false),
            ),
            Step::DownloadHeld { transaction } => (
                TaskView { phase: Phase::Transfer, held: Seq::empty(), ..self },
                self.control_out(DFU_DNLOAD, transaction, Some(self.held), false),
            ),
            Step::Upload { transaction, length } => (
                TaskView { phase: Phase::Transfer, ..self },
                self.control_in(DFU_UPLOAD, transaction, length, true),
            ),
            Step::Abort => (
                TaskView { phase: Phase::Transfer, ..self },
                self.control_out(DFU_ABORT, 0, None, true),
            ),
            Step::ClearStatus => (
                TaskView { phase: Phase::Transfer, ..self },
                self.control_out(DFU_CLRSTATUS, 0, None, false),
            ),
            Step::Detach => (
                TaskView { phase: Phase::Transfer, ..self },
                self.control_out(DFU_DETACH, 0, None, false),
            ),
            Step::ReadFile { length } => (
                TaskView { phase: Phase::File, ..self },
                ActionView::ReadFile { length: length as usize },
            ),
            Step::WriteHeld => (
                TaskView { phase: Phase::File, held: Seq::empty(), ..self },
                ActionView::WriteFile { data: self.held },
            ),
            Step::CompareHeld { address } => (
                TaskView { phase: Phase::File, ..self },
                ActionView::ReadFile { length: self.held.len() as usize },
            ),
        }
    }

    /// The current step is done: the next one begins, or the operation
    /// ends with its outcome.
    pub open spec fn succeed(self) -> (TaskView, ActionView) {
        if self.pc + 1 < self.op.len() {
            (TaskView { pc: self.pc + 1, ..self }).begin()
        } else {
            self.finish(self.op.outcome(self.held, self.status))
        }
    }

    /// The device reported a status block. A plain status request is done
    /// with it. An abort is done if the device is idle. A wait is done if
    /// the device is in the awaited state and reports no error; otherwise
    /// it samples again after a pause, as long as samples are left.
    pub open spec fn sampled(self, status: Status) -> (TaskView, ActionView) {
        let seen = TaskView { status, ..self };
        match self.current() {
            Step::WaitFor { state, .. } => if status.state == state.spec_code() {
                if status.status != 0 {
                    seen.fail(ErrorView::InvalidStatus(status, 0))
                } else {
                    seen.succeed()
                }
            } else if self.samples > 0 {
                (
                    TaskView { phase: Phase::Backoff, samples: (self.samples - 1) as u8, ..seen },
                    ActionView::Sleep { millis: BACKOFF },
                )
            } else {
                seen.fail(ErrorView::InvalidState(status, state))
            },
            Step::Abort => if status.state == State::DfuIdle.spec_code() {
                seen.succeed()
            } else {
                seen.fail(ErrorView::InvalidState(status, State::DfuIdle))
            },
            _ => seen.succeed(),
        }
    }

    /// The step's own control transfer came back.
    pub open spec fn on_transfer(self, event: EventView) -> (TaskView, ActionView) {
        match self.current() {
            Step::Command(_) | Step::DownloadEmpty { .. } | Step::DownloadHeld { .. } => match event {
                EventView::Sent => self.succeed(),
                EventView::Failed(cause) => if cause.spec_is_stall() {
                    (
                        TaskView { phase: Phase::Settle, ..self },
                        ActionView::Sleep { millis: SETTLE },
                    )
                } else {
                    self.fail(ErrorView::USBNix("Dfuse download"@, cause))
                },
                _ => self.fail(misuse()),
            },
            Step::Upload { length, .. } => match event {
                EventView::Received(bytes) => if bytes.len() <= length {
                    (TaskView { held: bytes, ..self }).succeed()
                } else {
                    self.fail(ErrorView::InvalidControlResponse("Dfuse upload"@))
                },
                EventView::Failed(cause) => self.fail(ErrorView::USBNix("Dfuse upload"@, cause)),
                _ => self.fail(misuse()),
            },
            Step::Abort => match event {
                EventView::Sent => self.poll(0),
                EventView::Failed(cause) => self.fail(ErrorView::USBNix("Abort to idle"@, cause)),
                _ => self.fail(misuse()),
            },
            Step::ClearStatus => match event {
                EventView::Sent => self.succeed(),
                EventView::Failed(cause) => self.fail(
                    ErrorView::USBNix("Control transfer"@, cause),
                ),
                _ => self.fail(misuse()),
            },
            Step::Detach => match event {
                EventView::Sent => self.succeed(),
                EventView::Failed(cause) => self.fail(ErrorView::USBNix("Detach"@, cause)),
                _ => self.fail(misuse()),
            },
            _ => self.fail(misuse()),
        }
    }

    /// A status request came back. A stall is tried again after 3000 ms and
    /// a malformed reply after 100 ms; any other failure ends the
    /// operation.
    pub open spec fn on_status(self, event: EventView) -> (TaskView, ActionView) {
        match event {
            EventView::Received(bytes) => match Status::spec_get(bytes) {
                Ok(status) => self.sampled(status),
                Err(_) => self.rest(Fault::Malformed),
            },
            EventView::Failed(cause) => if cause.spec_is_stall() {
                self.rest(Fault::Stall(cause))
            } else {
                self.fail(ErrorView::USB("Control transfer: DFU_GET_STATUS"@, cause))
            },
            _ => self.fail(misuse()),
        }
    }

    /// The rest after a failed status request is over: the request is made
    /// again if a retry is left, and the failure is reported if not.
    pub open spec fn on_rested(self, fault: Fault, event: EventView) -> (TaskView, ActionView) {
        match event {
            EventView::Woke => if self.attempts > 0 {
                self.poll((self.attempts - 1) as u8)
            } else {
                self.fail(fault.error())
            },
            _ => self.fail(misuse()),
        }
    }

    /// A file access came back.
    pub open spec fn on_file(self, event: EventView) -> (TaskView, ActionView) {
        match event {
            EventView::FileFailed(cause) => self.fail(ErrorView::FileIO(cause)),
            EventView::FileRead(bytes) => match self.current() {
                Step::ReadFile { length } => (TaskView {
                    held: fitted(bytes, length as int),
                    ..self
                }).succeed(),
                Step::CompareHeld { address } => match mismatch(self.held, bytes) {
                    Some(offset) => self.fail(ErrorView::Verify((address + offset) as u32)),
                    None => (TaskView { held: Seq::empty(), ..self }).succeed(),
                },
                _ => self.fail(misuse()),
            },
            EventView::FileWritten => match self.current() {
                Step::WriteHeld => self.succeed(),
                _ => self.fail(misuse()),
            },
            _ => self.fail(misuse()),
        }
    }

    /// The next state and the action to take, given what happened to the
    /// action before. An event that does not answer that action ends the
    /// operation with an `Argument` failure.
    pub open spec fn step(self, event: EventView) -> (TaskView, ActionView) {
        match self.phase {
            Phase::Idle => match event {
                EventView::Start => self.begin(),
                _ => self.fail(misuse()),
            },
            Phase::Transfer => self.on_transfer(event),
            Phase::Settle => match event {
                EventView::Woke => self.succeed(),
                _ => self.fail(misuse()),
            },
            Phase::Polling => self.on_status(event),
            Phase::Rest(fault) => self.on_rested(fault, event),
            Phase::Backoff => match event {
                EventView::Woke => self.poll(SAMPLE_RETRIES),
                _ => self.fail(misuse()),
            },
            Phase::File => self.on_file(event),
            Phase::Finished => self.fail(misuse()),
        }
    }
}

/// The state of one operation that is under way.
///
/// The host creates a task through the driver, hands it `Event::Start`, and
/// from then on performs each action that `step` returns and hands back
/// what came of it, until the action is `Finish`.
#[derive(Debug)]
pub struct Task {
    op: Operation,
    interface: u16,
    timeout: u32,
    pc: u32,
    phase: Phase,
    attempts: u8,
    samples: u8,
    held: Vec<u8>,
    status: Status,
}

impl View for Task {
    type V = TaskView;

    closed spec fn view(&self) -> TaskView {
        TaskView {
            op: self.op,
            interface: self.interface,
            timeout: self.timeout,
            pc: self.pc as int,
            phase: self.phase,
            attempts: self.attempts,
            samples: self.samples,
            held: self.held@,
            status: self.status,
        }
    }
}

impl Fault {
    fn into_error(self) -> (err: Error)
        ensures
            err@ == self.error(),
    {
        match self {
            Fault::Stall(cause) => Error::USB("Control transfer: DFU_GET_STATUS".to_owned(), cause),
            Fault::Malformed => Error::InvalidControlResponse(
                "Status length was not 6".to_owned(),
            ),
        }
    }
}

fn misuse_error() -> (err: Error)
    ensures
        err@ == misuse(),
{
    Error::Argument("Unexpected event".to_owned())
}

/// The view of a result that an operation ends with.
pub open spec fn result_view(result: Result<Output, Error>) -> Result<OutputView, ErrorView> {
    match result {
        Ok(output) => Ok(output@),
        Err(err) => Err(err@),
    }
}

impl Task {
    #[verifier::type_invariant]
    spec fn inv(self) -> bool {
        self@.wf()
    }

    /// A task for `op` that has not begun; `interface` and `timeout` go
    /// into every request it makes.
    pub fn new(op: Operation, interface: u16, timeout: u32) -> (task: Task)
        requires
            op.wf(),
        ensures
            task@ == TaskView::initial(op, interface, timeout),
            task@.wf(),
    {
        proof {
            lemma_held_limit_bounds(op, 0);
            lemma_len_bounds(op);
        }
        Task {
            op,
            interface,
            timeout,
            pc: 0,
            phase: Phase::Idle,
            attempts: 0,
            samples: 0,
            held: Vec::new(),
            status: Status { status: 0, poll_timeout: 0, state: 0, string_index: 0 },
        }
    }

    /// Whether the operation is over.
    pub fn is_finished(&self) -> (finished: bool)
        ensures
            finished == (self@.phase == Phase::Finished),
    {
        match self.phase {
            Phase::Finished => true,
            _ => false,
        }
    }

    /// The operation that the task carries out.
    pub fn operation(&self) -> (op: Operation)
        ensures
            op == self@.op,
    {
        self.op
    }

    /// The index of the step that the task is at.
    pub fn position(&self) -> (pc: u32)
        ensures
            pc == self@.pc,
    {
        self.pc
    }

    fn poll(self, attempts: u8) -> (next: (Task, Action))
        requires
            phase_fits(Phase::Polling, self@.current()),
        ensures
            next.0@ == self@.poll(attempts).0,
            next.1@ == self@.poll(attempts).1,
    {
        proof {
            use_type_invariant(&self);
        }
        let Task { op, interface, timeout, pc, phase: _, attempts: _, samples, held, status } = self;
        let action = Action::ControlIn {
            request: DFU_GET_STATUS,
            value: 0,
            index: interface,
            length: 6,
            timeout,
            awaited: false,
        };
        (
            Task { op, interface, timeout, pc, phase: Phase::Polling, attempts, samples, held, status },
            action,
        )
    }

    fn rest(self, fault: Fault) -> (next: (Task, Action))
        requires
            phase_fits(Phase::Polling, self@.current()),
        ensures
            next.0@ == self@.rest(fault).0,
            next.1@ == self@.rest(fault).1,
    {
        proof {
            use_type_invariant(&self);
        }
        let Task { op, interface, timeout, pc, phase: _, attempts, samples, held, status } = self;
        let millis: u32 = match fault {
            Fault::Stall(_) => STALL_REST,
            Fault::Malformed => MALFORMED_REST,
        };
        (
            Task {
                op,
                interface,
                timeout,
                pc,
                phase: Phase::Rest(fault),
                attempts,
                samples,
                held,
                status,
            },
            Action::Sleep { millis },
        )
    }

    fn pause(self, phase: Phase, samples: u8, millis: u32) -> (next: (Task, Action))
        requires
            phase_fits(phase, self@.current()),
        ensures
            next.0@ == (TaskView { phase, samples, ..self@ }),
            next.1@ == (ActionView::Sleep { millis }),
    {
        proof {
            use_type_invariant(&self);
        }
        let Task { op, interface, timeout, pc, phase: _, attempts, samples: _, held, status } = self;
        (
            Task { op, interface, timeout, pc, phase, attempts, samples, held, status },
            Action::Sleep { millis },
        )
    }

    fn finish(self, result: Result<Output, Error>) -> (next: (Task, Action))
        ensures
            next.0@ == self@.finish(result_view(result)).0,
            next.1@ == self@.finish(result_view(result)).1,
    {
        proof {
            use_type_invariant(&self);
            lemma_held_limit_bounds(self@.op, self@.pc);
        }
        let Task { op, interface, timeout, pc, phase: _, attempts, samples, held: _, status } = self;
        (
            Task {
                op,
                interface,
                timeout,
                pc,
                phase: Phase::Finished,
                attempts,
                samples,
                held: Vec::new(),
                status,
            },
            Action::Finish(result),
        )
    }

    fn fail(self, error: Error) -> (next: (Task, Action))
        ensures
            next.0@ == self@.fail(error@).0,
            next.1@ == self@.fail(error@).1,
    {
        self.finish(Err(error))
    }

    fn with_held(self, held: Vec<u8>) -> (task: Task)
        requires
            held@.len() <= self@.op.held_limit(self@.pc),
        ensures
            task@ == (TaskView { held: held@, ..self@ }),
    {
        proof {
            use_type_invariant(&self);
        }
        let Task { op, interface, timeout, pc, phase, attempts, samples, held: _, status } = self;
        Task { op, interface, timeout, pc, phase, attempts, samples, held, status }
    }

    fn with_status(self, status: Status) -> (task: Task)
        ensures
            task@ == (TaskView { status, ..self@ }),
    {
        proof {
            use_type_invariant(&self);
        }
        let Task { op, interface, timeout, pc, phase, attempts, samples, held, status: _ } = self;
        Task { op, interface, timeout, pc, phase, attempts, samples, held, status }
    }

    fn begin(self) -> (next: (Task, Action))
        ensures
            next.0@ == self@.begin().0,
            next.1@ == self@.begin().1,
    {
        proof {
            use_type_invariant(&self);
            lemma_held_limit_bounds(self@.op, self@.pc);
        }
        let Task { op, interface, timeout, pc, phase: _, attempts, samples, held, status } = self;
        match op.step(pc) {
            Step::GetStatus { retries } => (
                Task {
                    op,
                    interface,
                    timeout,
                    pc,
                    phase: Phase::Polling,
                    attempts: retries,
                    samples: 0,
                    held,
                    status,
                },
                Action::ControlIn {
                    request: DFU_GET_STATUS,
                    value: 0,
                    index: interface,
                    length: 6,
                    timeout,
                    awaited: false,
                },
            ),
            Step::WaitFor { retries, state } => (
                Task {
                    op,
                    interface,
                    timeout,
                    pc,
                    phase: Phase::Polling,
                    attempts: SAMPLE_RETRIES,
                    samples: retries,
                    held,
                    status,
                },
                Action::ControlIn {
                    request: DFU_GET_STATUS,
                    value: 0,
                    index: interface,
                    length: 6,
                    timeout,
                    awaited: false,
                },
            ),
            Step::Command(command) => (
                Task { op, interface, timeout, pc, phase: Phase::Transfer, attempts, samples, held, status },
                Action::ControlOut {
                    request: DFU_DNLOAD,
                    value: 0,
                    index: interface,
                    data: Some(command.to_bytes()),
                    timeout,
                    awaited: false,
                },
            ),
            Step::DownloadEmpty { transaction } => (
                Task { op, interface, timeout, pc, phase: Phase::Transfer, attempts, samples, held, status },
                Action::ControlOut {
                    request: DFU_DNLOAD,
                    value: transaction,
                    index: interface,
                    data: None,
                    timeout,
                    awaited: false,
                },
            ),
            Step::DownloadHeld { transaction } => (
                Task {
                    op,
                    interface,
                    timeout,
                    pc,
                    phase: Phase::Transfer,
                    attempts,
                    samples,
                    held: Vec::new(),
                    status,
                },
                Action::ControlOut {
                    request: DFU_DNLOAD,
                    value: transaction,
                    index: interface,
                    data: Some(held),
                    timeout,
                    awaited: false,
                },
            ),
            Step::Upload { transaction, length } => (
                Task { op, interface, timeout, pc, phase: Phase::Transfer, attempts, samples, held, status },
                Action::ControlIn {
                    request: DFU_UPLOAD,
                    value: transaction,
                    index: interface,
                    length,
                    timeout,
                    awaited: true,
                },
            ),
            Step::Abort => (
                Task { op, interface, timeout, pc, phase: Phase::Transfer, attempts, samples, held, status },
                Action::ControlOut {
                    request: DFU_ABORT,
                    value: 0,
                    index: interface,
                    data: None,
                    timeout,
                    awaited: true,
                },
            ),
            Step::ClearStatus => (
                Task { op, interface, timeout, pc, phase: Phase::Transfer, attempts, samples, held, status },
                Action::ControlOut {
                    request: DFU_CLRSTATUS,
                    value: 0,
                    index: interface,
                    data: None,
                    timeout,
                    awaited: false,
                },
            ),
            Step::Detach => (
                Task { op, interface, timeout, pc, phase: Phase::Transfer, attempts, samples, held, status },
                Action::ControlOut {
                    request: DFU_DETACH,
                    value: 0,
                    index: interface,
                    data: None,
                    timeout,
                    awaited: false,
                },
            ),
            Step::ReadFile { length } => (
                Task { op, interface, timeout, pc, phase: Phase::File, attempts, samples, held, status },
                Action::ReadFile { length: length as usize },
            ),
            Step::WriteHeld => (
                Task {
                    op,
                    interface,
                    timeout,
                    pc,
                    phase: Phase::File,
                    attempts,
                    samples,
                    held: Vec::new(),
                    status,
                },
                Action::WriteFile { data: held },
            ),
            Step::CompareHeld { address } => {
                let length: usize = held.len();
                (
                    Task { op, interface, timeout, pc, phase: Phase::File, attempts, samples, held, status },
                    Action::ReadFile { length },
                )
            },
        }
    }

    fn outcome(op: Operation, held: &Vec<u8>, status: Status) -> (result: Result<Output, Error>)
        ensures
            result_view(result) == op.outcome(held@, status),
    {
        match op {
            Operation::GetStatus { .. } => Ok(Output::Status(status)),
            Operation::WaitFor { .. } => Ok(Output::Status(status)),
            Operation::SetAddress { .. } => Ok(Output::Status(status)),
            Operation::GetCommands => match list(held) {
                Ok(commands) => Ok(Output::Commands(commands)),
                Err(err) => Err(err),
            },
            _ => Ok(Output::Done),
        }
    }

    fn succeed(self) -> (next: (Task, Action))
        requires
            self@.pc + 1 < self@.op.len() ==> self@.held.len() <= self@.op.held_limit(
                self@.pc + 1,
            ),
        ensures
            next.0@ == self@.succeed().0,
            next.1@ == self@.succeed().1,
    {
        proof {
            use_type_invariant(&self);
        }
        if self.pc + 1 < self.op.length() {
            let Task { op, interface, timeout, pc, phase: _, attempts, samples, held, status } = self;
            let onward = Task {
                op,
                interface,
                timeout,
                pc: pc + 1,
                phase: Phase::Idle,
                attempts,
                samples,
                held,
                status,
            };
            onward.begin()
        } else {
            let result = Task::outcome(self.op, &self.held, self.status);
            self.finish(result)
        }
    }

    fn carry(self) -> (next: (Task, Action))
        requires
            !(self@.current() is Upload),
            !(self@.current() is ReadFile),
        ensures
            next.0@ == self@.succeed().0,
            next.1@ == self@.succeed().1,
    {
        proof {
            use_type_invariant(&self);
            lemma_held_limit_bounds(self@.op, self@.pc);
            if self@.pc + 1 < self@.op.len() {
                lemma_held_limit_carries(self@.op, self@.pc);
            }
        }
        self.succeed()
    }

    fn sampled(self, status: Status) -> (next: (Task, Action))
        requires
            phase_fits(Phase::Polling, self@.current()),
        ensures
            next.0@ == self@.sampled(status).0,
            next.1@ == self@.sampled(status).1,
    {
        proof {
            use_type_invariant(&self);
        }
        let step = self.op.step(self.pc);
        let samples: u8 = self.samples;
        let seen = self.with_status(status);
        match step {
            Step::WaitFor { state, .. } => if status.state == state.code() {
                if status.status != 0 {
                    seen.fail(Error::InvalidStatus(status, 0))
                } else {
                    seen.carry()
                }
            } else if samples > 0 {
                seen.pause(Phase::Backoff, samples - 1, BACKOFF)
            } else {
                seen.fail(Error::InvalidState(status, state))
            },
            Step::Abort => if status.state == State::DfuIdle.code() {
                seen.carry()
            } else {
                seen.fail(Error::InvalidState(status, State::DfuIdle))
            },
            _ => seen.carry(),
        }
    }

    fn on_transfer(self, event: Event) -> (next: (Task, Action))
        requires
            self@.phase == Phase::Transfer,
        ensures
            next.0@ == self@.on_transfer(event@).0,
            next.1@ == self@.on_transfer(event@).1,
    {
        proof {
            use_type_invariant(&self);
            lemma_held_limit_bounds(self@.op, self@.pc);
        }
        let samples: u8 = self.samples;
        match self.op.step(self.pc) {
            Step::Command(_) | Step::DownloadEmpty { .. } | Step::DownloadHeld { .. } => match event {
                Event::Sent => self.carry(),
                Event::Failed(cause) => if cause.is_stall() {
                    self.pause(Phase::Settle, samples, SETTLE)
                } else {
                    self.fail(Error::USBNix("Dfuse download".to_owned(), cause))
                },
                _ => self.fail(misuse_error()),
            },
            Step::Upload { length, .. } => match event {
                Event::Received(bytes) => if bytes.len() <= length as usize {
                    proof {
                        if self@.current().block_transaction() is Some {
                            lemma_block_sizes(self@.op, self@.pc);
                        }
                    }
                    self.with_held(bytes).succeed()
                } else {
                    self.fail(Error::InvalidControlResponse("Dfuse upload".to_owned()))
                },
                Event::Failed(cause) => self.fail(Error::USBNix("Dfuse upload".to_owned(), cause)),
                _ => self.fail(misuse_error()),
            },
            Step::Abort => match event {
                Event::Sent => self.poll(0),
                Event::Failed(cause) => self.fail(
                    Error::USBNix("Abort to idle".to_owned(), cause),
                ),
                _ => self.fail(misuse_error()),
            },
            Step::ClearStatus => match event {
                Event::Sent => self.carry(),
                Event::Failed(cause) => self.fail(
                    Error::USBNix("Control transfer".to_owned(), cause),
                ),
                _ => self.fail(misuse_error()),
            },
            Step::Detach => match event {
                Event::Sent => self.carry(),
                Event::Failed(cause) => self.fail(Error::USBNix("Detach".to_owned(), cause)),
                _ => self.fail(misuse_error()),
            },
            _ => self.fail(misuse_error()),
        }
    }

    fn on_status(self, event: Event) -> (next: (Task, Action))
        requires
            self@.phase == Phase::Polling,
        ensures
            next.0@ == self@.on_status(event@).0,
            next.1@ == self@.on_status(event@).1,
    {
        proof {
            use_type_invariant(&self);
        }
        match event {
            Event::Received(bytes) => match Status::get(bytes.as_slice()) {
                Ok(status) => self.sampled(status),
                Err(_) => self.rest(Fault::Malformed),
            },
            Event::Failed(cause) => if cause.is_stall() {
                self.rest(Fault::Stall(cause))
            } else {
                self.fail(Error::USB("Control transfer: DFU_GET_STATUS".to_owned(), cause))
            },
            _ => self.fail(misuse_error()),
        }
    }

    fn on_rested(self, fault: Fault, event: Event) -> (next: (Task, Action))
        requires
            self@.phase == Phase::Rest(fault),
        ensures
            next.0@ == self@.on_rested(fault, event@).0,
            next.1@ == self@.on_rested(fault, event@).1,
    {
        proof {
            use_type_invariant(&self);
        }
        match event {
            Event::Woke => if self.attempts > 0 {
                let left: u8 = self.attempts - 1;
                self.poll(left)
            } else {
                self.fail(fault.into_error())
            },
            _ => self.fail(misuse_error()),
        }
    }

    fn on_file(self, event: Event) -> (next: (Task, Action))
        requires
            self@.phase == Phase::File,
        ensures
            next.0@ == self@.on_file(event@).0,
            next.1@ == self@.on_file(event@).1,
    {
        proof {
            use_type_invariant(&self);
            lemma_held_limit_bounds(self@.op, self@.pc);
        }
        match event {
            Event::FileFailed(cause) => self.fail(Error::FileIO(cause)),
            Event::FileRead(bytes) => match self.op.step(self.pc) {
                Step::ReadFile { length } => {
                    proof {
                        lemma_block_sizes(self@.op, self@.pc);
                    }
                    let block: Vec<u8> = fit(bytes, length as usize);
                    self.with_held(block).succeed()
                },
                Step::CompareHeld { address } => match first_mismatch(&self.held, &bytes) {
                    Some(offset) => self.fail(Error::Verify(address + offset as u32)),
                    None => self.with_held(Vec::new()).succeed(),
                },
                _ => self.fail(misuse_error()),
            },
            Event::FileWritten => match self.op.step(self.pc) {
                Step::WriteHeld => self.carry(),
                _ => self.fail(misuse_error()),
            },
            _ => self.fail(misuse_error()),
        }
    }

    /// Takes what happened to the last action and returns the task in its
    /// next state together with the next action: the transition that
    /// `TaskView::step` defines. Once the action is `Finish` the task is
    /// over; stepping it again only reports misuse.
    pub fn step(self, event: Event) -> (next: (Task, Action))
        ensures
            next.0@ == self@.step(event@).0,
            next.1@ == self@.step(event@).1,
            next.0@.wf(),
            self@.wf(),
    {
        proof {
            use_type_invariant(&self);
        }
        let next = match self.phase {
            Phase::Idle => match event {
                Event::Start => self.begin(),
                _ => self.fail(misuse_error()),
            },
            Phase::Transfer => self.on_transfer(event),
            Phase::Settle => match event {
                Event::Woke => self.carry(),
                _ => self.fail(misuse_error()),
            },
            Phase::Polling => self.on_status(event),
            Phase::Rest(fault) => self.on_rested(fault, event),
            Phase::Backoff => match event {
                Event::Woke => self.poll(SAMPLE_RETRIES),
                _ => self.fail(misuse_error()),
            },
            Phase::File => self.on_file(event),
            Phase::Finished => self.fail(misuse_error()),
        };
        proof {
            use_type_invariant(&next.0);
        }
        next
    }
}

} // verus!

//! What holds of every task, whatever the device and the host do.

use crate::engine::{misuse, Phase, TaskView, STALL_REST};
use crate::error::{ErrorView, OsError};
use crate::script::{lemma_block_sizes, lemma_block_transactions, lemma_held_limit_bounds};
use crate::script::{lemma_blocks_until, lemma_held_limit_carries, lemma_len_bounds};
use crate::script::{Operation, Step};
use crate::state::State;
use crate::status::{Status, STATUS_LENGTH};
use crate::transport::{ActionView, EventView, OutputView};
use crate::transport::{DFU_ABORT, DFU_GET_STATUS};
use vstd::prelude::*;

verus! {

proof fn lemma_begin(task: TaskView)
    requires
        task.op.wf(),
        0 <= task.pc < task.op.len(),
        task.held.len() <= task.op.held_limit(task.pc),
    ensures
        task.begin().0.wf(),
        task.begin().0.pc == task.pc,
        task.begin().0.op == task.op,
        task.begin().0.phase != Phase::Finished,
        task.begin().0.phase != Phase::Idle,
        !(task.begin().1 is Finish),
{
    lemma_len_bounds(task.op);
    lemma_held_limit_bounds(task.op, task.pc);
}

/// Whether `after` is `before` one step later: the same operation, at the
/// same step or at the next.
pub open spec fn follows(before: TaskView, after: TaskView) -> bool {
    &&& after.op == before.op
    &&& after.interface == before.interface
    &&& after.timeout == before.timeout
    &&& after.pc == before.pc || after.pc == before.pc + 1
}

/// The action that opens the step at `pc` of a task's operation when
/// `held` is the block in hand.
pub open spec fn opening(task: TaskView, pc: int, held: Seq<u8>) -> ActionView {
    (TaskView { pc, held, ..task }).begin().1
}

/// Whether an action is a request to the device other than the status
/// request.
pub open spec fn is_step_request(action: ActionView) -> bool {
    action is ControlOut || (action matches ActionView::ControlIn { request, .. } && request
        != DFU_GET_STATUS)
}

/// What every transition keeps: the task stays well formed and keeps its
/// operation; it stays at its step or moves to the next, never back; it is
/// over exactly when the action is `Finish`; and a request other than the
/// status request is the opening action of the step it is at afterwards.
pub open spec fn sound(task: TaskView, next: (TaskView, ActionView)) -> bool {
    &&& next.0.wf()
    &&& follows(task, next.0)
    &&& next.0.phase == Phase::Finished <==> next.1 is Finish
    &&& next.0.phase != Phase::Idle
    &&& is_step_request(next.1) ==> next.0.phase == Phase::Transfer && enters(task, next.0)
    &&& enters(task, next.0) ==> exists|held: Seq<u8>|
        {
            &&& held.len() <= task.op.held_limit(next.0.pc)
            &&& next.1 == #[trigger] opening(task, next.0.pc, held)
        }
}

/// Whether a transition enters a step: it moves on to the next, or it
/// starts the first.
pub open spec fn enters(before: TaskView, after: TaskView) -> bool {
    ||| after.pc == before.pc + 1
    ||| before.phase == Phase::Idle && after.phase != Phase::Finished
}

proof fn lemma_begin_sound(task: TaskView, origin: TaskView)
    requires
        origin.wf(),
        task.op == origin.op,
        task.interface == origin.interface,
        task.timeout == origin.timeout,
        (task.pc == origin.pc && origin.phase == Phase::Idle) || task.pc == origin.pc + 1,
        0 <= task.pc < task.op.len(),
        task.held.len() <= task.op.held_limit(task.pc),
    ensures
        sound(origin, task.begin()),
{
    lemma_begin(task);
    let next = task.begin();
    assert(next.1 == opening(origin, next.0.pc, task.held));
}

proof fn lemma_finish_sound(task: TaskView, result: Result<OutputView, ErrorView>)
    requires
        task.wf(),
    ensures
        sound(task, task.finish(result)),
{
    lemma_held_limit_bounds(task.op, task.pc);
}

proof fn lemma_succeed_sound(task: TaskView, origin: TaskView)
    requires
        origin.wf(),
        task.op == origin.op,
        task.interface == origin.interface,
        task.timeout == origin.timeout,
        task.pc == origin.pc,
        task.phase == origin.phase,
        task.pc + 1 < task.op.len() ==> task.held.len() <= task.op.held_limit(task.pc + 1),
    ensures
        sound(origin, task.succeed()),
{
    lemma_held_limit_bounds(task.op, task.pc);
    lemma_len_bounds(task.op);
    if task.pc + 1 < task.op.len() {
        lemma_begin_sound(TaskView { pc: task.pc + 1, ..task }, origin);
    }
}

proof fn lemma_carry_sound(task: TaskView, origin: TaskView)
    requires
        origin.wf(),
        task.op == origin.op,
        task.interface == origin.interface,
        task.timeout == origin.timeout,
        task.pc == origin.pc,
        task.phase == origin.phase,
        task.held == origin.held,
        !(task.current() is Upload),
        !(task.current() is ReadFile),
    ensures
        sound(origin, task.succeed()),
{
    lemma_held_limit_bounds(task.op, task.pc);
    if task.pc + 1 < task.op.len() {
        lemma_held_limit_carries(task.op, task.pc);
    }
    lemma_succeed_sound(task, origin);
}

proof fn lemma_on_transfer(task: TaskView, event: EventView)
    requires
        task.wf(),
        task.phase == Phase::Transfer,
    ensures
        sound(task, task.on_transfer(event)),
{
    lemma_held_limit_bounds(task.op, task.pc);
    match task.current() {
        Step::Upload { length, .. } => {
            match event {
                EventView::Received(bytes) => {
                    if bytes.len() <= length {
                        if task.current().block_transaction() is Some {
                            lemma_block_sizes(task.op, task.pc);
                        }
                        lemma_succeed_sound(TaskView { held: bytes, ..task }, task);
                    } else {
                        lemma_finish_sound(
                            task,
                            Err(ErrorView::InvalidControlResponse("Dfuse upload"@)),
                        );
                    }
                },
                EventView::Failed(cause) => {
                    lemma_finish_sound(task, Err(ErrorView::USBNix("Dfuse upload"@, cause)));
                },
                _ => {
                    lemma_finish_sound(task, Err(misuse()));
                },
            }
        },
        Step::Abort => {
            match event {
                EventView::Sent => {},
                EventView::Failed(cause) => {
                    lemma_finish_sound(task, Err(ErrorView::USBNix("Abort to idle"@, cause)));
                },
                _ => {
                    lemma_finish_sound(task, Err(misuse()));
                },
            }
        },
        Step::ClearStatus => {
            match event {
                EventView::Sent => {
                    lemma_carry_sound(task, task);
                },
                EventView::Failed(cause) => {
                    lemma_finish_sound(task, Err(ErrorView::USBNix("Control transfer"@, cause)));
                },
                _ => {
                    lemma_finish_sound(task, Err(misuse()));
                },
            }
        },
        Step::Detach => {
            match event {
                EventView::Sent => {
                    lemma_carry_sound(task, task);
                },
                EventView::Failed(cause) => {
                    lemma_finish_sound(task, Err(ErrorView::USBNix("Detach"@, cause)));
                },
                _ => {
                    lemma_finish_sound(task, Err(misuse()));
                },
            }
        },
        _ => {
            match event {
                EventView::Sent => {
                    lemma_carry_sound(task, task);
                },
                EventView::Failed(cause) => {
                    if !cause.spec_is_stall() {
                        lemma_finish_sound(task, Err(ErrorView::USBNix("Dfuse download"@, cause)));
                    }
                },
                _ => {
                    lemma_finish_sound(task, Err(misuse()));
                },
            }
        },
    }
}

proof fn lemma_sampled(task: TaskView, status: Status)
    requires
        task.wf(),
        task.phase == Phase::Polling,
    ensures
        sound(task, task.sampled(status)),
{
    let seen = TaskView { status, ..task };
    match task.current() {
        Step::WaitFor { state, .. } => {
            if status.state == state.spec_code() {
                if status.status != 0 {
                    lemma_finish_sound(seen, Err(ErrorView::InvalidStatus(status, 0)));
                } else {
                    lemma_carry_sound(seen, task);
                }
            } else if task.samples == 0 {
                lemma_finish_sound(seen, Err(ErrorView::InvalidState(status, state)));
            }
        },
        Step::Abort => {
            if status.state == State::DfuIdle.spec_code() {
                lemma_carry_sound(seen, task);
            } else {
                lemma_finish_sound(seen, Err(ErrorView::InvalidState(status, State::DfuIdle)));
            }
        },
        _ => {
            lemma_carry_sound(seen, task);
        },
    }
}

proof fn lemma_on_status(task: TaskView, event: EventView)
    requires
        task.wf(),
        task.phase == Phase::Polling,
    ensures
        sound(task, task.on_status(event)),
{
    match event {
        EventView::Received(bytes) => {
            if let Ok(status) = Status::spec_get(bytes) {
                lemma_sampled(task, status);
            }
        },
        EventView::Failed(cause) => {
            if !cause.spec_is_stall() {
                lemma_finish_sound(
                    task,
                    Err(ErrorView::USB("Control transfer: DFU_GET_STATUS"@, cause)),
                );
            }
        },
        _ => {
            lemma_finish_sound(task, Err(misuse()));
        },
    }
}

proof fn lemma_on_file(task: TaskView, event: EventView)
    requires
        task.wf(),
        task.phase == Phase::File,
    ensures
        sound(task, task.on_file(event)),
{
    lemma_held_limit_bounds(task.op, task.pc);
    match event {
        EventView::FileFailed(cause) => {
            lemma_finish_sound(task, Err(ErrorView::FileIO(cause)));
        },
        EventView::FileRead(bytes) => {
            match task.current() {
                Step::ReadFile { length } => {
                    lemma_block_sizes(task.op, task.pc);
                    lemma_succeed_sound(
                        TaskView { held: crate::block::fitted(bytes, length as int), ..task },
                        task,
                    );
                },
                Step::CompareHeld { address } => {
                    match crate::block::mismatch(task.held, bytes) {
                        Some(offset) => {
                            lemma_finish_sound(
                                task,
                                Err(ErrorView::Verify((address + offset) as u32)),
                            );
                        },
                        None => {
                            lemma_succeed_sound(TaskView { held: Seq::empty(), ..task }, task);
                        },
                    }
                },
                _ => {
                    lemma_finish_sound(task, Err(misuse()));
                },
            }
        },
        EventView::FileWritten => {
            match task.current() {
                Step::WriteHeld => {
                    lemma_carry_sound(task, task);
                },
                _ => {
                    lemma_finish_sound(task, Err(misuse()));
                },
            }
        },
        _ => {
            lemma_finish_sound(task, Err(misuse()));
        },
    }
}

/// Every transition is sound, whatever the state and whatever the event.
pub proof fn lemma_step(task: TaskView, event: EventView)
    requires
        task.wf(),
    ensures
        sound(task, task.step(event)),
{
    match task.phase {
        Phase::Idle => {
            match event {
                EventView::Start => {
                    lemma_begin_sound(task, task);
                },
                _ => {
                    lemma_finish_sound(task, Err(misuse()));
                },
            }
        },
        Phase::Transfer => {
            lemma_on_transfer(task, event);
        },
        Phase::Settle => {
            match event {
                EventView::Woke => {
                    lemma_carry_sound(task, task);
                },
                _ => {
                    lemma_finish_sound(task, Err(misuse()));
                },
            }
        },
        Phase::Polling => {
            lemma_on_status(task, event);
        },
        Phase::Rest(fault) => {
            match event {
                EventView::Woke => {
                    if task.attempts == 0 {
                        lemma_finish_sound(task, Err(fault.error()));
                    }
                },
                _ => {
                    lemma_finish_sound(task, Err(misuse()));
                },
            }
        },
        Phase::Backoff => {
            match event {
                EventView::Woke => {},
                _ => {
                    lemma_finish_sound(task, Err(misuse()));
                },
            }
        },
        Phase::File => {
            lemma_on_file(task, event);
        },
        Phase::Finished => {
            lemma_finish_sound(task, Err(misuse()));
        },
    }
}

/// A fresh task is well formed, and its first step, on `Start`, opens the
/// first step of the script.
pub proof fn lemma_start(op: Operation, interface: u16, timeout: u32)
    requires
        op.wf(),
    ensures
        TaskView::initial(op, interface, timeout).wf(),
        TaskView::initial(op, interface, timeout).step(EventView::Start) == TaskView::initial(
            op,
            interface,
            timeout,
        ).begin(),
        !(TaskView::initial(op, interface, timeout).step(EventView::Start).1 is Finish),
{
    lemma_len_bounds(op);
    lemma_held_limit_bounds(op, 0);
    lemma_begin(TaskView::initial(op, interface, timeout));
}

/// No request moves more than the transfer size: an action that carries a
/// transaction number of 2 or more, as a download or as an upload, carries
/// or asks for at most as many bytes as one block of the operation holds.
pub proof fn lemma_block_transfer_within_size(task: TaskView, event: EventView)
    requires
        task.wf(),
    ensures
        task.step(event).1.is_block_transfer() ==> 0 <= task.step(event).1.payload()
            <= task.op.block_limit(),
{
    lemma_step(task, event);
    let after = task.step(event).0;
    let action = task.step(event).1;
    if action.is_block_transfer() {
        let held = choose|held: Seq<u8>|
            held.len() <= task.op.held_limit(after.pc) && action == #[trigger] opening(
                task,
                after.pc,
                held,
            );
        lemma_held_limit_bounds(task.op, after.pc);
        if after.op.step_at(after.pc) is Upload {
            lemma_block_sizes(task.op, after.pc);
        }
    }
}

/// The transaction numbers of the blocks follow the script: an action that
/// moves a block of an upload, a verification or a download is the opening
/// of the step the task has just entered, that step is where the script
/// moves block number `k`, and the action carries transaction `2 + k`.
/// Since a task never steps back and the script's block positions grow
/// with `k`, the numbers sent are 2, 3, 4 and so on, each once.
pub proof fn lemma_block_transfer_numbering(task: TaskView, event: EventView)
    requires
        task.wf(),
        task.op.blocks() > 0 || task.op is Upload || task.op is Verify || task.op is DownloadRaw,
    ensures
        ({
            let after = task.step(event).0;
            let action = task.step(event).1;
            let block = task.op.block_index(after.pc);
            let sent = match action {
                ActionView::ControlOut { value, .. } => value,
                ActionView::ControlIn { value, .. } => value,
                _ => 0u16,
            };
            action.is_block_transfer() ==> {
                &&& 0 <= block < task.op.blocks()
                &&& after.pc == task.op.block_position(block)
                &&& sent == 2 + block
                &&& after.phase == Phase::Transfer
            }
        }),
{
    lemma_step(task, event);
    let after = task.step(event).0;
    let action = task.step(event).1;
    if action.is_block_transfer() {
        let held = choose|held: Seq<u8>|
            held.len() <= task.op.held_limit(after.pc) && action == #[trigger] opening(
                task,
                after.pc,
                held,
            );
        lemma_block_transactions(task.op);
        let step = task.op.step_at(after.pc);
        assert(step.block_transaction() is Some);
    }
}

/// Aborting to idle when the device is idle already succeeds, and sends
/// nothing but ABORT and one status request: whatever the interface and
/// the timeout, and whatever else the status block of the idle device says.
pub proof fn lemma_abort_to_idle_when_idle(interface: u16, timeout: u32, reply: Seq<u8>)
    requires
        reply.len() == STATUS_LENGTH,
        reply[4] == State::DfuIdle.spec_code(),
    ensures
        ({
            let fresh = TaskView::initial(Operation::AbortToIdle, interface, timeout);
            let sent = fresh.step(EventView::Start);
            let asked = sent.0.step(EventView::Sent);
            let done = asked.0.step(EventView::Received(reply));
            &&& sent.1 == ActionView::ControlOut {
                request: DFU_ABORT,
                value: 0,
                index: interface,
                data: None,
                timeout,
                awaited: true,
            }
            &&& asked.1 == ActionView::ControlIn {
                request: DFU_GET_STATUS,
                value: 0,
                index: interface,
                length: 6,
                timeout,
                awaited: false,
            }
            &&& done.1 == ActionView::Finish(Ok(OutputView::Done))
            &&& done.0.phase == Phase::Finished
            &&& done.0.status.spec_state() == State::DfuIdle
        }),
{
}

/// Aborting to idle fails with `InvalidState` exactly when the device
/// reports another state than idle after the ABORT.
pub proof fn lemma_abort_to_idle_when_not_idle(interface: u16, timeout: u32, reply: Seq<u8>)
    requires
        reply.len() == STATUS_LENGTH,
        reply[4] != State::DfuIdle.spec_code(),
    ensures
        ({
            let fresh = TaskView::initial(Operation::AbortToIdle, interface, timeout);
            let asked = fresh.step(EventView::Start).0.step(EventView::Sent);
            let done = asked.0.step(EventView::Received(reply));
            done.1 == ActionView::Finish(
                Err(ErrorView::InvalidState(Status::decoded(reply), State::DfuIdle)),
            )
        }),
{
}

/// A status request that the device stalls is made again after 3000 ms as
/// long as a retry is left, and the reply to the retry is the result; with
/// no retry left the stall is the failure, after the same rest.
pub proof fn lemma_get_status_after_stall(
    interface: u16,
    timeout: u32,
    retries: u8,
    cause: OsError,
    reply: Seq<u8>,
)
    requires
        cause.spec_is_stall(),
        reply.len() == STATUS_LENGTH,
    ensures
        ({
            let fresh = TaskView::initial(Operation::GetStatus { retries }, interface, timeout);
            let request = ActionView::ControlIn {
                request: DFU_GET_STATUS,
                value: 0,
                index: interface,
                length: 6,
                timeout,
                awaited: false,
            };
            let asked = fresh.step(EventView::Start);
            let rested = asked.0.step(EventView::Failed(cause));
            let again = rested.0.step(EventView::Woke);
            let done = again.0.step(EventView::Received(reply));
            &&& asked.1 == request
            &&& rested.1 == ActionView::Sleep { millis: STALL_REST }
            &&& retries > 0 ==> again.1 == request && done.1 == ActionView::Finish(
                Ok(OutputView::Status(Status::decoded(reply))),
            )
            &&& retries == 0 ==> again.1 == ActionView::Finish(
                Err(ErrorView::USB("Control transfer: DFU_GET_STATUS"@, cause)),
            )
        }),
{
}

/// Once a task is over it stays over: every further step reports misuse
/// and changes nothing.
pub proof fn lemma_finished_stays(task: TaskView, event: EventView)
    requires
        task.wf(),
        task.phase == Phase::Finished,
    ensures
        task.step(event).1 == ActionView::Finish(Err(misuse())),
        task.step(event).0.phase == Phase::Finished,
        task.step(event).0.pc == task.pc,
{
}

/// The state of a task after it has taken `events`, one after the other.
pub open spec fn run(task: TaskView, events: Seq<EventView>) -> TaskView
    decreases events.len(),
{
    if events.len() == 0 {
        task
    } else {
        run(task, events.drop_last()).step(events.last()).0
    }
}

/// The actions that a task hands out while it takes `events`, in order.
pub open spec fn emitted(task: TaskView, events: Seq<EventView>) -> Seq<ActionView>
    decreases events.len(),
{
    if events.len() == 0 {
        Seq::empty()
    } else {
        emitted(task, events.drop_last()).push(
            run(task, events.drop_last()).step(events.last()).1,
        )
    }
}

/// The transaction number of a control transfer.
pub open spec fn transaction_of(action: ActionView) -> int {
    match action {
        ActionView::ControlOut { value, .. } => value as int,
        ActionView::ControlIn { value, .. } => value as int,
        _ => 0,
    }
}

/// The transaction numbers of the block transfers among some actions, in
/// order.
pub open spec fn block_numbers(actions: Seq<ActionView>) -> Seq<int>
    decreases actions.len(),
{
    if actions.len() == 0 {
        Seq::empty()
    } else if actions.last().is_block_transfer() {
        block_numbers(actions.drop_last()).push(transaction_of(actions.last()))
    } else {
        block_numbers(actions.drop_last())
    }
}

proof fn lemma_run(op: Operation, interface: u16, timeout: u32, events: Seq<EventView>)
    requires
        op.wf(),
        op is Upload || op is Verify || op is DownloadRaw,
    ensures
        ({
            let fresh = TaskView::initial(op, interface, timeout);
            let now = run(fresh, events);
            let numbers = block_numbers(emitted(fresh, events));
            &&& now.wf()
            &&& now.op == op
            &&& now.phase == Phase::Idle ==> now.pc == 0
            &&& numbers.len() == op.blocks_until(now.pc)
            &&& forall|i: int| 0 <= i < numbers.len() ==> numbers[i] == 2 + i
        }),
    decreases events.len(),
{
    let fresh = TaskView::initial(op, interface, timeout);
    lemma_start(op, interface, timeout);
    if events.len() == 0 {
        lemma_blocks_until(op, 0);
    } else {
        let before = run(fresh, events.drop_last());
        lemma_run(op, interface, timeout, events.drop_last());
        let next = before.step(events.last());
        lemma_step(before, events.last());
        let actions = emitted(fresh, events);
        assert(actions.drop_last() =~= emitted(fresh, events.drop_last()));
        assert(actions.last() == next.1);
        lemma_blocks_until(op, next.0.pc);
        lemma_blocks_until(op, before.pc);
        if enters(before, next.0) {
            let held = choose|held: Seq<u8>|
                held.len() <= op.held_limit(next.0.pc) && next.1 == #[trigger] opening(
                    before,
                    next.0.pc,
                    held,
                );
            lemma_held_limit_bounds(op, next.0.pc);
            assert(next.1.is_block_transfer() == (op.step_at(next.0.pc).block_transaction()
                is Some));
            if next.1.is_block_transfer() {
                lemma_block_transfer_numbering(before, events.last());
            }
        }
    }
}

/// Whatever events a task of an upload, a verification or a download is
/// given, the block transfers it asks for are numbered 2, 3, 4 and so on in
/// the order in which it asks for them: strictly growing, starting at 2,
/// without a gap, and never more of them than the operation has blocks.
pub proof fn lemma_transactions_count_up(
    op: Operation,
    interface: u16,
    timeout: u32,
    events: Seq<EventView>,
)
    requires
        op.wf(),
        op is Upload || op is Verify || op is DownloadRaw,
    ensures
        ({
            let numbers = block_numbers(emitted(TaskView::initial(op, interface, timeout), events));
            &&& numbers.len() <= op.blocks()
            &&& forall|i: int| 0 <= i < numbers.len() ==> numbers[i] == 2 + i
        }),
{
    lemma_run(op, interface, timeout, events);
    let now = run(TaskView::initial(op, interface, timeout), events);
    lemma_blocks_until(op, now.pc);
}

/// Whatever events a task is given, every block transfer it asks for moves
/// at most as many bytes as one block of its operation holds.
pub proof fn lemma_transfers_within_size(
    op: Operation,
    interface: u16,
    timeout: u32,
    events: Seq<EventView>,
    index: int,
)
    requires
        op.wf(),
        0 <= index < events.len(),
    ensures
        ({
            let action = emitted(TaskView::initial(op, interface, timeout), events)[index];
            action.is_block_transfer() ==> 0 <= action.payload() <= op.block_limit()
        }),
    decreases events.len(),
{
    let fresh = TaskView::initial(op, interface, timeout);
    lemma_emitted_len(fresh, events);
    if index == events.len() - 1 {
        lemma_run_wf(op, interface, timeout, events.drop_last());
        lemma_block_transfer_within_size(run(fresh, events.drop_last()), events.last());
    } else {
        lemma_emitted_len(fresh, events.drop_last());
        lemma_transfers_within_size(op, interface, timeout, events.drop_last(), index);
    }
}

proof fn lemma_emitted_len(task: TaskView, events: Seq<EventView>)
    ensures
        emitted(task, events).len() == events.len(),
    decreases events.len(),
{
    if events.len() > 0 {
        lemma_emitted_len(task, events.drop_last());
    }
}

/// Whatever events a task is given, it stays well formed and keeps its
/// operation.
pub proof fn lemma_run_wf(op: Operation, interface: u16, timeout: u32, events: Seq<EventView>)
    requires
        op.wf(),
    ensures
        run(TaskView::initial(op, interface, timeout), events).wf(),
        run(TaskView::initial(op, interface, timeout), events).op == op,
    decreases events.len(),
{
    lemma_start(op, interface, timeout);
    if events.len() > 0 {
        lemma_run_wf(op, interface, timeout, events.drop_last());
        lemma_step(run(TaskView::initial(op, interface, timeout), events.drop_last()), events.last());
    }
}

/// Whether an action asks the device for its status block.
pub open spec fn is_status_request(action: ActionView) -> bool {
    action matches ActionView::ControlIn { request, .. } && request == DFU_GET_STATUS
}

/// The number of status requests among some actions.
pub open spec fn status_requests(actions: Seq<ActionView>) -> int
    decreases actions.len(),
{
    if actions.len() == 0 {
        0
    } else if is_status_request(actions.last()) {
        status_requests(actions.drop_last()) + 1
    } else {
        status_requests(actions.drop_last())
    }
}

proof fn lemma_get_status_run(retries: u8, interface: u16, timeout: u32, events: Seq<EventView>)
    ensures
        ({
            let fresh = TaskView::initial(Operation::GetStatus { retries }, interface, timeout);
            let now = run(fresh, events);
            let asked = status_requests(emitted(fresh, events));
            &&& now.wf()
            &&& now.op == Operation::GetStatus { retries }
            &&& match now.phase {
                Phase::Idle => asked == 0,
                Phase::Polling => 1 <= asked && asked + now.attempts == retries + 1,
                Phase::Rest(_) => 1 <= asked && asked + now.attempts == retries + 1,
                Phase::Finished => asked <= retries + 1,
                _ => false,
            }
        }),
    decreases events.len(),
{
    let op = Operation::GetStatus { retries };
    let fresh = TaskView::initial(op, interface, timeout);
    lemma_start(op, interface, timeout);
    if events.len() > 0 {
        let before = run(fresh, events.drop_last());
        lemma_get_status_run(retries, interface, timeout, events.drop_last());
        lemma_step(before, events.last());
        let actions = emitted(fresh, events);
        assert(actions.drop_last() =~= emitted(fresh, events.drop_last()));
        assert(actions.last() == before.step(events.last()).1);
    }
}

/// A status request with `retries` retries asks the device at most
/// `retries + 1` times, whatever the device answers: with 0 retries once,
/// with 10 retries eleven times.
pub proof fn lemma_get_status_attempts(
    retries: u8,
    interface: u16,
    timeout: u32,
    events: Seq<EventView>,
)
    ensures
        status_requests(
            emitted(
                TaskView::initial(Operation::GetStatus { retries }, interface, timeout),
                events,
            ),
        ) <= retries + 1,
{
    lemma_get_status_run(retries, interface, timeout, events);
}

} // verus!

use dfu::command::DfuseCommand;
use dfu::script::{chunk_count, Operation, Step};
use dfu::state::State;

fn steps(op: Operation) -> Vec<Step> {
    (0..op.length()).map(|index| op.step(index)).collect()
}

#[test]
fn scripts_of_the_short_operations() {
    assert_eq!(steps(Operation::GetStatus { retries: 4 }), vec![Step::GetStatus { retries: 4 }]);
    assert_eq!(steps(Operation::ClearStatus), vec![Step::ClearStatus]);
    assert_eq!(steps(Operation::Detach), vec![Step::Detach]);
    assert_eq!(steps(Operation::AbortToIdle), vec![Step::Abort]);
    assert_eq!(
        steps(Operation::WaitFor { retries: 9, state: State::DfuError }),
        vec![Step::WaitFor { retries: 9, state: State::DfuError }]
    );
    assert_eq!(
        steps(Operation::SetAddress { address: 5 }),
        vec![
            Step::Command(DfuseCommand::SetAddress(5)),
            Step::WaitFor { retries: 0, state: State::DfuDownloadIdle }
        ]
    );
    assert_eq!(
        steps(Operation::ResetStm32 { address: 5 }),
        vec![
            Step::Abort,
            Step::Command(DfuseCommand::SetAddress(5)),
            Step::WaitFor { retries: 0, state: State::DfuDownloadIdle },
            Step::DownloadEmpty { transaction: 2 },
            Step::GetStatus { retries: 100 },
        ]
    );
    assert_eq!(
        steps(Operation::GetCommands),
        vec![Step::Abort, Step::Upload { transaction: 0, length: 1024 }]
    );
    assert_eq!(
        steps(Operation::MassErase),
        vec![
            Step::WaitFor { retries: 0, state: State::DfuIdle },
            Step::Command(DfuseCommand::MassErase),
            Step::WaitFor { retries: 0, state: State::DfuDownloadBusy },
            Step::WaitFor { retries: 10, state: State::DfuDownloadIdle },
        ]
    );
}

#[test]
fn script_of_erase_pages() {
    let script = steps(Operation::ErasePages { address: 0x0801_0000, pages: 3 });
    assert_eq!(script.len(), 10);
    assert_eq!(script[0], Step::WaitFor { retries: 0, state: State::DfuIdle });
    for page in 0..3u32 {
        let at = 1 + 3 * page as usize;
        assert_eq!(
            script[at],
            Step::Command(DfuseCommand::ErasePage(0x0801_0000 + page * 0x10000))
        );
        assert_eq!(script[at + 1], Step::WaitFor { retries: 0, state: State::DfuDownloadBusy });
        assert_eq!(script[at + 2], Step::WaitFor { retries: 100, state: State::DfuDownloadIdle });
    }
}

#[test]
fn script_of_upload() {
    let script = steps(Operation::Upload { address: 0x100, length: 2500, xfer_max: 1024 });
    assert_eq!(
        script,
        vec![
            Step::Command(DfuseCommand::SetAddress(0x100)),
            Step::WaitFor { retries: 0, state: State::DfuDownloadBusy },
            Step::Abort,
            Step::WaitFor { retries: 0, state: State::DfuIdle },
            Step::Upload { transaction: 2, length: 1024 },
            Step::WriteHeld,
            Step::Upload { transaction: 3, length: 1024 },
            Step::WriteHeld,
            Step::Upload { transaction: 4, length: 452 },
            Step::WriteHeld,
            Step::Abort,
        ]
    );
}

#[test]
fn script_of_verify() {
    let script = steps(Operation::Verify { address: 0x100, length: 1500, xfer_max: 1024 });
    assert_eq!(
        script[4..],
        [
            Step::Upload { transaction: 2, length: 1024 },
            Step::CompareHeld { address: 0x100 },
            Step::Upload { transaction: 3, length: 476 },
            Step::CompareHeld { address: 0x500 },
            Step::Abort,
        ]
    );
}

#[test]
fn script_of_download() {
    let op = Operation::DownloadRaw { address: 0x0801_0000, pages: 1, length: 1500, xfer_max: 1024 };
    let script = steps(op);
    let set_address = Step::Command(DfuseCommand::SetAddress(0x0801_0000));
    let done = Step::WaitFor { retries: 100, state: State::DfuDownloadIdle };
    let busy = Step::WaitFor { retries: 100, state: State::DfuDownloadBusy };
    assert_eq!(
        script,
        vec![
            Step::WaitFor { retries: 0, state: State::DfuIdle },
            Step::Command(DfuseCommand::ErasePage(0x0801_0000)),
            Step::WaitFor { retries: 0, state: State::DfuDownloadBusy },
            done,
            Step::Abort,
            Step::WaitFor { retries: 0, state: State::DfuIdle },
            Step::ReadFile { length: 1024 },
            set_address,
            done,
            Step::DownloadHeld { transaction: 2 },
            busy,
            done,
            Step::ReadFile { length: 476 },
            set_address,
            done,
            Step::DownloadHeld { transaction: 3 },
            busy,
            done,
            Step::Abort,
        ]
    );
}

#[test]
fn block_transactions_count_up_from_two() {
    let operations = [
        Operation::Upload { address: 0, length: 10_000, xfer_max: 7 },
        Operation::Verify { address: 64, length: 4097, xfer_max: 1024 },
        Operation::DownloadRaw { address: 0x0801_0000, pages: 2, length: 70_000, xfer_max: 512 },
        Operation::DownloadRaw { address: 0x0801_0000, pages: 1, length: 1, xfer_max: 1 },
    ];
    for op in operations {
        let (length, xfer_max) = match op {
            Operation::Upload { length, xfer_max, .. } => (length, xfer_max),
            Operation::Verify { length, xfer_max, .. } => (length, xfer_max),
            Operation::DownloadRaw { length, xfer_max, .. } => (length, xfer_max),
            _ => unreachable!(),
        };
        let mut expected = 2u16;
        let mut asked = 0u32;
        for step in steps(op) {
            match step {
                Step::DownloadHeld { transaction } => {
                    assert_eq!(transaction, expected);
                    expected += 1;
                }
                Step::Upload { transaction, length } => {
                    assert_eq!(transaction, expected);
                    assert!(length > 0 && length <= xfer_max);
                    asked += length as u32;
                    expected += 1;
                }
                Step::ReadFile { length } => {
                    assert!(length > 0 && length <= xfer_max);
                    asked += length as u32;
                }
                _ => {}
            }
        }
        assert_eq!(asked, length);
        assert_eq!((expected - 2) as u32, chunk_count(length, xfer_max));
    }
}

#[test]
fn chunk_count_rounds_up() {
    assert_eq!(chunk_count(0, 1024), 0);
    assert_eq!(chunk_count(1, 1024), 1);
    assert_eq!(chunk_count(1024, 1024), 1);
    assert_eq!(chunk_count(1025, 1024), 2);
    assert_eq!(chunk_count(1500, 1024), 2);
    assert_eq!(chunk_count(u32::MAX, 1), u32::MAX);
    assert_eq!(chunk_count(u32::MAX, 65_535), 65_537);
    assert_eq!(chunk_count(u32::MAX - 1, 65_535), 65_537);
    assert_eq!(chunk_count(u32::MAX - 65_535, 65_535), 65_536);
}

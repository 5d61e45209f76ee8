use dfu::command::DfuseCommand;
use dfu::driver::Dfu;
use dfu::engine::Task;
use dfu::error::{Error, OsError};
use dfu::state::State;
use dfu::status::Status;
use dfu::transport::{Action, Event, Output};
use std::collections::VecDeque;

const GET_STATUS: u8 = 3;
const DNLOAD: u8 = 1;
const UPLOAD: u8 = 2;
const ABORT: u8 = 6;
const EPIPE: i32 = 32;
const EIO: i32 = 5;

/// A host that answers from prepared replies and keeps a record.
struct Host {
    statuses: VecDeque<Result<Vec<u8>, i32>>,
    sends: VecDeque<Result<(), i32>>,
    uploads: VecDeque<Result<Vec<u8>, i32>>,
    file: Vec<u8>,
    file_at: usize,
    file_failure: Option<i32>,
    written: Vec<u8>,
    slept: Vec<u32>,
}

fn block(state: u8) -> Result<Vec<u8>, i32> {
    Ok(vec![0, 0, 0, 0, state, 0])
}

fn seen(state: u8) -> Status {
    Status { status: 0, poll_timeout: 0, state, string_index: 0 }
}

const IDLE: u8 = 2;
const BUSY: u8 = 4;
const DL_IDLE: u8 = 5;

impl Host {
    fn new(states: &[u8]) -> Host {
        Host {
            statuses: states.iter().map(|state| block(*state)).collect(),
            sends: VecDeque::new(),
            uploads: VecDeque::new(),
            file: Vec::new(),
            file_at: 0,
            file_failure: None,
            written: Vec::new(),
            slept: Vec::new(),
        }
    }

    fn answer(&mut self, action: &Action) -> Event {
        match action {
            Action::ControlIn { request, .. } if *request == GET_STATUS => {
                match self.statuses.pop_front().expect("a status reply is prepared") {
                    Ok(bytes) => Event::Received(bytes),
                    Err(errno) => Event::Failed(OsError { errno }),
                }
            }
            Action::ControlIn { .. } => {
                match self.uploads.pop_front().expect("an upload reply is prepared") {
                    Ok(bytes) => Event::Received(bytes),
                    Err(errno) => Event::Failed(OsError { errno }),
                }
            }
            Action::ControlOut { .. } => match self.sends.pop_front() {
                Some(Err(errno)) => Event::Failed(OsError { errno }),
                _ => Event::Sent,
            },
            Action::Sleep { millis } => {
                self.slept.push(*millis);
                Event::Woke
            }
            Action::ReadFile { length } => {
                if let Some(errno) = self.file_failure {
                    return Event::FileFailed(OsError { errno });
                }
                let end = (self.file_at + length).min(self.file.len());
                let bytes = self.file[self.file_at..end].to_vec();
                self.file_at = end;
                Event::FileRead(bytes)
            }
            Action::WriteFile { data } => {
                if let Some(errno) = self.file_failure {
                    return Event::FileFailed(OsError { errno });
                }
                self.written.extend_from_slice(data);
                Event::FileWritten
            }
            Action::Finish(_) => unreachable!(),
        }
    }

    fn run(&mut self, task: Task) -> (Vec<Action>, Result<Output, Error>) {
        let mut record = Vec::new();
        let (mut task, mut action) = task.step(Event::Start);
        loop {
            if let Action::Finish(result) = action {
                assert!(task.is_finished());
                return (record, result);
            }
            assert!(!task.is_finished());
            let event = self.answer(&action);
            record.push(action);
            let next = task.step(event);
            task = next.0;
            action = next.1;
            assert!(record.len() < 1_000_000);
        }
    }
}

fn get_status_request() -> Action {
    Action::ControlIn { request: GET_STATUS, value: 0, index: 0, length: 6, timeout: 3000, awaited: false }
}

fn command(payload: Vec<u8>) -> Action {
    Action::ControlOut { request: DNLOAD, value: 0, index: 0, data: Some(payload), timeout: 3000, awaited: false }
}

fn abort() -> Action {
    Action::ControlOut { request: ABORT, value: 0, index: 0, data: None, timeout: 3000, awaited: true }
}

fn transfers(record: &[Action]) -> Vec<&Action> {
    record
        .iter()
        .filter(|action| matches!(action, Action::ControlIn { .. } | Action::ControlOut { .. }))
        .collect()
}

#[test]
fn get_status_hands_back_the_block() {
    let mut host = Host::new(&[]);
    host.statuses.push_back(Ok(vec![0x00, 0x00, 0x00, 0x64, 0x02, 0x00]));
    let (record, result) = host.run(Dfu::new(0).get_status(0));
    assert_eq!(
        result,
        Ok(Output::Status(Status { status: 0, poll_timeout: 100, state: 2, string_index: 0 }))
    );
    assert_eq!(record, vec![get_status_request()]);
    assert!(host.slept.is_empty());
}

#[test]
fn requests_carry_interface_and_timeout() {
    let mut host = Host::new(&[IDLE]);
    let dfu = Dfu::new(3).with_timeout(250);
    assert_eq!(dfu.interface(), 3);
    assert_eq!(dfu.timeout(), 250);
    assert_eq!(dfu.xfer_size(), 1024);
    let (record, _) = host.run(dfu.abort_to_idle());
    assert_eq!(
        record,
        vec![
            Action::ControlOut { request: ABORT, value: 0, index: 3, data: None, timeout: 250, awaited: true },
            Action::ControlIn { request: GET_STATUS, value: 0, index: 3, length: 6, timeout: 250, awaited: false },
        ]
    );
    assert_eq!(record[0].request_type(), Some(0x21));
    assert_eq!(record[1].request_type(), Some(0xA1));
    assert_eq!(Action::Sleep { millis: 1 }.request_type(), None);
}

#[test]
fn driver_defaults() {
    let dfu = Dfu::new(0);
    assert_eq!(dfu.timeout(), 3000);
    assert_eq!(dfu.xfer_size(), 1024);
    assert_eq!(dfu.interface(), 0);
    let sized = dfu.with_xfer_size(64).unwrap();
    assert_eq!(sized.xfer_size(), 64);
    assert_eq!(sized.timeout(), 3000);
    assert_eq!(
        dfu.with_xfer_size(0).unwrap_err(),
        Error::Argument("Transfer size must be > 0".to_string())
    );
}

#[test]
fn get_status_retries_after_a_stall() {
    let mut host = Host::new(&[]);
    host.statuses.push_back(Err(EPIPE));
    host.statuses.push_back(block(IDLE));
    let (record, result) = host.run(Dfu::new(0).get_status(1));
    assert_eq!(result, Ok(Output::Status(seen(IDLE))));
    assert_eq!(host.slept, vec![3000]);
    assert_eq!(
        record,
        vec![get_status_request(), Action::Sleep { millis: 3000 }, get_status_request()]
    );
}

#[test]
fn get_status_gives_up_when_retries_run_out() {
    let mut host = Host::new(&[]);
    host.statuses.push_back(Err(EPIPE));
    let (record, result) = host.run(Dfu::new(0).get_status(0));
    assert_eq!(
        result,
        Err(Error::USB(
            "Control transfer: DFU_GET_STATUS".to_string(),
            OsError { errno: EPIPE }
        ))
    );
    assert_eq!(transfers(&record).len(), 1);
    assert_eq!(host.slept, vec![3000]);

    let mut host = Host::new(&[]);
    for _ in 0..11 {
        host.statuses.push_back(Err(EPIPE));
    }
    let (record, result) = host.run(Dfu::new(0).get_status(10));
    assert!(matches!(result, Err(Error::USB(_, OsError { errno: EPIPE }))));
    assert_eq!(transfers(&record).len(), 11);
    assert_eq!(host.slept, vec![3000; 11]);
}

#[test]
fn get_status_retries_a_malformed_reply_after_100_ms() {
    let mut host = Host::new(&[]);
    host.statuses.push_back(Ok(vec![0, 0, 0]));
    host.statuses.push_back(Ok(vec![0, 0, 0, 0, 2, 0, 0]));
    host.statuses.push_back(block(DL_IDLE));
    let (record, result) = host.run(Dfu::new(0).get_status(2));
    assert_eq!(result, Ok(Output::Status(seen(DL_IDLE))));
    assert_eq!(host.slept, vec![100, 100]);
    assert_eq!(transfers(&record).len(), 3);

    let mut host = Host::new(&[]);
    host.statuses.push_back(Ok(vec![]));
    let (_, result) = host.run(Dfu::new(0).get_status(0));
    assert_eq!(
        result,
        Err(Error::InvalidControlResponse("Status length was not 6".to_string()))
    );
    assert_eq!(host.slept, vec![100]);
}

#[test]
fn get_status_returns_other_failures_at_once() {
    let mut host = Host::new(&[]);
    host.statuses.push_back(Err(EIO));
    let (record, result) = host.run(Dfu::new(0).get_status(10));
    assert_eq!(
        result,
        Err(Error::USB(
            "Control transfer: DFU_GET_STATUS".to_string(),
            OsError { errno: EIO }
        ))
    );
    assert_eq!(record, vec![get_status_request()]);
    assert!(host.slept.is_empty());
}

#[test]
fn wait_samples_until_the_state_is_reached() {
    let mut host = Host::new(&[BUSY, BUSY, DL_IDLE]);
    let (record, result) = host.run(Dfu::new(0).status_wait_for(5, Some(State::DfuDownloadIdle)));
    assert_eq!(result, Ok(Output::Status(seen(DL_IDLE))));
    assert_eq!(host.slept, vec![100, 100]);
    assert_eq!(transfers(&record).len(), 3);
}

#[test]
fn wait_defaults_to_download_busy() {
    let mut host = Host::new(&[BUSY]);
    let (_, result) = host.run(Dfu::new(0).status_wait_for(0, None));
    assert_eq!(result, Ok(Output::Status(seen(BUSY))));
}

#[test]
fn wait_without_retries_samples_once() {
    let mut host = Host::new(&[BUSY]);
    let (record, result) = host.run(Dfu::new(0).status_wait_for(0, Some(State::DfuIdle)));
    assert_eq!(result, Err(Error::InvalidState(seen(BUSY), State::DfuIdle)));
    assert_eq!(record, vec![get_status_request()]);
    assert!(host.slept.is_empty());
}

#[test]
fn wait_fails_when_samples_run_out() {
    let mut host = Host::new(&[BUSY, BUSY, BUSY]);
    let (record, result) = host.run(Dfu::new(0).status_wait_for(2, Some(State::DfuIdle)));
    assert_eq!(result, Err(Error::InvalidState(seen(BUSY), State::DfuIdle)));
    assert_eq!(transfers(&record).len(), 3);
    assert_eq!(host.slept, vec![100, 100]);
}

#[test]
fn wait_fails_on_a_status_other_than_ok() {
    let mut host = Host::new(&[]);
    host.statuses.push_back(Ok(vec![0x0A, 0, 0, 0, IDLE, 0]));
    let (_, result) = host.run(Dfu::new(0).status_wait_for(3, Some(State::DfuIdle)));
    let reported = Status { status: 0x0A, poll_timeout: 0, state: IDLE, string_index: 0 };
    assert_eq!(result, Err(Error::InvalidStatus(reported, 0)));
}

#[test]
fn wait_retries_each_sample_after_a_stall() {
    let mut host = Host::new(&[]);
    host.statuses.push_back(Err(EPIPE));
    host.statuses.push_back(block(BUSY));
    host.statuses.push_back(Ok(vec![1]));
    host.statuses.push_back(block(IDLE));
    let (_, result) = host.run(Dfu::new(0).status_wait_for(1, Some(State::DfuIdle)));
    assert_eq!(result, Ok(Output::Status(seen(IDLE))));
    assert_eq!(host.slept, vec![3000, 100, 100]);
}

#[test]
fn abort_to_idle_on_an_idle_device() {
    let mut host = Host::new(&[IDLE]);
    let (record, result) = host.run(Dfu::new(0).abort_to_idle());
    assert_eq!(result, Ok(Output::Done));
    assert_eq!(record, vec![abort(), get_status_request()]);

    let mut host = Host::new(&[IDLE]);
    let (record, result) = host.run(Dfu::new(0).abort_to_idle());
    assert_eq!(result, Ok(Output::Done));
    assert_eq!(record, vec![abort(), get_status_request()]);
}

#[test]
fn abort_to_idle_fails_when_the_device_is_not_idle() {
    let mut host = Host::new(&[10]);
    let (_, result) = host.run(Dfu::new(0).abort_to_idle());
    assert_eq!(result, Err(Error::InvalidState(seen(10), State::DfuIdle)));
}

#[test]
fn abort_to_idle_does_not_look_at_the_status_code() {
    let mut host = Host::new(&[]);
    host.statuses.push_back(Ok(vec![7, 0, 0, 0, IDLE, 0]));
    let (_, result) = host.run(Dfu::new(0).abort_to_idle());
    assert_eq!(result, Ok(Output::Done));
}

#[test]
fn abort_to_idle_reports_a_failed_transfer() {
    let mut host = Host::new(&[]);
    host.sends.push_back(Err(EPIPE));
    let (record, result) = host.run(Dfu::new(0).abort_to_idle());
    assert_eq!(
        result,
        Err(Error::USBNix("Abort to idle".to_string(), OsError { errno: EPIPE }))
    );
    assert_eq!(record, vec![abort()]);
}

#[test]
fn clear_status_and_detach_are_one_request() {
    let mut host = Host::new(&[]);
    let (record, result) = host.run(Dfu::new(1).clear_status());
    assert_eq!(result, Ok(Output::Done));
    assert_eq!(
        record,
        vec![Action::ControlOut { request: 4, value: 0, index: 1, data: None, timeout: 3000, awaited: false }]
    );
    let (record, result) = host.run(Dfu::new(1).detach());
    assert_eq!(result, Ok(Output::Done));
    assert_eq!(
        record,
        vec![Action::ControlOut { request: 0, value: 0, index: 1, data: None, timeout: 3000, awaited: false }]
    );

    host.sends.push_back(Err(EIO));
    let (_, result) = host.run(Dfu::new(1).clear_status());
    assert_eq!(
        result,
        Err(Error::USBNix("Control transfer".to_string(), OsError { errno: EIO }))
    );
    host.sends.push_back(Err(EIO));
    let (_, result) = host.run(Dfu::new(1).detach());
    assert_eq!(result, Err(Error::USBNix("Detach".to_string(), OsError { errno: EIO })));
}

#[test]
fn set_address_sends_the_command_and_waits() {
    let mut host = Host::new(&[DL_IDLE]);
    let (record, result) = host.run(Dfu::new(0).set_address(0x0801_0000));
    assert_eq!(result, Ok(Output::Status(seen(DL_IDLE))));
    assert_eq!(
        record,
        vec![command(vec![0x21, 0x00, 0x00, 0x01, 0x08]), get_status_request()]
    );
}

#[test]
fn a_stalled_download_counts_as_sent() {
    let mut host = Host::new(&[DL_IDLE]);
    host.sends.push_back(Err(EPIPE));
    let (record, result) = host.run(Dfu::new(0).set_address(0x0801_0000));
    assert_eq!(result, Ok(Output::Status(seen(DL_IDLE))));
    assert_eq!(host.slept, vec![10]);
    assert_eq!(
        record,
        vec![
            command(vec![0x21, 0x00, 0x00, 0x01, 0x08]),
            Action::Sleep { millis: 10 },
            get_status_request()
        ]
    );
}

#[test]
fn a_failed_download_is_reported() {
    let mut host = Host::new(&[]);
    host.sends.push_back(Err(EIO));
    let (_, result) = host.run(Dfu::new(0).set_address(0x0801_0000));
    assert_eq!(
        result,
        Err(Error::USBNix("Dfuse download".to_string(), OsError { errno: EIO }))
    );
}

#[test]
fn mass_erase_happy_path() {
    let mut host = Host::new(&[IDLE, BUSY, DL_IDLE]);
    let (record, result) = host.run(Dfu::new(0).mass_erase());
    assert_eq!(result, Ok(Output::Done));
    assert_eq!(
        record,
        vec![
            get_status_request(),
            command(vec![0x41]),
            get_status_request(),
            get_status_request()
        ]
    );
    assert_eq!(record[1..].len(), 3);
    assert!(host.slept.is_empty());
}

#[test]
fn mass_erase_waits_for_the_erase_to_end() {
    let mut host = Host::new(&[IDLE, BUSY, BUSY, BUSY, DL_IDLE]);
    let (_, result) = host.run(Dfu::new(0).mass_erase());
    assert_eq!(result, Ok(Output::Done));
    assert_eq!(host.slept, vec![100, 100]);

    let mut states = vec![IDLE, BUSY];
    states.extend_from_slice(&[BUSY; 11]);
    let mut host = Host::new(&states);
    let (_, result) = host.run(Dfu::new(0).mass_erase());
    assert_eq!(result, Err(Error::InvalidState(seen(BUSY), State::DfuDownloadIdle)));
    assert_eq!(host.slept, vec![100; 10]);
}

#[test]
fn mass_erase_needs_an_idle_device() {
    let mut host = Host::new(&[DL_IDLE]);
    let (record, result) = host.run(Dfu::new(0).mass_erase());
    assert_eq!(result, Err(Error::InvalidState(seen(DL_IDLE), State::DfuIdle)));
    assert_eq!(record.len(), 1);
}

fn erase_addresses(record: &[Action]) -> Vec<u32> {
    record
        .iter()
        .filter_map(|action| match action {
            Action::ControlOut { request, value, data: Some(payload), .. }
                if *request == DNLOAD && *value == 0 && payload.len() == 5 && payload[0] == 0x41 =>
            {
                Some(u32::from_le_bytes([payload[1], payload[2], payload[3], payload[4]]))
            }
            _ => None,
        })
        .collect()
}

#[test]
fn erase_pages_range() {
    let mut host = Host::new(&[IDLE, BUSY, DL_IDLE, BUSY, DL_IDLE, BUSY, DL_IDLE]);
    let task = Dfu::new(0).erase_pages(0x0801_0000, 0x20001).unwrap();
    let (record, result) = host.run(task);
    assert_eq!(result, Ok(Output::Done));
    assert_eq!(erase_addresses(&record), vec![0x0801_0000, 0x0802_0000, 0x0803_0000]);
    assert_eq!(transfers(&record).len(), 1 + 3 * 3);
    assert_eq!(record[1], command(DfuseCommand::ErasePage(0x0801_0000).to_bytes()));
}

#[test]
fn erase_pages_refuses_before_anything_is_sent() {
    assert_eq!(
        Dfu::new(0).erase_pages(0x0801_0000, 0).unwrap_err(),
        Error::Argument("Length must be > 0".to_string())
    );
    assert_eq!(
        Dfu::new(0).erase_pages(0x0700_0000, 16).unwrap_err(),
        Error::Address(0x0700_0000)
    );
}

#[test]
fn erase_pages_stops_at_the_first_failure() {
    let mut host = Host::new(&[IDLE, BUSY, DL_IDLE, IDLE]);
    let task = Dfu::new(0).erase_pages(0x0801_0000, 0x30000).unwrap();
    let (record, result) = host.run(task);
    assert_eq!(result, Err(Error::InvalidState(seen(IDLE), State::DfuDownloadBusy)));
    assert_eq!(erase_addresses(&record), vec![0x0801_0000, 0x0802_0000]);
}

fn blocks_sent(record: &[Action]) -> Vec<(u16, Vec<u8>)> {
    record
        .iter()
        .filter_map(|action| match action {
            Action::ControlOut { request, value, data: Some(payload), .. }
                if *request == DNLOAD && *value >= 2 =>
            {
                Some((*value, payload.clone()))
            }
            _ => None,
        })
        .collect()
}

#[test]
fn download_two_blocks() {
    let mut host = Host::new(&[
        IDLE, BUSY, DL_IDLE, // erase one page
        IDLE, IDLE, // abort to idle, wait for idle
        DL_IDLE, BUSY, DL_IDLE, // first block
        BUSY, DL_IDLE, BUSY, BUSY, DL_IDLE, // second block
        IDLE, // abort to idle
    ]);
    host.file = (0..1500u32).map(|i| (i % 251) as u8).collect();
    let task = Dfu::new(0).download_raw(1500, 0x0801_0000, None).unwrap();
    let (record, result) = host.run(task);
    assert_eq!(result, Ok(Output::Done));
    assert_eq!(erase_addresses(&record), vec![0x0801_0000]);

    let blocks = blocks_sent(&record);
    assert_eq!(blocks.len(), 2);
    assert_eq!(blocks[0].0, 2);
    assert_eq!(blocks[1].0, 3);
    assert_eq!(blocks[0].1.len(), 1024);
    assert_eq!(blocks[1].1.len(), 476);
    assert_eq!(blocks[0].1[..], host.file[..1024]);
    assert_eq!(blocks[1].1[..], host.file[1024..]);

    let set_address = command(vec![0x21, 0x00, 0x00, 0x01, 0x08]);
    let wire = transfers(&record);
    for (at, action) in wire.iter().enumerate() {
        if let Action::ControlOut { request, value, .. } = action {
            if *request == DNLOAD && *value >= 2 {
                assert_eq!(*wire[at + 1], get_status_request());
                assert_eq!(*wire[at - 1], get_status_request());
                let before: Vec<&&Action> = wire[..at]
                    .iter()
                    .rev()
                    .take_while(|earlier| ***earlier == get_status_request())
                    .collect();
                assert_eq!(*wire[at - 1 - before.len()], set_address);
            }
        }
    }
    assert_eq!(*wire[wire.len() - 2], abort());
    assert_eq!(
        record.iter().filter(|action| **action == set_address).count(),
        2
    );
    assert_eq!(host.slept, vec![100, 100]);
}

#[test]
fn download_pads_a_short_read_with_zeros() {
    let mut host = Host::new(&[IDLE, BUSY, DL_IDLE, IDLE, IDLE, DL_IDLE, BUSY, DL_IDLE, IDLE]);
    host.file = vec![7; 3];
    let task = Dfu::new(0).download_raw(10, 0x0801_0000, Some(10)).unwrap();
    let (record, result) = host.run(task);
    assert_eq!(result, Ok(Output::Done));
    assert_eq!(blocks_sent(&record), vec![(2, vec![7, 7, 7, 0, 0, 0, 0, 0, 0, 0])]);
}

#[test]
fn download_refuses_before_anything_is_sent() {
    let dfu = Dfu::new(0);
    assert_eq!(
        dfu.download_raw(0, 0x0801_0000, None).unwrap_err(),
        Error::Argument("File is empty".to_string())
    );
    assert_eq!(
        dfu.download_raw(10, 0x0801_0000, Some(11)).unwrap_err(),
        Error::Argument("Length is larger than the file".to_string())
    );
    assert_eq!(
        dfu.download_raw(10, 0x0801_0000, Some(0)).unwrap_err(),
        Error::Argument("Length must be > 0".to_string())
    );
    assert_eq!(
        dfu.download_raw(10, 0x2000_0000, None).unwrap_err(),
        Error::Address(0x2000_0000)
    );
}

#[test]
fn download_reports_a_file_failure() {
    let mut host = Host::new(&[IDLE, BUSY, DL_IDLE, IDLE, IDLE]);
    host.file_failure = Some(EIO);
    let task = Dfu::new(0).download_raw(10, 0x0801_0000, None).unwrap();
    let (record, result) = host.run(task);
    assert_eq!(result, Err(Error::FileIO(OsError { errno: EIO })));
    assert!(blocks_sent(&record).is_empty());
}

#[test]
fn download_never_sends_more_than_the_transfer_size() {
    for (length, xfer_size) in [(1u32, 1u16), (100, 7), (4096, 1024), (4097, 1024), (300, 64)] {
        let count = (length as usize + xfer_size as usize - 1) / xfer_size as usize;
        let mut states = vec![IDLE, BUSY, DL_IDLE, IDLE, IDLE];
        for _ in 0..count {
            states.extend_from_slice(&[DL_IDLE, BUSY, DL_IDLE]);
        }
        states.push(IDLE);
        let mut host = Host::new(&states);
        host.file = vec![0xA5; length as usize];
        let dfu = Dfu::new(0).with_xfer_size(xfer_size).unwrap();
        let task = dfu.download_raw(length as u64, 0x0801_0000, None).unwrap();
        let (record, result) = host.run(task);
        assert_eq!(result, Ok(Output::Done));
        let blocks = blocks_sent(&record);
        assert_eq!(blocks.len(), count);
        let mut total = 0;
        for (index, block) in blocks.iter().enumerate() {
            assert_eq!(block.0 as usize, 2 + index);
            assert!(block.1.len() <= xfer_size as usize);
            total += block.1.len();
        }
        assert_eq!(total, length as usize);
    }
}

fn uploads_asked(record: &[Action]) -> Vec<(u16, u16)> {
    record
        .iter()
        .filter_map(|action| match action {
            Action::ControlIn { request, value, length, awaited, .. } if *request == UPLOAD => {
                assert!(*awaited);
                Some((*value, *length))
            }
            _ => None,
        })
        .collect()
}

#[test]
fn upload_reads_the_region_into_the_file() {
    let memory: Vec<u8> = (0..2500u32).map(|i| (i % 253) as u8).collect();
    let mut host = Host::new(&[BUSY, IDLE, IDLE, IDLE]);
    host.uploads.push_back(Ok(memory[..1024].to_vec()));
    host.uploads.push_back(Ok(memory[1024..2048].to_vec()));
    host.uploads.push_back(Ok(memory[2048..].to_vec()));
    let (record, result) = host.run(Dfu::new(0).upload(0x0800_0000, 2500));
    assert_eq!(result, Ok(Output::Done));
    assert_eq!(host.written, memory);
    assert_eq!(uploads_asked(&record), vec![(2, 1024), (3, 1024), (4, 452)]);
    let wire = transfers(&record);
    assert_eq!(*wire[0], command(vec![0x21, 0x00, 0x00, 0x00, 0x08]));
    assert_eq!(*wire[1], get_status_request());
    assert_eq!(*wire[2], abort());
    assert_eq!(*wire[wire.len() - 2], abort());
}

#[test]
fn upload_of_nothing_only_frames() {
    let mut host = Host::new(&[BUSY, IDLE, IDLE, IDLE]);
    let (record, result) = host.run(Dfu::new(0).upload(0x0800_0000, 0));
    assert_eq!(result, Ok(Output::Done));
    assert!(uploads_asked(&record).is_empty());
    assert!(host.written.is_empty());
}

#[test]
fn upload_reports_a_failed_transfer() {
    let mut host = Host::new(&[BUSY, IDLE, IDLE]);
    host.uploads.push_back(Err(EPIPE));
    let (_, result) = host.run(Dfu::new(0).upload(0x0800_0000, 10));
    assert_eq!(
        result,
        Err(Error::USBNix("Dfuse upload".to_string(), OsError { errno: EPIPE }))
    );
}

#[test]
fn upload_refuses_more_bytes_than_asked_for() {
    let mut host = Host::new(&[BUSY, IDLE, IDLE]);
    host.uploads.push_back(Ok(vec![0; 11]));
    let (_, result) = host.run(Dfu::new(0).upload(0x0800_0000, 10));
    assert_eq!(
        result,
        Err(Error::InvalidControlResponse("Dfuse upload".to_string()))
    );
}

#[test]
fn upload_reports_a_file_failure() {
    let mut host = Host::new(&[BUSY, IDLE, IDLE]);
    host.uploads.push_back(Ok(vec![0; 10]));
    host.file_failure = Some(28);
    let (_, result) = host.run(Dfu::new(0).upload(0x0800_0000, 10));
    assert_eq!(result, Err(Error::FileIO(OsError { errno: 28 })));
}

#[test]
fn verify_passes_when_memory_and_file_agree() {
    let memory: Vec<u8> = (0..1500u32).map(|i| (i % 7) as u8).collect();
    let mut host = Host::new(&[BUSY, IDLE, IDLE, IDLE]);
    host.file = memory.clone();
    host.uploads.push_back(Ok(memory[..1024].to_vec()));
    host.uploads.push_back(Ok(memory[1024..].to_vec()));
    let task = Dfu::new(0).verify(1500, 0x0801_0000, None).unwrap();
    let (record, result) = host.run(task);
    assert_eq!(result, Ok(Output::Done));
    assert_eq!(uploads_asked(&record), vec![(2, 1024), (3, 476)]);
}

#[test]
fn verify_mismatch() {
    let memory: Vec<u8> = vec![0x55; 100];
    let mut file = memory.clone();
    file[17] = 0xAA;
    file[60] = 0xAA;
    let mut host = Host::new(&[BUSY, IDLE, IDLE]);
    host.file = file;
    host.uploads.push_back(Ok(memory));
    let task = Dfu::new(0).verify(100, 0x0801_0000, None).unwrap();
    let (_, result) = host.run(task);
    assert_eq!(result, Err(Error::Verify(0x0801_0000 + 17)));
}

#[test]
fn verify_mismatch_in_a_later_block() {
    let memory: Vec<u8> = vec![0x11; 2000];
    let mut file = memory.clone();
    file[1024 + 17] = 0;
    let mut host = Host::new(&[BUSY, IDLE, IDLE]);
    host.file = file;
    host.uploads.push_back(Ok(memory[..1024].to_vec()));
    host.uploads.push_back(Ok(memory[1024..].to_vec()));
    let task = Dfu::new(0).verify(2000, 0x0801_0000, None).unwrap();
    let (_, result) = host.run(task);
    assert_eq!(result, Err(Error::Verify(0x0801_0000 + 1024 + 17)));
}

#[test]
fn verify_fails_when_the_file_ends_early() {
    let mut host = Host::new(&[BUSY, IDLE, IDLE]);
    host.file = vec![9; 60];
    host.uploads.push_back(Ok(vec![9; 100]));
    let task = Dfu::new(0).verify(100, 0x0801_0000, Some(100)).unwrap();
    let (_, result) = host.run(task);
    assert_eq!(result, Err(Error::Verify(0x0801_0000 + 100)));
}

#[test]
fn verify_refuses_before_anything_is_sent() {
    assert_eq!(
        Dfu::new(0).verify(0, 0x0801_0000, None).unwrap_err(),
        Error::Argument("File is empty".to_string())
    );
    assert_eq!(
        Dfu::new(0).verify(5, 0x0801_0000, Some(6)).unwrap_err(),
        Error::Argument("Length is larger than the file".to_string())
    );
}

#[test]
fn reset_sends_an_empty_download_with_transaction_two() {
    let mut host = Host::new(&[IDLE, DL_IDLE, 7]);
    let (record, result) = host.run(Dfu::new(0).reset_stm32(0x0800_0000));
    assert_eq!(result, Ok(Output::Done));
    assert_eq!(
        record,
        vec![
            abort(),
            get_status_request(),
            command(vec![0x21, 0x00, 0x00, 0x00, 0x08]),
            get_status_request(),
            Action::ControlOut { request: DNLOAD, value: 2, index: 0, data: None, timeout: 3000, awaited: false },
            get_status_request(),
        ]
    );
}

#[test]
fn reset_hands_on_the_failure_of_the_last_status_request() {
    let mut host = Host::new(&[IDLE, DL_IDLE]);
    host.statuses.push_back(Err(19));
    let (_, result) = host.run(Dfu::new(0).reset_stm32(0x0800_0000));
    assert_eq!(
        result,
        Err(Error::USB(
            "Control transfer: DFU_GET_STATUS".to_string(),
            OsError { errno: 19 }
        ))
    );
}

#[test]
fn get_commands_reads_and_decodes_the_list() {
    let mut host = Host::new(&[IDLE]);
    host.uploads.push_back(Ok(vec![0x00, 0x21, 0x41, 0x92]));
    let (record, result) = host.run(Dfu::new(0).dfuse_get_commands());
    assert_eq!(
        result,
        Ok(Output::Commands(vec![
            DfuseCommand::SetAddress(0),
            DfuseCommand::ErasePage(0),
            DfuseCommand::ReadUnprotect
        ]))
    );
    assert_eq!(uploads_asked(&record), vec![(0, 1024)]);
    assert_eq!(record[0], abort());
}

#[test]
fn get_commands_refuses_a_bad_list() {
    let mut host = Host::new(&[IDLE]);
    host.uploads.push_back(Ok(vec![0x21, 0x41]));
    let (_, result) = host.run(Dfu::new(0).dfuse_get_commands());
    assert_eq!(
        result,
        Err(Error::InvalidControlResponse("Get command".to_string()))
    );
    let mut host = Host::new(&[IDLE]);
    host.uploads.push_back(Ok(vec![0x00, 0x21, 0x55]));
    let (_, result) = host.run(Dfu::new(0).dfuse_get_commands());
    assert_eq!(result, Err(Error::UnknownCommandByte(0x55)));
    let mut host = Host::new(&[IDLE]);
    host.uploads.push_back(Ok(vec![]));
    let (_, result) = host.run(Dfu::new(0).dfuse_get_commands());
    assert_eq!(
        result,
        Err(Error::InvalidControlResponse("Get command".to_string()))
    );
}

#[test]
fn an_event_that_answers_nothing_ends_the_task() {
    let misuse = Err(Error::Argument("Unexpected event".to_string()));
    let (task, action) = Dfu::new(0).get_status(3).step(Event::Woke);
    assert_eq!(action, Action::Finish(misuse.clone()));
    assert!(task.is_finished());

    let (task, _) = Dfu::new(0).get_status(3).step(Event::Start);
    let (task, action) = task.step(Event::Sent);
    assert_eq!(action, Action::Finish(misuse.clone()));
    let (task, action) = task.step(Event::Received(vec![0, 0, 0, 0, 2, 0]));
    assert_eq!(action, Action::Finish(misuse.clone()));
    assert!(task.is_finished());

    let (task, _) = Dfu::new(0).clear_status().step(Event::Start);
    let (_, action) = task.step(Event::FileWritten);
    assert_eq!(action, Action::Finish(misuse));
}

#[test]
fn a_task_knows_its_operation_and_position() {
    let task = Dfu::new(0).mass_erase();
    assert_eq!(task.operation(), dfu::script::Operation::MassErase);
    assert_eq!(task.position(), 0);
    assert!(!task.is_finished());
    let (task, _) = task.step(Event::Start);
    let (task, _) = task.step(Event::Received(vec![0, 0, 0, 0, IDLE, 0]));
    assert_eq!(task.position(), 1);
}

#[test]
fn closing_an_idle_device_needs_no_recovery() {
    let dfu = Dfu::new(0);
    let mut host = Host::new(&[IDLE]);
    let (_, closed) = host.run(dfu.close());
    assert_eq!(closed, Ok(Output::Status(seen(IDLE))));
    assert!(dfu.recover(&closed).is_none());
}

#[test]
fn closing_a_busy_device_aborts_to_idle() {
    let dfu = Dfu::new(0);
    let mut host = Host::new(&[DL_IDLE, IDLE]);
    let (_, closed) = host.run(dfu.close());
    assert_eq!(closed, Err(Error::InvalidState(seen(DL_IDLE), State::DfuIdle)));
    let recovery = dfu.recover(&closed).expect("a device that is not idle is recovered");
    let (record, result) = host.run(recovery);
    assert_eq!(result, Ok(Output::Done));
    assert_eq!(record, vec![abort(), get_status_request()]);
}

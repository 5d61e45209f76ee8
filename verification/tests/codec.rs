use dfu::block::{first_mismatch, fit};
use dfu::command::{list, DfuseCommand};
use dfu::driver::get_length_from_file;
use dfu::error::{Error, OsError};
use dfu::state::State;
use dfu::status::Status;

#[test]
fn status_decodes_six_bytes() {
    let status = Status::get(&[0x00, 0x00, 0x00, 0x64, 0x02, 0x00]).unwrap();
    assert_eq!(status.status, 0);
    assert_eq!(status.poll_timeout, 100);
    assert_eq!(status.state, 2);
    assert_eq!(status.state(), State::DfuIdle);
    assert_eq!(status.string_index, 0);
}

#[test]
fn status_poll_timeout_is_read_most_significant_byte_first() {
    let status = Status::get(&[0x0A, 0x01, 0x02, 0x03, 0x05, 0x09]).unwrap();
    assert_eq!(status.status, 0x0A);
    assert_eq!(status.poll_timeout, 0x01_02_03);
    assert_eq!(status.state(), State::DfuDownloadIdle);
    assert_eq!(status.string_index, 9);
    let largest = Status::get(&[0, 0xFF, 0xFF, 0xFF, 0, 0]).unwrap();
    assert_eq!(largest.poll_timeout, 0xFF_FFFF);
}

#[test]
fn status_refuses_other_lengths() {
    let refused = Err(Error::InvalidControlResponse(
        "Status length was not 6".to_string(),
    ));
    assert_eq!(Status::get(&[]), refused);
    assert_eq!(Status::get(&[0, 0, 0, 0, 2]), refused);
    assert_eq!(Status::get(&[0, 0, 0, 0, 2, 0, 0]), refused);
}

#[test]
fn status_default_is_all_zero() {
    let status = Status::default();
    assert_eq!(
        status,
        Status { status: 0, poll_timeout: 0, state: 0, string_index: 0 }
    );
}

#[test]
fn state_bytes_round_trip() {
    let states = [
        State::AppIdle,
        State::AppDetach,
        State::DfuIdle,
        State::DfuDownloadSync,
        State::DfuDownloadBusy,
        State::DfuDownloadIdle,
        State::DfuManifestSync,
        State::DfuManifest,
        State::DfuManifestWaitReset,
        State::DfuUploadIdle,
        State::DfuError,
    ];
    for (byte, state) in states.iter().enumerate() {
        assert_eq!(State::from_code(byte as u8), *state);
        assert_eq!(state.code(), byte as u8);
        assert_eq!(State::from(byte as u8), *state);
        assert_eq!(u8::from(state), byte as u8);
    }
    for byte in 0..=255u8 {
        let status = Status::get(&[0, 0, 0, 0, byte, 0]).unwrap();
        let again = status.state().code();
        if byte <= 10 {
            assert_eq!(again, byte);
        } else {
            assert_eq!(status.state(), State::Unknown);
            assert_eq!(again, 255);
        }
    }
    assert_eq!(State::Unknown.code(), 255);
}

#[test]
fn commands_encode() {
    assert_eq!(DfuseCommand::GetCommands.to_bytes(), vec![0x00]);
    assert_eq!(
        DfuseCommand::SetAddress(0x0801_0000).to_bytes(),
        vec![0x21, 0x00, 0x00, 0x01, 0x08]
    );
    assert_eq!(
        DfuseCommand::SetAddress(0x1234_5678).to_bytes(),
        vec![0x21, 0x78, 0x56, 0x34, 0x12]
    );
    assert_eq!(
        DfuseCommand::ErasePage(0xFFFF_FFFF).to_bytes(),
        vec![0x41, 0xFF, 0xFF, 0xFF, 0xFF]
    );
    assert_eq!(
        DfuseCommand::ErasePage(0x0802_0000).to_bytes(),
        vec![0x41, 0x00, 0x00, 0x02, 0x08]
    );
    assert_eq!(DfuseCommand::MassErase.to_bytes(), vec![0x41]);
    assert_eq!(DfuseCommand::ReadUnprotect.to_bytes(), vec![0x92]);
}

#[test]
fn command_bytes_decode() {
    assert_eq!(DfuseCommand::from_byte(0x00), Ok(DfuseCommand::GetCommands));
    assert_eq!(DfuseCommand::from_byte(0x21), Ok(DfuseCommand::SetAddress(0)));
    assert_eq!(DfuseCommand::from_byte(0x41), Ok(DfuseCommand::ErasePage(0)));
    assert_eq!(DfuseCommand::from_byte(0x92), Ok(DfuseCommand::ReadUnprotect));
    for byte in 0..=255u8 {
        if ![0x00, 0x21, 0x41, 0x92].contains(&byte) {
            assert_eq!(
                DfuseCommand::from_byte(byte),
                Err(Error::UnknownCommandByte(byte))
            );
        }
    }
}

#[test]
fn command_list_decodes() {
    assert_eq!(
        list(&vec![0x00, 0x21, 0x41, 0x92]),
        Ok(vec![
            DfuseCommand::SetAddress(0),
            DfuseCommand::ErasePage(0),
            DfuseCommand::ReadUnprotect
        ])
    );
    assert_eq!(list(&vec![0x00]), Ok(vec![]));
    assert_eq!(
        list(&vec![0x00, 0x00, 0x21]),
        Ok(vec![DfuseCommand::GetCommands, DfuseCommand::SetAddress(0)])
    );
}

#[test]
fn command_list_refuses_bad_replies() {
    let refused = Err(Error::InvalidControlResponse("Get command".to_string()));
    assert_eq!(list(&vec![]), refused);
    assert_eq!(list(&vec![0x21, 0x41]), refused);
    assert_eq!(
        list(&vec![0x00, 0x21, 0x77, 0x99]),
        Err(Error::UnknownCommandByte(0x77))
    );
    assert_eq!(list(&vec![0x00, 0x01]), Err(Error::UnknownCommandByte(0x01)));
}

#[test]
fn exit_codes_by_kind() {
    let status = Status::default();
    let cause = OsError { errno: 5 };
    let errors = vec![
        (Error::DeviceNotFound("1-2".to_string()), 64),
        (Error::Argument("x".to_string()), 65),
        (Error::USB("open".to_string(), cause), 66),
        (Error::USBNix("Detach".to_string(), cause), 67),
        (Error::InvalidControlResponse("x".to_string()), 68),
        (Error::InvalidState(status, State::DfuIdle), 69),
        (Error::InvalidStatus(status, 0), 70),
        (Error::FileIO(cause), 71),
        (Error::UnknownCommandByte(9), 72),
        (Error::Address(1), 73),
        (Error::Verify(2), 74),
    ];
    for (error, code) in errors {
        assert_eq!(error.exit_code(), code);
        assert_eq!(i32::from(error), code);
    }
}

#[test]
fn file_failure_becomes_file_error() {
    assert_eq!(
        Error::from(OsError { errno: 13 }),
        Error::FileIO(OsError { errno: 13 })
    );
}

#[test]
fn stall_is_broken_pipe() {
    assert!(OsError { errno: 32 }.is_stall());
    assert!(!OsError { errno: 0 }.is_stall());
    assert!(!OsError { errno: 5 }.is_stall());
    assert!(!OsError { errno: -32 }.is_stall());
    assert!(!OsError { errno: 110 }.is_stall());
}

#[test]
fn length_is_settled_from_the_file() {
    assert_eq!(get_length_from_file(1500, None), Ok(1500));
    assert_eq!(get_length_from_file(1500, Some(1000)), Ok(1000));
    assert_eq!(get_length_from_file(1500, Some(1500)), Ok(1500));
    assert_eq!(get_length_from_file(1500, Some(0)), Ok(0));
    assert_eq!(
        get_length_from_file(1500, Some(1501)),
        Err(Error::Argument("Length is larger than the file".to_string()))
    );
    assert_eq!(
        get_length_from_file(0, None),
        Err(Error::Argument("File is empty".to_string()))
    );
    assert_eq!(get_length_from_file(0, Some(0)), Ok(0));
    assert_eq!(get_length_from_file(0x1_0000_0010, None), Ok(0x10));
    assert_eq!(
        get_length_from_file(0x1_0000_0000, None),
        Err(Error::Argument("File is empty".to_string()))
    );
}

#[test]
fn blocks_are_padded_and_cut() {
    assert_eq!(fit(vec![1, 2, 3], 5), vec![1, 2, 3, 0, 0]);
    assert_eq!(fit(vec![1, 2, 3], 3), vec![1, 2, 3]);
    assert_eq!(fit(vec![1, 2, 3], 2), vec![1, 2]);
    assert_eq!(fit(vec![], 2), vec![0, 0]);
    assert_eq!(fit(vec![9], 0), Vec::<u8>::new());
}

#[test]
fn mismatch_is_found_at_the_first_difference() {
    assert_eq!(first_mismatch(&vec![1, 2, 3], &vec![1, 2, 3]), None);
    assert_eq!(first_mismatch(&vec![], &vec![]), None);
    assert_eq!(first_mismatch(&vec![1, 2, 3], &vec![1, 9, 9]), Some(1));
    assert_eq!(first_mismatch(&vec![1, 2, 3], &vec![0, 2, 3]), Some(0));
    assert_eq!(first_mismatch(&vec![1, 2, 3], &vec![1, 2]), Some(3));
    assert_eq!(first_mismatch(&vec![1, 2], &vec![1, 2, 3]), Some(2));
    assert_eq!(first_mismatch(&vec![1, 2, 3], &vec![]), Some(3));
    assert_eq!(first_mismatch(&vec![1, 2, 3], &vec![1, 7]), Some(1));
}

#[test]
fn states_have_names() {
    assert_eq!(State::AppIdle.name(), "App Idle");
    assert_eq!(State::AppDetach.name(), "App detach");
    assert_eq!(State::DfuIdle.name(), "Dfu Idle");
    assert_eq!(State::DfuDownloadSync.name(), "Dfu download sync");
    assert_eq!(State::DfuDownloadBusy.name(), "Dfu download busy");
    assert_eq!(State::DfuDownloadIdle.name(), "Dfu download idle");
    assert_eq!(State::DfuManifestSync.name(), "Dfu manifest sync");
    assert_eq!(State::DfuManifest.name(), "Dfu manifest");
    assert_eq!(State::DfuManifestWaitReset.name(), "Dfu manifest wait reset");
    assert_eq!(State::DfuUploadIdle.name(), "Dfu Upload idle");
    assert_eq!(State::DfuError.name(), "Dfu error");
    assert_eq!(State::Unknown.name(), "Unknown state");
    assert_eq!(State::from_code(200).name(), "Unknown state");
}

//! The states a DFU device reports in its status block.

use vstd::prelude::*;

verus! {

/// State of the device as the DFU class defines it.
#[derive(Debug, Clone, Copy, PartialEq, Eq, Structural)]
pub enum State {
    AppIdle,
    AppDetach,
    DfuIdle,
    DfuDownloadSync,
    DfuDownloadBusy,
    DfuDownloadIdle,
    DfuManifestSync,
    DfuManifest,
    DfuManifestWaitReset,
    DfuUploadIdle,
    DfuError,
    Unknown,
}

impl State {
    /// The byte that stands for this state on the wire.
    pub open spec fn spec_code(self) -> u8 {
        match self {
            State::AppIdle => 0,
            State::AppDetach => 1,
            State::DfuIdle => 2,
            State::DfuDownloadSync => 3,
            State::DfuDownloadBusy => 4,
            State::DfuDownloadIdle => 5,
            State::DfuManifestSync => 6,
            State::DfuManifest => 7,
            State::DfuManifestWaitReset => 8,
            State::DfuUploadIdle => 9,
            State::DfuError => 10,
            State::Unknown => 255,
        }
    }

    /// The state that a byte of a status block stands for.
    pub open spec fn spec_from_code(code: u8) -> State {
        if code == 0 {
            State::AppIdle
        } else if code == 1 {
            State::AppDetach
        } else if code == 2 {
            State::DfuIdle
        } else if code == 3 {
            State::DfuDownloadSync
        } else if code == 4 {
            State::DfuDownloadBusy
        } else if code == 5 {
            State::DfuDownloadIdle
        } else if code == 6 {
            State::DfuManifestSync
        } else if code == 7 {
            State::DfuManifest
        } else if code == 8 {
            State::DfuManifestWaitReset
        } else if code == 9 {
            State::DfuUploadIdle
        } else if code == 10 {
            State::DfuError
        } else {
            State::Unknown
        }
    }

    /// The state's name, as messages show it.
    pub open spec fn spec_name(self) -> Seq<char> {
        match self {
            State::AppIdle => "App Idle"@,
            State::AppDetach => "App detach"@,
            State::DfuIdle => "Dfu Idle"@,
            State::DfuDownloadSync => "Dfu download sync"@,
            State::DfuDownloadBusy => "Dfu download busy"@,
            State::DfuDownloadIdle => "Dfu download idle"@,
            State::DfuManifestSync => "Dfu manifest sync"@,
            State::DfuManifest => "Dfu manifest"@,
            State::DfuManifestWaitReset => "Dfu manifest wait reset"@,
            State::DfuUploadIdle => "Dfu Upload idle"@,
            State::DfuError => "Dfu error"@,
            State::Unknown => "Unknown state"@,
        }
    }

    /// The state's name, as messages show it.
    pub fn name(self) -> (name: &'static str)
        ensures
            name@ == self.spec_name(),
    {
        match self {
            State::AppIdle => "App Idle",
            State::AppDetach => "App detach",
            State::DfuIdle => "Dfu Idle",
            State::DfuDownloadSync => "Dfu download sync",
            State::DfuDownloadBusy => "Dfu download busy",
            State::DfuDownloadIdle => "Dfu download idle",
            State::DfuManifestSync => "Dfu manifest sync",
            State::DfuManifest => "Dfu manifest",
            State::DfuManifestWaitReset => "Dfu manifest wait reset",
            State::DfuUploadIdle => "Dfu Upload idle",
            State::DfuError => "Dfu error",
            State::Unknown => "Unknown state",
        }
    }

    /// Encodes the state as its wire byte; `Unknown` becomes 255.
    #[verifier::when_used_as_spec(spec_code)]
    pub fn code(self) -> (code: u8)
        ensures
            code == self.spec_code(),
    {
        match self {
            State::AppIdle => 0,
            State::AppDetach => 1,
            State::DfuIdle => 2,
            State::DfuDownloadSync => 3,
            State::DfuDownloadBusy => 4,
            State::DfuDownloadIdle => 5,
            State::DfuManifestSync => 6,
            State::DfuManifest => 7,
            State::DfuManifestWaitReset => 8,
            State::DfuUploadIdle => 9,
            State::DfuError => 10,
            State::Unknown => 255,
        }
    }

    /// Decodes a wire byte; every byte above 10 is `Unknown`.
    #[verifier::when_used_as_spec(spec_from_code)]
    pub fn from_code(code: u8) -> (state: State)
        ensures
            state == State::spec_from_code(code),
    {
        match code {
            0 => State::AppIdle,
            1 => State::AppDetach,
            2 => State::DfuIdle,
            3 => State::DfuDownloadSync,
            4 => State::DfuDownloadBusy,
            5 => State::DfuDownloadIdle,
            6 => State::DfuManifestSync,
            7 => State::DfuManifest,
            8 => State::DfuManifestWaitReset,
            9 => State::DfuUploadIdle,
            10 => State::DfuError,
            _ => State::Unknown,
        }
    }
}

impl From<u8> for State {
    fn from(code: u8) -> (state: State) {
        State::from_code(code)
    }
}

impl vstd::std_specs::convert::FromSpecImpl<u8> for State {
    open spec fn obeys_from_spec() -> bool {
        true
    }

    open spec fn from_spec(code: u8) -> State {
        State::spec_from_code(code)
    }
}

impl From<&State> for u8 {
    fn from(state: &State) -> (code: u8) {
        state.code()
    }
}

impl vstd::std_specs::convert::FromSpecImpl<&State> for u8 {
    open spec fn obeys_from_spec() -> bool {
        true
    }

    open spec fn from_spec(state: &State) -> u8 {
        state.spec_code()
    }
}

/// Decoding a byte and encoding the state again gives the byte back when it
/// names a state, and 255 for every other byte.
pub proof fn lemma_state_code_round_trip(code: u8)
    ensures
        code <= 10 ==> State::spec_from_code(code).spec_code() == code,
        code > 10 ==> State::spec_from_code(code).spec_code() == 255,
        State::spec_from_code(code) == State::Unknown <==> code > 10,
{
}

/// Encoding a state and decoding the byte gives the state back.
pub proof fn lemma_state_round_trip(state: State)
    ensures
        State::spec_from_code(state.spec_code()) == state,
{
}

} // verus!

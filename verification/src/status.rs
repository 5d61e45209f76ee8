//! The six-byte status block that a device returns to GET_STATUS.

use crate::error::{agrees, Error, ErrorView};
use crate::state::State;
use vstd::prelude::*;

verus! {

/// Length of a status block on the wire.
pub const STATUS_LENGTH: usize = 6;

/// A decoded status block.
#[derive(Debug, Clone, Copy, PartialEq, Eq, Structural)]
pub struct Status {
    /// Status code; 0 is "no error".
    pub status: u8,
    /// Milliseconds the device asks the host to wait before the next request.
    pub poll_timeout: usize,
    /// The device's state, as its wire byte.
    pub state: u8,
    /// Index of a string descriptor that describes the status.
    pub string_index: u8,
}

impl Default for Status {
    fn default() -> (status: Status)
        ensures
            status == (Status { status: 0, poll_timeout: 0, state: 0, string_index: 0 }),
    {
        Status { status: 0, poll_timeout: 0, state: 0, string_index: 0 }
    }
}

impl Status {
    /// The status block that six bytes stand for. The three bytes of the
    /// poll timeout are read with the most significant byte first.
    pub open spec fn decoded(data: Seq<u8>) -> Status
        recommends
            data.len() == STATUS_LENGTH,
    {
        Status {
            status: data[0],
            poll_timeout: (data[1] as int * 0x1_0000 + data[2] as int * 0x100
                + data[3] as int) as usize,
            state: data[4],
            string_index: data[5],
        }
    }

    /// The outcome of reading what a GET_STATUS transfer returned.
    pub open spec fn spec_get(data: Seq<u8>) -> Result<Status, ErrorView> {
        if data.len() == STATUS_LENGTH {
            Ok(Status::decoded(data))
        } else {
            Err(ErrorView::InvalidControlResponse("Status length was not 6"@))
        }
    }

    /// Reads a status block out of the bytes that a GET_STATUS transfer
    /// returned. Anything but exactly six bytes is an invalid response.
    pub fn get(data: &[u8]) -> (status: Result<Status, Error>)
        ensures
            agrees(status, Status::spec_get(data@)),
    {
        if data.len() != STATUS_LENGTH {
            return Err(Error::InvalidControlResponse("Status length was not 6".to_owned()));
        }
        let high: usize = data[1] as usize;
        let middle: usize = data[2] as usize;
        let low: usize = data[3] as usize;
        Ok(
            Status {
                status: data[0],
                poll_timeout: high * 0x1_0000 + middle * 0x100 + low,
                state: data[4],
                string_index: data[5],
            },
        )
    }

    /// The device's state.
    pub open spec fn spec_state(self) -> State {
        State::spec_from_code(self.state)
    }

    /// The device's state; a byte that names none is `Unknown`.
    #[verifier::when_used_as_spec(spec_state)]
    pub fn state(self) -> (state: State)
        ensures
            state == self.spec_state(),
    {
        State::from_code(self.state)
    }
}

/// A status block of six bytes always decodes, field by field, and the poll
/// timeout stays below 2^24.
pub proof fn lemma_status_decodes(data: Seq<u8>)
    requires
        data.len() == STATUS_LENGTH,
    ensures
        Status::spec_get(data) == Ok::<Status, ErrorView>(Status::decoded(data)),
        Status::decoded(data).status == data[0],
        Status::decoded(data).poll_timeout == data[1] * 0x1_0000 + data[2] * 0x100 + data[3],
        Status::decoded(data).poll_timeout < 0x100_0000,
        Status::decoded(data).state == data[4],
        Status::decoded(data).string_index == data[5],
{
}

/// Decoding a status block and encoding its state again gives the state
/// byte back when it names a state, and 255 for every other byte.
pub proof fn lemma_status_state_round_trip(data: Seq<u8>)
    requires
        data.len() == STATUS_LENGTH,
    ensures
        data[4] <= 10 ==> Status::decoded(data).spec_state().spec_code() == data[4],
        data[4] > 10 ==> Status::decoded(data).spec_state().spec_code() == 255,
{
}

} // verus!

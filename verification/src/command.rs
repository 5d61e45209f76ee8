//! The DfuSe commands that travel in the payload of a download request.

use crate::error::{agrees, Error, ErrorView};
use vstd::prelude::*;

verus! {

/// Command byte of "get commands".
pub const GET_COMMANDS: u8 = 0x00;

/// Command byte of "set address pointer".
pub const SET_ADDRESS: u8 = 0x21;

/// Command byte of "erase", for one page and for the whole flash.
pub const ERASE: u8 = 0x41;

/// Command byte of "read unprotect".
pub const READ_UNPROTECT: u8 = 0x92;

/// A DfuSe command.
#[derive(Debug, Clone, Copy, PartialEq, Eq, Structural)]
pub enum DfuseCommand {
    /// Asks which commands the device supports; it is sent as an upload,
    /// never as a download.
    GetCommands,
    /// Sets the address that the next transfer starts at.
    SetAddress(u32),
    /// Erases the flash page that holds the address.
    ErasePage(u32),
    /// Erases the whole flash.
    MassErase,
    /// Removes the read protection, which erases the flash.
    ReadUnprotect,
}

/// The four bytes of an address, least significant first.
pub open spec fn le_bytes(address: u32) -> Seq<u8> {
    seq![
        (address % 0x100) as u8,
        (address / 0x100 % 0x100) as u8,
        (address / 0x1_0000 % 0x100) as u8,
        (address / 0x100_0000) as u8,
    ]
}

impl DfuseCommand {
    /// The payload that carries the command: its byte, followed for the two
    /// commands that take an address by the address, least significant byte
    /// first.
    pub open spec fn spec_bytes(self) -> Seq<u8> {
        match self {
            DfuseCommand::GetCommands => seq![GET_COMMANDS],
            DfuseCommand::SetAddress(address) => seq![SET_ADDRESS] + le_bytes(address),
            DfuseCommand::ErasePage(address) => seq![ERASE] + le_bytes(address),
            DfuseCommand::MassErase => seq![ERASE],
            DfuseCommand::ReadUnprotect => seq![READ_UNPROTECT],
        }
    }

    /// Encodes the command as the payload of a download request.
    pub fn to_bytes(self) -> (bytes: Vec<u8>)
        ensures
            bytes@ == self.spec_bytes(),
    {
        match self {
            DfuseCommand::GetCommands => {
                let bytes: Vec<u8> = vec![GET_COMMANDS];
                assert(bytes@ =~= self.spec_bytes());
                bytes
            },
            DfuseCommand::SetAddress(address) => with_address(SET_ADDRESS, address),
            DfuseCommand::ErasePage(address) => with_address(ERASE, address),
            DfuseCommand::MassErase => {
                let bytes: Vec<u8> = vec![ERASE];
                assert(bytes@ =~= self.spec_bytes());
                bytes
            },
            DfuseCommand::ReadUnprotect => {
                let bytes: Vec<u8> = vec![READ_UNPROTECT];
                assert(bytes@ =~= self.spec_bytes());
                bytes
            },
        }
    }

    /// The command that a byte in the device's list of commands names. The
    /// list gives no addresses, so the two commands that take one come with
    /// address 0, and the erase byte names the page erase.
    pub open spec fn spec_from_byte(byte: u8) -> Result<DfuseCommand, ErrorView> {
        if byte == GET_COMMANDS {
            Ok(DfuseCommand::GetCommands)
        } else if byte == SET_ADDRESS {
            Ok(DfuseCommand::SetAddress(0))
        } else if byte == ERASE {
            Ok(DfuseCommand::ErasePage(0))
        } else if byte == READ_UNPROTECT {
            Ok(DfuseCommand::ReadUnprotect)
        } else {
            Err(ErrorView::UnknownCommandByte(byte))
        }
    }

    /// Decodes one byte of the device's list of commands; a byte that names
    /// no command is `UnknownCommandByte`.
    pub fn from_byte(byte: u8) -> (command: Result<DfuseCommand, Error>)
        ensures
            agrees(command, DfuseCommand::spec_from_byte(byte)),
    {
        if byte == GET_COMMANDS {
            Ok(DfuseCommand::GetCommands)
        } else if byte == SET_ADDRESS {
            Ok(DfuseCommand::SetAddress(0))
        } else if byte == ERASE {
            Ok(DfuseCommand::ErasePage(0))
        } else if byte == READ_UNPROTECT {
            Ok(DfuseCommand::ReadUnprotect)
        } else {
            Err(Error::UnknownCommandByte(byte))
        }
    }
}

/// The first index from `start` on at which a reply holds a byte that
/// names no command.
pub open spec fn first_unknown(reply: Seq<u8>, start: int) -> Option<int>
    decreases reply.len() - start,
{
    if start >= reply.len() {
        None
    } else if DfuseCommand::spec_from_byte(reply[start]) is Err {
        Some(start)
    } else {
        first_unknown(reply, start + 1)
    }
}

/// The commands that a reply to "get commands" lists. The reply starts with
/// the byte of "get commands" itself; each byte after it names one command.
/// A reply that is empty or starts otherwise is an invalid response, and
/// the first byte that names no command an `UnknownCommandByte`.
pub open spec fn spec_list(reply: Seq<u8>) -> Result<Seq<DfuseCommand>, ErrorView> {
    if reply.len() == 0 || reply[0] != GET_COMMANDS {
        Err(ErrorView::InvalidControlResponse("Get command"@))
    } else {
        match first_unknown(reply, 1) {
            Some(at) => Err(ErrorView::UnknownCommandByte(reply[at])),
            None => Ok(
                Seq::new(
                    (reply.len() - 1) as nat,
                    |i: int| DfuseCommand::spec_from_byte(reply[i + 1])->Ok_0,
                ),
            ),
        }
    }
}

/// Decodes the reply to "get commands" into the commands that the device
/// supports.
pub fn list(reply: &Vec<u8>) -> (commands: Result<Vec<DfuseCommand>, Error>)
    ensures
        match (commands, spec_list(reply@)) {
            (Ok(known), Ok(wanted)) => known@ == wanted,
            (Err(err), Err(wanted)) => err@ == wanted,
            _ => false,
        },
{
    if reply.len() == 0 || reply[0] != GET_COMMANDS {
        return Err(Error::InvalidControlResponse("Get command".to_owned()));
    }
    let mut commands: Vec<DfuseCommand> = Vec::new();
    let mut i: usize = 1;
    while i < reply.len()
        invariant
            1 <= i <= reply@.len(),
            reply@[0] == GET_COMMANDS,
            first_unknown(reply@, 1) == first_unknown(reply@, i as int),
            commands@ =~= Seq::new(
                (i - 1) as nat,
                |j: int| DfuseCommand::spec_from_byte(reply@[j + 1])->Ok_0,
            ),
        decreases reply@.len() - i,
    {
        match DfuseCommand::from_byte(reply[i]) {
            Ok(command) => {
                commands.push(command);
            },
            Err(err) => {
                assert(first_unknown(reply@, i as int) == Some(i as int));
                return Err(err);
            },
        }
        i += 1;
    }
    Ok(commands)
}

proof fn lemma_first_unknown(reply: Seq<u8>, start: int)
    requires
        0 <= start,
    ensures
        match first_unknown(reply, start) {
            Some(at) => {
                &&& start <= at < reply.len()
                &&& DfuseCommand::spec_from_byte(reply[at]) is Err
                &&& forall|j: int| start <= j < at ==> DfuseCommand::spec_from_byte(reply[j]) is Ok
            },
            None => forall|j: int|
                start <= j < reply.len() ==> DfuseCommand::spec_from_byte(reply[j]) is Ok,
        },
    decreases reply.len() - start,
{
    if start < reply.len() && DfuseCommand::spec_from_byte(reply[start]) is Ok {
        lemma_first_unknown(reply, start + 1);
    }
}

/// A reply that starts with the byte of "get commands" and holds known
/// command bytes only lists one command for each byte after the first, in
/// the order of the bytes.
pub proof fn lemma_list_of_known(reply: Seq<u8>)
    requires
        reply.len() > 0,
        reply[0] == GET_COMMANDS,
        forall|j: int| 1 <= j < reply.len() ==> DfuseCommand::spec_from_byte(reply[j]) is Ok,
    ensures
        spec_list(reply) matches Ok(commands) && commands.len() == reply.len() - 1 && forall|
            i: int,
        |
            0 <= i < commands.len() ==> Ok::<DfuseCommand, ErrorView>(#[trigger] commands[i])
                == DfuseCommand::spec_from_byte(reply[i + 1]),
{
    lemma_first_unknown(reply, 1);
}

/// A reply with a byte that names no command is refused with the first
/// such byte.
pub proof fn lemma_list_of_unknown(reply: Seq<u8>, at: int)
    requires
        reply.len() > 0,
        reply[0] == GET_COMMANDS,
        1 <= at < reply.len(),
        DfuseCommand::spec_from_byte(reply[at]) is Err,
        forall|j: int| 1 <= j < at ==> DfuseCommand::spec_from_byte(reply[j]) is Ok,
    ensures
        spec_list(reply) == Err::<Seq<DfuseCommand>, ErrorView>(
            ErrorView::UnknownCommandByte(reply[at]),
        ),
{
    lemma_first_unknown(reply, 1);
}

/// A command byte followed by an address, least significant byte first.
fn with_address(command: u8, address: u32) -> (bytes: Vec<u8>)
    ensures
        bytes@ == seq![command] + le_bytes(address),
{
    let first: u8 = (address % 0x100) as u8;
    let second: u8 = (address / 0x100 % 0x100) as u8;
    let third: u8 = (address / 0x1_0000 % 0x100) as u8;
    let fourth: u8 = (address / 0x100_0000) as u8;
    let bytes: Vec<u8> = vec![command, first, second, third, fourth];
    assert(bytes@ =~= seq![command] + le_bytes(address));
    bytes
}

/// The address bytes of a payload put together again give the address: the
/// encoding loses nothing.
pub proof fn lemma_le_bytes_round_trip(address: u32)
    ensures
        le_bytes(address).len() == 4,
        le_bytes(address)[0] + le_bytes(address)[1] * 0x100 + le_bytes(address)[2] * 0x1_0000
            + le_bytes(address)[3] * 0x100_0000 == address,
{
}

/// A payload is one byte long, or five for the commands that take an
/// address, and starts with the command's byte.
pub proof fn lemma_command_payload_shape(command: DfuseCommand)
    ensures
        command.spec_bytes().len() == match command {
            DfuseCommand::SetAddress(_) | DfuseCommand::ErasePage(_) => 5nat,
            _ => 1nat,
        },
        command.spec_bytes()[0] == match command {
            DfuseCommand::GetCommands => GET_COMMANDS,
            DfuseCommand::SetAddress(_) => SET_ADDRESS,
            DfuseCommand::ErasePage(_) | DfuseCommand::MassErase => ERASE,
            DfuseCommand::ReadUnprotect => READ_UNPROTECT,
        },
{
}

} // verus!

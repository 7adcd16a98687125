//! The operation that a frame carries.

use crate::error::ProtoError;
use crate::proto::le_bytes::{
    advance, get_u16, lemma_le_round_trips, put_u16, u16_at, u16_to_le,
};
use crate::proto::proto_traits::{ReadFrom, WriteTo};
use vstd::prelude::*;

verus! {

/// The command of a frame, which says what shape its payload has. `Invalid`
/// stands for every code that is not assigned.
#[derive(Copy, Clone, Debug, PartialEq, Eq, Structural)]
pub enum CommandID {
    Invalid,
    ReadDeviceInfo,
    Read,
    Write,
    ReadState,
    WriteControl,
    AddDeviceNotification,
    DeleteDeviceNotification,
    DeviceNotification,
    ReadWrite,
}

impl View for CommandID {
    type V = CommandID;

    open spec fn view(&self) -> CommandID {
        *self
    }
}

impl CommandID {
    /// The code of a command.
    pub open spec fn code(self) -> u16 {
        match self {
            CommandID::Invalid => 0,
            CommandID::ReadDeviceInfo => 1,
            CommandID::Read => 2,
            CommandID::Write => 3,
            CommandID::ReadState => 4,
            CommandID::WriteControl => 5,
            CommandID::AddDeviceNotification => 6,
            CommandID::DeleteDeviceNotification => 7,
            CommandID::DeviceNotification => 8,
            CommandID::ReadWrite => 9,
        }
    }

    /// The command of a code; a code that is not assigned is `Invalid`.
    pub open spec fn of_code(code: u16) -> CommandID {
        match code {
            1 => CommandID::ReadDeviceInfo,
            2 => CommandID::Read,
            3 => CommandID::Write,
            4 => CommandID::ReadState,
            5 => CommandID::WriteControl,
            6 => CommandID::AddDeviceNotification,
            7 => CommandID::DeleteDeviceNotification,
            8 => CommandID::DeviceNotification,
            9 => CommandID::ReadWrite,
            _ => CommandID::Invalid,
        }
    }

    /// The code of the command.
    pub fn as_u16(&self) -> (code: u16)
        ensures
            code == self.code(),
    {
        match self {
            CommandID::Invalid => 0,
            CommandID::ReadDeviceInfo => 1,
            CommandID::Read => 2,
            CommandID::Write => 3,
            CommandID::ReadState => 4,
            CommandID::WriteControl => 5,
            CommandID::AddDeviceNotification => 6,
            CommandID::DeleteDeviceNotification => 7,
            CommandID::DeviceNotification => 8,
            CommandID::ReadWrite => 9,
        }
    }
}

impl CommandID {
    /// The value that a code stands for.
    pub fn from_code(code: u16) -> (value: CommandID)
        ensures
            value == CommandID::of_code(code),
    {
        match code {
            0 => CommandID::Invalid,
            1 => CommandID::ReadDeviceInfo,
            2 => CommandID::Read,
            3 => CommandID::Write,
            4 => CommandID::ReadState,
            5 => CommandID::WriteControl,
            6 => CommandID::AddDeviceNotification,
            7 => CommandID::DeleteDeviceNotification,
            8 => CommandID::DeviceNotification,
            9 => CommandID::ReadWrite,
            _ => CommandID::Invalid,
        }
    }
}

impl From<u16> for CommandID {
    fn from(code: u16) -> (value: CommandID) {
        CommandID::from_code(code)
    }
}

impl vstd::std_specs::convert::FromSpecImpl<u16> for CommandID {
    open spec fn obeys_from_spec() -> bool {
        true
    }

    open spec fn from_spec(code: u16) -> CommandID {
        CommandID::of_code(code)
    }
}

impl WriteTo for CommandID {
    open spec fn wire(v: CommandID) -> Seq<u8> {
        u16_to_le(v.code())
    }

    fn write_to(&self, wtr: &mut Vec<u8>) -> (res: Result<(), ProtoError>) {
        put_u16(wtr, self.as_u16());
        Ok(())
    }
}

impl ReadFrom for CommandID {
    open spec fn parse(bytes: Seq<u8>) -> Result<(CommandID, nat), ProtoError> {
        if bytes.len() < 2 {
            Err(ProtoError::UnexpectedEof)
        } else {
            Ok((CommandID::of_code(u16_at(bytes, 0)), 2))
        }
    }

    fn read_from(read: &mut &[u8]) -> (res: Result<Self, ProtoError>) {
        if read.len() < 2 {
            return Err(ProtoError::UnexpectedEof);
        }
        let value = CommandID::from_code(get_u16(*read, 0));
        advance(read, 2);
        Ok(value)
    }
}

/// Every command is the command of its own code, every assigned code is the
/// code of its command, and every other code is the invalid command.
pub proof fn lemma_command_code_bijection(value: CommandID, code: u16)
    ensures
        CommandID::of_code(value.code()) == value,
        code < 10 ==> CommandID::of_code(code).code() == code,
        code >= 10 ==> CommandID::of_code(code) == CommandID::Invalid,
{
}

/// A command that is written and read again is the same command, whatever
/// follows it in the input.
pub proof fn lemma_command_round_trip(value: CommandID, rest: Seq<u8>)
    ensures
        CommandID::wire(value).len() == 2,
        CommandID::parse(CommandID::wire(value) + rest) == Ok::<(CommandID, nat), ProtoError>(
            (value, 2),
        ),
{
    lemma_le_round_trips();
    assert((CommandID::wire(value) + rest).subrange(0, 2) =~= u16_to_le(value.code()));
}

} // verus!

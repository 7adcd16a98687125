//! The two directions of the codec.

use crate::error::ProtoError;
use crate::proto::command_id::CommandID;
use vstd::prelude::*;

verus! {

/// A value that has a wire image.
pub trait WriteTo: View {
    /// The bytes that stand for a value.
    spec fn wire(v: Self::V) -> Seq<u8>;

    /// Appends the wire image of `self` to `wtr`.
    fn write_to(&self, wtr: &mut Vec<u8>) -> (res: Result<(), ProtoError>)
        ensures
            res is Ok,
            final(wtr)@ == old(wtr)@ + Self::wire(self@),
    ;
}

/// A value that can be decoded from the front of a byte sequence.
pub trait ReadFrom: Sized + View {
    /// The value at the front of `bytes` and the number of bytes it takes,
    /// or the reason why there is none.
    spec fn parse(bytes: Seq<u8>) -> Result<(Self::V, nat), ProtoError>;

    /// Decodes a value from the front of `read` and advances `read` past it.
    /// A failed read leaves `read` where it was.
    fn read_from(read: &mut &[u8]) -> (res: Result<Self, ProtoError>)
        ensures
            match res {
                Ok(v) => Self::parse(old(read)@) matches Ok((m, n)) && v@ == m && n <= old(
                    read,
                )@.len() && final(read)@ == old(read)@.skip(n as int),
                Err(e) => Self::parse(old(read)@) matches Err(pe) && pe == e && final(read)@
                    == old(read)@,
            },
    ;
}

/// Decodes a value from the front of `bytes` and lets the rest be.
pub fn read_front<T: ReadFrom>(bytes: &[u8]) -> (res: Result<T, ProtoError>)
    ensures
        match res {
            Ok(v) => T::parse(bytes@) matches Ok((m, _)) && v@ == m,
            Err(e) => T::parse(bytes@) matches Err(pe) && pe == e,
        },
{
    let mut read: &[u8] = bytes;
    T::read_from(&mut read)
}

/// A payload that knows the command it belongs to.
pub trait Command {
    /// The command that a payload belongs to.
    spec fn command(&self) -> CommandID;

    fn command_id(&self) -> (command: CommandID)
        ensures
            command == self.command(),
    ;
}

} // verus!

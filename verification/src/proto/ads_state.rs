//! The states of a device.

use crate::error::ProtoError;
use crate::proto::le_bytes::{
    advance, get_u16, lemma_le_round_trips, put_u16, u16_at, u16_to_le,
};
use crate::proto::proto_traits::{ReadFrom, WriteTo};
use vstd::prelude::*;

verus! {

/// The state of a device. The invalid state stands for every code that is
/// not assigned.
#[derive(Copy, Clone, Debug, PartialEq, Eq, Structural)]
pub enum AdsState {
    AdsStateInvalid,
    AdsStateIdle,
    AdsStateReset,
    AdsStateInit,
    AdsStateStart,
    AdsStateRun,
    AdsStateStop,
    AdsStateSaveCFG,
    AdsStateLoadCFG,
    AdsStatePowerFailure,
    AdsStatePowerGood,
    AdsStateError,
    AdsStateShutDown,
    AdsStateSuspend,
    AdsStateResume,
    AdsStateConfig,
    AdsStateReconfig,
}

impl View for AdsState {
    type V = AdsState;

    open spec fn view(&self) -> AdsState {
        *self
    }
}

impl AdsState {
    /// The code of a state.
    pub open spec fn code(self) -> u16 {
        match self {
            AdsState::AdsStateInvalid => 0,
            AdsState::AdsStateIdle => 1,
            AdsState::AdsStateReset => 2,
            AdsState::AdsStateInit => 3,
            AdsState::AdsStateStart => 4,
            AdsState::AdsStateRun => 5,
            AdsState::AdsStateStop => 6,
            AdsState::AdsStateSaveCFG => 7,
            AdsState::AdsStateLoadCFG => 8,
            AdsState::AdsStatePowerFailure => 9,
            AdsState::AdsStatePowerGood => 10,
            AdsState::AdsStateError => 11,
            AdsState::AdsStateShutDown => 12,
            AdsState::AdsStateSuspend => 13,
            AdsState::AdsStateResume => 14,
            AdsState::AdsStateConfig => 15,
            AdsState::AdsStateReconfig => 16,
        }
    }

    /// The state of a code; a code that is not assigned is the invalid state.
    pub open spec fn of_code(code: u16) -> AdsState {
        match code {
            1 => AdsState::AdsStateIdle,
            2 => AdsState::AdsStateReset,
            3 => AdsState::AdsStateInit,
            4 => AdsState::AdsStateStart,
            5 => AdsState::AdsStateRun,
            6 => AdsState::AdsStateStop,
            7 => AdsState::AdsStateSaveCFG,
            8 => AdsState::AdsStateLoadCFG,
            9 => AdsState::AdsStatePowerFailure,
            10 => AdsState::AdsStatePowerGood,
            11 => AdsState::AdsStateError,
            12 => AdsState::AdsStateShutDown,
            13 => AdsState::AdsStateSuspend,
            14 => AdsState::AdsStateResume,
            15 => AdsState::AdsStateConfig,
            16 => AdsState::AdsStateReconfig,
            _ => AdsState::AdsStateInvalid,
        }
    }

    /// The code of the state.
    pub fn as_u16(&self) -> (code: u16)
        ensures
            code == self.code(),
    {
        match self {
            AdsState::AdsStateInvalid => 0,
            AdsState::AdsStateIdle => 1,
            AdsState::AdsStateReset => 2,
            AdsState::AdsStateInit => 3,
            AdsState::AdsStateStart => 4,
            AdsState::AdsStateRun => 5,
            AdsState::AdsStateStop => 6,
            AdsState::AdsStateSaveCFG => 7,
            AdsState::AdsStateLoadCFG => 8,
            AdsState::AdsStatePowerFailure => 9,
            AdsState::AdsStatePowerGood => 10,
            AdsState::AdsStateError => 11,
            AdsState::AdsStateShutDown => 12,
            AdsState::AdsStateSuspend => 13,
            AdsState::AdsStateResume => 14,
            AdsState::AdsStateConfig => 15,
            AdsState::AdsStateReconfig => 16,
        }
    }
}

impl AdsState {
    /// The value that a code stands for.
    pub fn from_code(code: u16) -> (value: AdsState)
        ensures
            value == AdsState::of_code(code),
    {
        match code {
            0 => AdsState::AdsStateInvalid,
            1 => AdsState::AdsStateIdle,
            2 => AdsState::AdsStateReset,
            3 => AdsState::AdsStateInit,
            4 => AdsState::AdsStateStart,
            5 => AdsState::AdsStateRun,
            6 => AdsState::AdsStateStop,
            7 => AdsState::AdsStateSaveCFG,
            8 => AdsState::AdsStateLoadCFG,
            9 => AdsState::AdsStatePowerFailure,
            10 => AdsState::AdsStatePowerGood,
            11 => AdsState::AdsStateError,
            12 => AdsState::AdsStateShutDown,
            13 => AdsState::AdsStateSuspend,
            14 => AdsState::AdsStateResume,
            15 => AdsState::AdsStateConfig,
            16 => AdsState::AdsStateReconfig,
            _ => AdsState::AdsStateInvalid,
        }
    }
}

impl From<u16> for AdsState {
    fn from(code: u16) -> (value: AdsState) {
        AdsState::from_code(code)
    }
}

impl vstd::std_specs::convert::FromSpecImpl<u16> for AdsState {
    open spec fn obeys_from_spec() -> bool {
        true
    }

    open spec fn from_spec(code: u16) -> AdsState {
        AdsState::of_code(code)
    }
}

impl WriteTo for AdsState {
    open spec fn wire(v: AdsState) -> Seq<u8> {
        u16_to_le(v.code())
    }

    fn write_to(&self, wtr: &mut Vec<u8>) -> (res: Result<(), ProtoError>) {
        put_u16(wtr, self.as_u16());
        Ok(())
    }
}

impl ReadFrom for AdsState {
    open spec fn parse(bytes: Seq<u8>) -> Result<(AdsState, nat), ProtoError> {
        if bytes.len() < 2 {
            Err(ProtoError::UnexpectedEof)
        } else {
            Ok((AdsState::of_code(u16_at(bytes, 0)), 2))
        }
    }

    fn read_from(read: &mut &[u8]) -> (res: Result<Self, ProtoError>) {
        if read.len() < 2 {
            return Err(ProtoError::UnexpectedEof);
        }
        let value = AdsState::from_code(get_u16(*read, 0));
        advance(read, 2);
        Ok(value)
    }
}

/// Every state is the state of its own code, every assigned code is the code
/// of its state, and every other code is the invalid state.
pub proof fn lemma_state_code_bijection(value: AdsState, code: u16)
    ensures
        AdsState::of_code(value.code()) == value,
        code < 17 ==> AdsState::of_code(code).code() == code,
        code >= 17 ==> AdsState::of_code(code) == AdsState::AdsStateInvalid,
{
}

/// A state that is written and read again is the same state, whatever
/// follows it in the input.
pub proof fn lemma_state_round_trip(value: AdsState, rest: Seq<u8>)
    ensures
        AdsState::wire(value).len() == 2,
        AdsState::parse(AdsState::wire(value) + rest) == Ok::<(AdsState, nat), ProtoError>(
            (value, 2),
        ),
{
    lemma_le_round_trips();
    assert((AdsState::wire(value) + rest).subrange(0, 2) =~= u16_to_le(value.code()));
}

} // verus!

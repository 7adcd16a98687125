//! How a device notification is transmitted.

use crate::error::ProtoError;
use crate::proto::le_bytes::{
    advance, get_u32, lemma_le_round_trips, put_u32, u32_at, u32_to_le,
};
use crate::proto::proto_traits::{ReadFrom, WriteTo};
use vstd::prelude::*;

verus! {

/// When a device sends a notification. `NoTrans` stands for every code that
/// is not assigned.
#[derive(Copy, Clone, Debug, PartialEq, Eq, Structural)]
pub enum AdsTransMode {
    /// No transmission.
    NoTrans,
    ClientCylcle,
    ClientOnChange,
    Cyclic,
    OnChange,
    CyclicInContext,
    OnChangeInContext,
}

impl View for AdsTransMode {
    type V = AdsTransMode;

    open spec fn view(&self) -> AdsTransMode {
        *self
    }
}

impl AdsTransMode {
    /// The code of a transmission mode.
    pub open spec fn code(self) -> u32 {
        match self {
            AdsTransMode::NoTrans => 0,
            AdsTransMode::ClientCylcle => 1,
            AdsTransMode::ClientOnChange => 2,
            AdsTransMode::Cyclic => 3,
            AdsTransMode::OnChange => 4,
            AdsTransMode::CyclicInContext => 5,
            AdsTransMode::OnChangeInContext => 6,
        }
    }

    /// The transmission mode of a code; a code that is not assigned is `NoTrans`.
    pub open spec fn of_code(code: u32) -> AdsTransMode {
        match code {
            1 => AdsTransMode::ClientCylcle,
            2 => AdsTransMode::ClientOnChange,
            3 => AdsTransMode::Cyclic,
            4 => AdsTransMode::OnChange,
            5 => AdsTransMode::CyclicInContext,
            6 => AdsTransMode::OnChangeInContext,
            _ => AdsTransMode::NoTrans,
        }
    }

    /// The code of the transmission mode.
    pub fn as_u32(&self) -> (code: u32)
        ensures
            code == self.code(),
    {
        match self {
            AdsTransMode::NoTrans => 0,
            AdsTransMode::ClientCylcle => 1,
            AdsTransMode::ClientOnChange => 2,
            AdsTransMode::Cyclic => 3,
            AdsTransMode::OnChange => 4,
            AdsTransMode::CyclicInContext => 5,
            AdsTransMode::OnChangeInContext => 6,
        }
    }
}

impl AdsTransMode {
    /// The value that a code stands for.
    pub fn from_code(code: u32) -> (value: AdsTransMode)
        ensures
            value == AdsTransMode::of_code(code),
    {
        match code {
            0 => AdsTransMode::NoTrans,
            1 => AdsTransMode::ClientCylcle,
            2 => AdsTransMode::ClientOnChange,
            3 => AdsTransMode::Cyclic,
            4 => AdsTransMode::OnChange,
            5 => AdsTransMode::CyclicInContext,
            6 => AdsTransMode::OnChangeInContext,
            _ => AdsTransMode::NoTrans,
        }
    }
}

impl From<u32> for AdsTransMode {
    fn from(code: u32) -> (value: AdsTransMode) {
        AdsTransMode::from_code(code)
    }
}

impl vstd::std_specs::convert::FromSpecImpl<u32> for AdsTransMode {
    open spec fn obeys_from_spec() -> bool {
        true
    }

    open spec fn from_spec(code: u32) -> AdsTransMode {
        AdsTransMode::of_code(code)
    }
}

impl WriteTo for AdsTransMode {
    open spec fn wire(v: AdsTransMode) -> Seq<u8> {
        u32_to_le(v.code())
    }

    fn write_to(&self, wtr: &mut Vec<u8>) -> (res: Result<(), ProtoError>) {
        put_u32(wtr, self.as_u32());
        Ok(())
    }
}

impl ReadFrom for AdsTransMode {
    open spec fn parse(bytes: Seq<u8>) -> Result<(AdsTransMode, nat), ProtoError> {
        if bytes.len() < 4 {
            Err(ProtoError::UnexpectedEof)
        } else {
            Ok((AdsTransMode::of_code(u32_at(bytes, 0)), 4))
        }
    }

    fn read_from(read: &mut &[u8]) -> (res: Result<Self, ProtoError>) {
        if read.len() < 4 {
            return Err(ProtoError::UnexpectedEof);
        }
        let value = AdsTransMode::from_code(get_u32(*read, 0));
        advance(read, 4);
        Ok(value)
    }
}

/// Every mode is the mode of its own code, every assigned code is the code of
/// its mode, and every other code is `NoTrans`.
pub proof fn lemma_trans_mode_code_bijection(value: AdsTransMode, code: u32)
    ensures
        AdsTransMode::of_code(value.code()) == value,
        code < 7 ==> AdsTransMode::of_code(code).code() == code,
        code >= 7 ==> AdsTransMode::of_code(code) == AdsTransMode::NoTrans,
{
}

/// A transmission mode that is written and read again is the same mode, whatever
/// follows it in the input.
pub proof fn lemma_trans_mode_round_trip(value: AdsTransMode, rest: Seq<u8>)
    ensures
        AdsTransMode::wire(value).len() == 4,
        AdsTransMode::parse(AdsTransMode::wire(value) + rest)
            == Ok::<(AdsTransMode, nat), ProtoError>(
            (value, 4),
        ),
{
    lemma_le_round_trips();
    assert((AdsTransMode::wire(value) + rest).subrange(0, 4) =~= u32_to_le(value.code()));
}

} // verus!

//! The state flags of a frame: sixteen bits, three of which have a meaning.

use crate::error::ProtoError;
use crate::proto::le_bytes::{
    advance, get_u16, lemma_le_round_trips, put_u16, u16_at, u16_to_le,
};
use crate::proto::proto_traits::{ReadFrom, WriteTo};
use bitfield::{Bit, BitMut};
use vstd::arithmetic::power2::{lemma2_to64, pow2};
use vstd::prelude::*;

verus! {

/// The transport that a frame travels on.
#[derive(Debug, Clone, Copy, PartialEq, Eq, Structural)]
pub enum NetProto {
    Tcp,
    Udp,
}

/// Bit 0 of the flags: the frame is a response.
pub const RESPONSE_BIT: usize = 0;

/// Bit 2 of the flags: the frame is a command of the protocol.
pub const ADS_COMMAND_BIT: usize = 2;

/// Bit 6 of the flags: the frame travels on UDP.
pub const UDP_BIT: usize = 6;

/// Whether bit `bit` of `value` is set, bit 0 being the least significant.
pub open spec fn bit_at(value: u16, bit: nat) -> bool {
    (value as nat / pow2(bit)) % 2 == 1
}

/// `value` with bit `bit` made equal to `on` and every other bit kept.
pub open spec fn with_bit(value: u16, bit: nat, on: bool) -> int {
    if bit_at(value, bit) == on {
        value as int
    } else if on {
        value + pow2(bit)
    } else {
        value - pow2(bit)
    }
}

/// Calls `bitfield::Bit::bit` on a `u16`, which tells whether the bit of that
/// number is set. The crate panics on a bit number of 16 or more.
#[verifier::external_body]
fn get_bit(value: u16, bit: usize) -> (on: bool)
    requires
        bit < 16,
    ensures
        on == bit_at(value, bit as nat),
{
    value.bit(bit)
}

/// Calls `bitfield::BitMut::set_bit` on a `u16`, which clears the bit of that
/// number and then sets it to the given value, leaving the other bits as they
/// were. The crate panics on a bit number of 16 or more.
#[verifier::external_body]
fn set_bit(value: u16, bit: usize, on: bool) -> (changed: u16)
    requires
        bit < 16,
    ensures
        changed == with_bit(value, bit as nat, on),
{
    let mut changed = value;
    changed.set_bit(bit, on);
    changed
}

/// The sixteen flag bits of a frame. They are set as a whole and not
/// changed bit by bit.
#[derive(Debug, Clone, Copy, PartialEq, Eq, Structural)]
pub struct StateFlags {
    value: u16,
}

impl View for StateFlags {
    type V = u16;

    closed spec fn view(&self) -> u16 {
        self.value
    }
}

/// The flags with the three bits as given and no other bit set.
pub open spec fn flags_value(response: bool, ads_command: bool, net_proto: NetProto) -> u16 {
    ((if response {
        1int
    } else {
        0
    }) + (if ads_command {
        4int
    } else {
        0
    }) + (if net_proto is Udp {
        64int
    } else {
        0
    })) as u16
}

impl StateFlags {
    /// The flags with the three bits as given and no other bit set.
    pub fn new(response: bool, ads_command: bool, net_proto: NetProto) -> (flags: Self)
        ensures
            flags@ == flags_value(response, ads_command, net_proto),
            bit_at(flags@, RESPONSE_BIT as nat) == response,
            bit_at(flags@, ADS_COMMAND_BIT as nat) == ads_command,
            bit_at(flags@, UDP_BIT as nat) == (net_proto is Udp),
    {
        proof {
            lemma2_to64();
        }
        let state_flags: u16 = 0;
        let state_flags = set_bit(state_flags, RESPONSE_BIT, response);
        let state_flags = set_bit(state_flags, ADS_COMMAND_BIT, ads_command);
        let state_flags = set_bit(
            state_flags,
            UDP_BIT,
            match net_proto {
                NetProto::Tcp => false,
                NetProto::Udp => true,
            },
        );
        StateFlags { value: state_flags }
    }

    /// The flags of a response: response, command of the protocol, TCP.
    pub fn resp_default() -> (flags: Self)
        ensures
            flags@ == 5,
            bit_at(flags@, RESPONSE_BIT as nat),
            bit_at(flags@, ADS_COMMAND_BIT as nat),
            !bit_at(flags@, UDP_BIT as nat),
    {
        StateFlags::new(true, true, NetProto::Tcp)
    }

    /// The flags of a request: no response, command of the protocol, TCP.
    pub fn req_default() -> (flags: Self)
        ensures
            flags@ == 4,
            !bit_at(flags@, RESPONSE_BIT as nat),
            bit_at(flags@, ADS_COMMAND_BIT as nat),
            !bit_at(flags@, UDP_BIT as nat),
    {
        StateFlags::new(false, true, NetProto::Tcp)
    }

    /// The sixteen bits.
    pub fn value(&self) -> (value: u16)
        ensures
            value == self@,
    {
        self.value
    }

    /// Whether the frame travels on TCP: bit 6 is not set.
    pub fn is_tcp(&self) -> (tcp: bool)
        ensures
            tcp == !bit_at(self@, UDP_BIT as nat),
    {
        !get_bit(self.value, UDP_BIT)
    }

    /// Whether the frame is a response: bit 0 is set.
    pub fn is_response(&self) -> (response: bool)
        ensures
            response == bit_at(self@, RESPONSE_BIT as nat),
    {
        get_bit(self.value, RESPONSE_BIT)
    }

    /// Whether the frame is a command of the protocol: bit 2 is set.
    pub fn is_ads_command(&self) -> (ads_command: bool)
        ensures
            ads_command == bit_at(self@, ADS_COMMAND_BIT as nat),
    {
        get_bit(self.value, ADS_COMMAND_BIT)
    }
}

impl StateFlags {
    /// The flags that hold the given sixteen bits. Any sixteen bits are
    /// flags, also with bits that have no meaning yet.
    pub fn from_value(value: u16) -> (flags: StateFlags)
        ensures
            flags@ == value,
    {
        StateFlags { value }
    }
}

impl From<u16> for StateFlags {
    fn from(value: u16) -> (flags: StateFlags) {
        StateFlags { value }
    }
}

impl vstd::std_specs::convert::FromSpecImpl<u16> for StateFlags {
    open spec fn obeys_from_spec() -> bool {
        true
    }

    closed spec fn from_spec(value: u16) -> StateFlags {
        StateFlags { value }
    }
}

/// The flags made from sixteen bits hold those bits.
pub proof fn lemma_flags_from_value(value: u16)
    ensures
        <StateFlags as vstd::std_specs::convert::FromSpec<u16>>::from_spec(value)@ == value,
{
}

/// Flags are their sixteen bits: equal bits, equal flags.
pub proof fn lemma_flags_view_injective(a: StateFlags, b: StateFlags)
    ensures
        a@ == b@ <==> a == b,
{
}

impl WriteTo for StateFlags {
    open spec fn wire(v: u16) -> Seq<u8> {
        u16_to_le(v)
    }

    fn write_to(&self, wtr: &mut Vec<u8>) -> (res: Result<(), ProtoError>) {
        put_u16(wtr, self.value());
        Ok(())
    }
}

impl ReadFrom for StateFlags {
    open spec fn parse(bytes: Seq<u8>) -> Result<(u16, nat), ProtoError> {
        if bytes.len() < 2 {
            Err(ProtoError::UnexpectedEof)
        } else {
            Ok((u16_at(bytes, 0), 2))
        }
    }

    fn read_from(read: &mut &[u8]) -> (res: Result<Self, ProtoError>) {
        if read.len() < 2 {
            return Err(ProtoError::UnexpectedEof);
        }
        let flags = StateFlags::from_value(get_u16(*read, 0));
        advance(read, 2);
        Ok(flags)
    }
}

/// Flags that are written and read again are the same flags, whatever
/// follows them in the input.
pub proof fn lemma_flags_round_trip(value: u16, rest: Seq<u8>)
    ensures
        StateFlags::wire(value).len() == 2,
        StateFlags::parse(StateFlags::wire(value) + rest) == Ok::<(u16, nat), ProtoError>(
            (value, 2),
        ),
{
    lemma_le_round_trips();
    assert((StateFlags::wire(value) + rest).subrange(0, 2) =~= u16_to_le(value));
}

} // verus!

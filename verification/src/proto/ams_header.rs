//! The frame, which carries a payload from one address to another, and the
//! envelope that carries a frame over a stream.

use crate::error::{lemma_status_code_bijection, AdsError, ProtoError};
use crate::proto::ams_address::{AmsAddress, AmsAddressView, NET_ID_LEN};
use crate::proto::command_id::{lemma_command_code_bijection, CommandID};
use crate::proto::le_bytes::{
    advance, get_array, get_bytes, get_u16, get_u32, lemma_le_round_trips, put_bytes, put_u16,
    put_u32, u16_at, u16_to_le, u32_at, u32_to_le,
};
use crate::proto::proto_traits::{Command, ReadFrom, WriteTo};
use crate::proto::request::{lemma_request_round_trip, Request, RequestView};
use crate::proto::response::{lemma_response_round_trip, Response, ResponseView};
use crate::proto::state_flags::{bit_at, StateFlags, RESPONSE_BIT};
use vstd::prelude::*;
use vstd::slice::slice_subrange;

verus! {

/// The number of bytes of a frame before its payload.
pub const FIX_AMS_HEADER_LEN: u32 = 32;

/// The greatest number of bytes of a payload: with the bytes before it, a
/// frame must have a length that the envelope can declare.
pub const MAX_DATA_LEN: u32 = 0xffff_ffdf;

/// What a frame is.
pub struct AmsHeaderView {
    pub target: AmsAddressView,
    pub source: AmsAddressView,
    pub command_id: CommandID,
    pub state_flags: u16,
    pub length: u32,
    pub ads_error: AdsError,
    pub invoke_id: u32,
    pub data: Seq<u8>,
}

impl AmsHeaderView {
    /// What holds of every frame: its length is that of its payload, which
    /// is within the limit, and its net ids have six bytes.
    pub open spec fn valid(self) -> bool {
        &&& self.length == self.data.len()
        &&& self.data.len() <= MAX_DATA_LEN
        &&& self.target.net_id.len() == NET_ID_LEN
        &&& self.source.net_id.len() == NET_ID_LEN
    }

    /// Whether a frame is one that decoding can give back: a valid frame
    /// with a canonical status.
    pub open spec fn wf(self) -> bool {
        self.valid() && self.ads_error.is_canonical()
    }

    /// The frame with target and source exchanged.
    pub open spec fn swapped(self) -> AmsHeaderView {
        AmsHeaderView { target: self.source, source: self.target, ..self }
    }

    /// Whether the flags say that the frame is a response.
    pub open spec fn is_response(self) -> bool {
        bit_at(self.state_flags, RESPONSE_BIT as nat)
    }

    /// The request that a frame holds. A frame of the invalid command holds
    /// none, and a frame that is flagged as a response holds none.
    pub open spec fn request(self) -> Result<RequestView, ProtoError> {
        if self.command_id == CommandID::Invalid {
            Err(ProtoError::InvalidCommand)
        } else if self.is_response() {
            Err(ProtoError::WrongDirection)
        } else {
            Request::parse_payload(self.command_id, self.data)
        }
    }

    /// The response that a frame holds. A frame of the invalid command holds
    /// none, and a frame that is not flagged as a response holds none,
    /// unless it is a device notification, which is a response whatever its
    /// flags say.
    pub open spec fn response(self) -> Result<ResponseView, ProtoError> {
        if self.command_id == CommandID::Invalid {
            Err(ProtoError::InvalidCommand)
        } else if !self.is_response() && self.command_id != CommandID::DeviceNotification {
            Err(ProtoError::WrongDirection)
        } else {
            Response::parse_payload(self.command_id, self.data)
        }
    }

    /// The status at the front of the payload, if the payload has the four
    /// bytes for one.
    pub open spec fn response_result(self) -> Option<AdsError> {
        if self.data.len() >= 4 {
            Some(AdsError::of_code(u32_at(self.data, 0)))
        } else {
            None
        }
    }
}

/// Exchanging target and source twice gives the frame back.
pub proof fn lemma_swap_involution(v: AmsHeaderView)
    ensures
        v.swapped().swapped() == v,
{
}

/// A frame that is not flagged as a response and carries the payload of a
/// request under the command of that request holds that request, unless the
/// request is the invalid one.
pub proof fn lemma_frame_holds_its_request(v: AmsHeaderView, request: RequestView)
    requires
        request.wf(),
        !(request is Invalid),
        !v.is_response(),
        v.command_id == request.command(),
        v.data == Request::wire(request),
    ensures
        v.request() == Ok::<RequestView, ProtoError>(request),
{
    lemma_request_round_trip(request);
}

/// A frame that is flagged as a response, or is a device notification, and
/// carries the payload of a response under the command of that response
/// holds that response, unless the response is the invalid one.
pub proof fn lemma_frame_holds_its_response(v: AmsHeaderView, response: ResponseView)
    requires
        response.wf(),
        !(response is Invalid),
        v.is_response() || response is DeviceNotification,
        v.command_id == response.command(),
        v.data == Response::wire(response),
    ensures
        v.response() == Ok::<ResponseView, ProtoError>(response),
{
    lemma_response_round_trip(response);
}

/// The frame: addresses, command, flags, status, invoke id and payload.
#[derive(Debug)]
pub struct AmsHeader {
    ams_address_targed: AmsAddress,
    ams_address_source: AmsAddress,
    command_id: CommandID,
    state_flags: StateFlags,
    length: u32,
    ams_ads_error: AdsError,
    invoke_id: u32,
    data: Vec<u8>,
}

impl View for AmsHeader {
    type V = AmsHeaderView;

    closed spec fn view(&self) -> AmsHeaderView {
        AmsHeaderView {
            target: self.ams_address_targed@,
            source: self.ams_address_source@,
            command_id: self.command_id,
            state_flags: self.state_flags@,
            length: self.length,
            ads_error: self.ams_ads_error,
            invoke_id: self.invoke_id,
            data: self.data@,
        }
    }
}

impl WriteTo for AmsHeader {
    open spec fn wire(v: AmsHeaderView) -> Seq<u8> {
        AmsAddress::wire(v.target) + AmsAddress::wire(v.source) + u16_to_le(v.command_id.code())
            + u16_to_le(v.state_flags) + u32_to_le(v.length) + u32_to_le(v.ads_error.code())
            + u32_to_le(v.invoke_id) + v.data
    }

    fn write_to(&self, wtr: &mut Vec<u8>) -> (res: Result<(), ProtoError>) {
        let _ = self.ams_address_targed.write_to(wtr);
        let _ = self.ams_address_source.write_to(wtr);
        put_u16(wtr, self.command_id.as_u16());
        put_u16(wtr, self.state_flags.value());
        put_u32(wtr, self.length);
        put_u32(wtr, self.ams_ads_error.as_u32());
        put_u32(wtr, self.invoke_id);
        put_bytes(wtr, self.data.as_slice());
        assert(wtr@ =~= old(wtr)@ + Self::wire(self@));
        Ok(())
    }
}

impl ReadFrom for AmsHeader {
    /// A frame is thirty-two bytes and then as many bytes of payload as it
    /// declares.
    open spec fn parse(bytes: Seq<u8>) -> Result<(AmsHeaderView, nat), ProtoError> {
        if bytes.len() < 32 {
            Err(ProtoError::UnexpectedEof)
        } else if bytes.len() < 32 + u32_at(bytes, 20) {
            Err(ProtoError::UnexpectedEof)
        } else if u32_at(bytes, 20) > MAX_DATA_LEN {
            Err(ProtoError::InvalidData)
        } else {
            Ok(
                (
                    AmsHeaderView {
                        target: AmsAddressView {
                            net_id: bytes.subrange(0, 6),
                            port: u16_at(bytes, 6),
                        },
                        source: AmsAddressView {
                            net_id: bytes.subrange(8, 14),
                            port: u16_at(bytes, 14),
                        },
                        command_id: CommandID::of_code(u16_at(bytes, 16)),
                        state_flags: u16_at(bytes, 18),
                        length: u32_at(bytes, 20),
                        ads_error: AdsError::of_code(u32_at(bytes, 24)),
                        invoke_id: u32_at(bytes, 28),
                        data: bytes.subrange(32, 32 + u32_at(bytes, 20)),
                    },
                    (32 + u32_at(bytes, 20)) as nat,
                ),
            )
        }
    }

    fn read_from(read: &mut &[u8]) -> (res: Result<Self, ProtoError>) {
        let buf: &[u8] = *read;
        if buf.len() < 32 {
            return Err(ProtoError::UnexpectedEof);
        }
        let length = get_u32(buf, 20);
        if length as u64 > (buf.len() - 32) as u64 {
            return Err(ProtoError::UnexpectedEof);
        }
        if length > MAX_DATA_LEN {
            return Err(ProtoError::InvalidData);
        }
        let end: usize = 32 + length as usize;
        let mut target: &[u8] = slice_subrange(buf, 0, 8);
        let mut source: &[u8] = slice_subrange(buf, 8, 16);
        let ams_address_targed = match AmsAddress::read_from(&mut target) {
            Ok(address) => address,
            Err(e) => {
                return Err(e);
            },
        };
        let ams_address_source = match AmsAddress::read_from(&mut source) {
            Ok(address) => address,
            Err(e) => {
                return Err(e);
            },
        };
        proof {
            assert(buf@.subrange(0, 8).subrange(0, 6) =~= buf@.subrange(0, 6));
            assert(buf@.subrange(0, 8).subrange(6, 8) =~= buf@.subrange(6, 8));
            assert(buf@.subrange(8, 16).subrange(0, 6) =~= buf@.subrange(8, 14));
            assert(buf@.subrange(8, 16).subrange(6, 8) =~= buf@.subrange(14, 16));
        }
        let header = AmsHeader {
            ams_address_targed,
            ams_address_source,
            command_id: CommandID::from_code(get_u16(buf, 16)),
            state_flags: StateFlags::from_value(get_u16(buf, 18)),
            length,
            ams_ads_error: AdsError::from_code(get_u32(buf, 24)),
            invoke_id: get_u32(buf, 28),
            data: get_bytes(buf, 32, end),
        };
        advance(read, end);
        Ok(header)
    }
}

impl AmsHeader {
    #[verifier::type_invariant]
    spec fn inv(self) -> bool {
        self.length == self.data@.len() && self.data@.len() <= MAX_DATA_LEN
    }

    /// The frame that carries `request`, with the status of no error.
    pub fn new(
        ams_address_targed: AmsAddress,
        ams_address_source: AmsAddress,
        state_flags: StateFlags,
        invoke_id: u32,
        request: Request,
    ) -> (header: Self)
        requires
            Request::wire(request@).len() <= MAX_DATA_LEN,
        ensures
            header@ == (AmsHeaderView {
                target: ams_address_targed@,
                source: ams_address_source@,
                command_id: request@.command(),
                state_flags: state_flags@,
                length: Request::wire(request@).len() as u32,
                ads_error: AdsError::ErrNoError,
                invoke_id,
                data: Request::wire(request@),
            }),
            header@.valid(),
    {
        let mut data: Vec<u8> = Vec::new();
        let _ = request.write_to(&mut data);
        assert(data@ =~= Request::wire(request@));
        proof {
            ams_address_targed.ams_net_id.lemma_len();
            ams_address_source.ams_net_id.lemma_len();
        }
        AmsHeader {
            ams_address_targed,
            ams_address_source,
            command_id: request.command_id(),
            state_flags,
            length: data.len() as u32,
            ams_ads_error: AdsError::ErrNoError,
            invoke_id,
            data,
        }
    }

    /// The payload as a request.
    pub fn request(&self) -> (res: Result<Request, ProtoError>)
        ensures
            match res {
                Ok(request) => self@.request() == Ok::<RequestView, ProtoError>(request@),
                Err(e) => self@.request() == Err::<RequestView, ProtoError>(e),
            },
    {
        match self.command_id {
            CommandID::Invalid => Err(ProtoError::InvalidCommand),
            _ => {
                if self.state_flags.is_response() {
                    Err(ProtoError::WrongDirection)
                } else {
                    Request::read_payload(self.command_id, self.data.as_slice())
                }
            },
        }
    }

    /// The payload as a response.
    pub fn response(&self) -> (res: Result<Response, ProtoError>)
        ensures
            match res {
                Ok(response) => self@.response() == Ok::<ResponseView, ProtoError>(response@),
                Err(e) => self@.response() == Err::<ResponseView, ProtoError>(e),
            },
    {
        match self.command_id {
            CommandID::Invalid => Err(ProtoError::InvalidCommand),
            CommandID::DeviceNotification => Response::read_payload(
                self.command_id,
                self.data.as_slice(),
            ),
            _ => {
                if self.state_flags.is_response() {
                    Response::read_payload(self.command_id, self.data.as_slice())
                } else {
                    Err(ProtoError::WrongDirection)
                }
            },
        }
    }

    /// Puts `command` in the place of the payload: the frame then carries
    /// the bytes of `command`, their number, the command that they belong to
    /// and `state_flags`. A payload over the limit is refused, and the frame
    /// stays as it was.
    pub fn update_command<T: WriteTo + Command>(
        &mut self,
        command: T,
        state_flags: StateFlags,
    ) -> (res:
        Result<(), ProtoError>)
        ensures
            res is Ok <==> T::wire(command@).len() <= MAX_DATA_LEN,
            res is Ok ==> final(self)@ == (AmsHeaderView {
                command_id: command.command(),
                state_flags: state_flags@,
                length: T::wire(command@).len() as u32,
                data: T::wire(command@),
                ..old(self)@
            }),
            res is Ok ==> final(self)@.length == final(self)@.data.len(),
            res matches Err(e) ==> e == ProtoError::InvalidData && final(self)@ == old(self)@,
    {
        let mut data: Vec<u8> = Vec::new();
        let _ = command.write_to(&mut data);
        assert(data@ =~= T::wire(command@));
        if data.len() > MAX_DATA_LEN as usize {
            return Err(ProtoError::InvalidData);
        }
        *self = AmsHeader {
            ams_address_targed: self.ams_address_targed,
            ams_address_source: self.ams_address_source,
            command_id: command.command_id(),
            state_flags,
            length: data.len() as u32,
            ams_ads_error: self.ams_ads_error,
            invoke_id: self.invoke_id,
            data,
        };
        Ok(())
    }

    /// Exchanges target and source.
    pub fn swap_address(&mut self)
        ensures
            final(self)@ == old(self)@.swapped(),
    {
        proof {
            use_type_invariant(&*self);
        }
        let target = self.ams_address_targed;
        self.ams_address_targed = self.ams_address_source;
        self.ams_address_source = target;
    }

    /// The address that the frame goes to.
    pub fn ams_address_targed(&self) -> (address: &AmsAddress)
        ensures
            address@ == self@.target,
    {
        &self.ams_address_targed
    }

    /// The address that the frame comes from.
    pub fn ams_address_source(&self) -> (address: &AmsAddress)
        ensures
            address@ == self@.source,
    {
        &self.ams_address_source
    }

    /// The state flags of the frame.
    pub fn state_flags(&self) -> (flags: &StateFlags)
        ensures
            flags@ == self@.state_flags,
    {
        &self.state_flags
    }

    /// The command of the frame.
    pub fn command_id(&self) -> (command: CommandID)
        ensures
            command == self@.command_id,
    {
        self.command_id
    }

    /// The number of bytes of the payload.
    pub fn response_data_len(&self) -> (len: u32)
        ensures
            len == self@.length,
            len == self@.data.len(),
    {
        proof {
            use_type_invariant(self);
        }
        self.length
    }

    /// Puts `buf` in the place of the payload.
    pub fn update_response_data(&mut self, buf: Vec<u8>)
        requires
            buf.len() <= MAX_DATA_LEN,
        ensures
            final(self)@ == (AmsHeaderView {
                length: buf.len() as u32,
                data: buf@,
                ..old(self)@
            }),
    {
        self.update_data(buf);
    }

    /// The invoke id of the frame, which a response takes from its request.
    pub fn invoke_id(&self) -> (id: u32)
        ensures
            id == self@.invoke_id,
    {
        self.invoke_id
    }

    /// The status of the frame. The payload of a response holds a status of
    /// its own.
    pub fn ads_error(&self) -> (status: &AdsError)
        ensures
            *status == self@.ads_error,
    {
        &self.ams_ads_error
    }

    /// The payload.
    pub fn raw_response_data(&self) -> (data: &[u8])
        ensures
            data@ == self@.data,
    {
        self.data.as_slice()
    }

    /// The status at the front of the payload, if the payload has the four
    /// bytes for one.
    pub fn response_result(&self) -> (status: Option<AdsError>)
        ensures
            status == self@.response_result(),
    {
        if self.data.len() >= 4 {
            Some(AdsError::from_code(get_u32(self.data.as_slice(), 0)))
        } else {
            None
        }
    }

    /// The number of bytes of the frame on the wire.
    pub fn header_len(&self) -> (len: u32)
        ensures
            len == FIX_AMS_HEADER_LEN + self@.data.len(),
            len == Self::wire(self@).len(),
    {
        proof {
            use_type_invariant(self);
            lemma_le_round_trips();
            self.ams_address_targed.ams_net_id.lemma_len();
            self.ams_address_source.ams_net_id.lemma_len();
        }
        self.length + FIX_AMS_HEADER_LEN
    }

    /// The number of bytes of the payload.
    pub fn data_len(&self) -> (len: u32)
        ensures
            len == self@.length,
            len == self@.data.len(),
    {
        proof {
            use_type_invariant(self);
        }
        self.length
    }

    /// Puts `buf` in the place of the payload.
    pub fn update_data(&mut self, buf: Vec<u8>)
        requires
            buf.len() <= MAX_DATA_LEN,
        ensures
            final(self)@ == (AmsHeaderView {
                length: buf.len() as u32,
                data: buf@,
                ..old(self)@
            }),
    {
        *self = AmsHeader {
            ams_address_targed: self.ams_address_targed,
            ams_address_source: self.ams_address_source,
            command_id: self.command_id,
            state_flags: self.state_flags,
            length: buf.len() as u32,
            ams_ads_error: self.ams_ads_error,
            invoke_id: self.invoke_id,
            data: buf,
        };
    }
}

/// A frame that decoding can give back, written and read again, is the same
/// frame, whatever follows it in the input.
pub proof fn lemma_frame_round_trip(v: AmsHeaderView, rest: Seq<u8>)
    requires
        v.wf(),
    ensures
        AmsHeader::wire(v).len() == 32 + v.data.len(),
        AmsHeader::parse(AmsHeader::wire(v) + rest) == Ok::<(AmsHeaderView, nat), ProtoError>(
            (v, AmsHeader::wire(v).len()),
        ),
{
    lemma_le_round_trips();
    lemma_status_code_bijection(v.ads_error, 0);
    lemma_command_code_bijection(v.command_id, 0);
    let s = AmsHeader::wire(v) + rest;
    assert(s.subrange(0, 6) =~= v.target.net_id);
    assert(s.subrange(6, 8) =~= u16_to_le(v.target.port));
    assert(s.subrange(8, 14) =~= v.source.net_id);
    assert(s.subrange(14, 16) =~= u16_to_le(v.source.port));
    assert(s.subrange(16, 18) =~= u16_to_le(v.command_id.code()));
    assert(s.subrange(18, 20) =~= u16_to_le(v.state_flags));
    assert(s.subrange(20, 24) =~= u32_to_le(v.length));
    assert(s.subrange(24, 28) =~= u32_to_le(v.ads_error.code()));
    assert(s.subrange(28, 32) =~= u32_to_le(v.invoke_id));
    assert(s.subrange(32, 32 + v.length) =~= v.data);
}

/// What an envelope is.
pub struct AmsTcpHeaderView {
    pub reserved: Seq<u8>,
    pub length: u32,
    pub ams_header: AmsHeaderView,
}

impl AmsTcpHeaderView {
    /// What holds of an envelope that was made for its frame: the reserved
    /// bytes are two zeros, and the length is the number of bytes of the
    /// frame.
    pub open spec fn wf(self) -> bool {
        &&& self.reserved == seq![0u8, 0u8]
        &&& self.length == FIX_AMS_HEADER_LEN + self.ams_header.data.len()
        &&& self.ams_header.wf()
    }
}

/// The envelope of a frame on a stream: two reserved bytes, the number of
/// bytes of the frame, and the frame.
#[derive(Debug)]
pub struct AmsTcpHeader {
    pub reserved: [u8; 2],
    pub length: u32,
    pub ams_header: AmsHeader,
}

impl View for AmsTcpHeader {
    type V = AmsTcpHeaderView;

    open spec fn view(&self) -> AmsTcpHeaderView {
        AmsTcpHeaderView {
            reserved: self.reserved@,
            length: self.length,
            ams_header: self.ams_header@,
        }
    }
}

impl WriteTo for AmsTcpHeader {
    open spec fn wire(v: AmsTcpHeaderView) -> Seq<u8> {
        v.reserved + u32_to_le(v.length) + AmsHeader::wire(v.ams_header)
    }

    fn write_to(&self, wtr: &mut Vec<u8>) -> (res: Result<(), ProtoError>) {
        put_bytes(wtr, self.reserved.as_slice());
        put_u32(wtr, self.length);
        let _ = self.ams_header.write_to(wtr);
        assert(wtr@ =~= old(wtr)@ + Self::wire(self@));
        Ok(())
    }
}

impl ReadFrom for AmsTcpHeader {
    /// An envelope is six bytes and then a frame. The length that it
    /// declares is kept as it came; the frame is read by its own length.
    open spec fn parse(bytes: Seq<u8>) -> Result<(AmsTcpHeaderView, nat), ProtoError> {
        if bytes.len() < 6 {
            Err(ProtoError::UnexpectedEof)
        } else {
            match AmsHeader::parse(bytes.skip(6)) {
                Err(e) => Err(e),
                Ok((ams_header, n)) => Ok(
                    (
                        AmsTcpHeaderView {
                            reserved: bytes.subrange(0, 2),
                            length: u32_at(bytes, 2),
                            ams_header,
                        },
                        6 + n,
                    ),
                ),
            }
        }
    }

    fn read_from(read: &mut &[u8]) -> (res: Result<Self, ProtoError>) {
        let buf: &[u8] = *read;
        if buf.len() < 6 {
            return Err(ProtoError::UnexpectedEof);
        }
        let reserved = get_array::<2>(buf, 0);
        let length = get_u32(buf, 2);
        let mut frame: &[u8] = slice_subrange(buf, 6, buf.len());
        assert(frame@ =~= buf@.skip(6));
        let ams_header = match AmsHeader::read_from(&mut frame) {
            Ok(header) => header,
            Err(e) => {
                return Err(e);
            },
        };
        proof {
            let n = AmsHeader::parse(buf@.skip(6))->Ok_0.1;
            assert(buf@.skip(6).skip(n as int) =~= buf@.skip((6 + n) as int));
        }
        *read = frame;
        Ok(AmsTcpHeader { reserved, length, ams_header })
    }
}

impl AmsTcpHeader {
    /// The envelope made for a frame: zeros in the reserved bytes, and the
    /// number of bytes of the frame as length.
    pub fn new(ams_header: AmsHeader) -> (envelope: Self)
        ensures
            envelope@ == (AmsTcpHeaderView {
                reserved: seq![0u8, 0u8],
                length: (FIX_AMS_HEADER_LEN + ams_header@.data.len()) as u32,
                ams_header: ams_header@,
            }),
            envelope@.length == FIX_AMS_HEADER_LEN + ams_header@.data.len(),
            envelope@.length == AmsHeader::wire(ams_header@).len(),
    {
        AmsTcpHeader::from(ams_header)
    }
}

impl From<AmsHeader> for AmsTcpHeader {
    fn from(ams_header: AmsHeader) -> (envelope: AmsTcpHeader)
        ensures
            envelope@ == (AmsTcpHeaderView {
                reserved: seq![0u8, 0u8],
                length: (FIX_AMS_HEADER_LEN + ams_header@.data.len()) as u32,
                ams_header: ams_header@,
            }),
            envelope@.length == FIX_AMS_HEADER_LEN + ams_header@.data.len(),
            envelope@.length == AmsHeader::wire(ams_header@).len(),
    {
        proof {
            use_type_invariant(&ams_header);
        }
        let length = ams_header.header_len();
        let envelope = AmsTcpHeader { reserved: [0u8;2], length, ams_header };
        assert(envelope.reserved@ =~= seq![0u8, 0u8]);
        envelope
    }
}

impl vstd::std_specs::convert::FromSpecImpl<AmsHeader> for AmsTcpHeader {
    open spec fn obeys_from_spec() -> bool {
        true
    }

    closed spec fn from_spec(ams_header: AmsHeader) -> AmsTcpHeader {
        AmsTcpHeader {
            reserved: vstd::array::spec_array_fill_for_copy_type::<u8, 2>(0u8),
            length: (FIX_AMS_HEADER_LEN + ams_header.length) as u32,
            ams_header,
        }
    }
}

/// An envelope with two reserved bytes around a frame that decoding can give
/// back, written and read again, is the same envelope, whatever follows it in
/// the input.
pub proof fn lemma_envelope_round_trip(v: AmsTcpHeaderView, rest: Seq<u8>)
    requires
        v.reserved.len() == 2,
        v.ams_header.wf(),
    ensures
        AmsTcpHeader::wire(v).len() == 6 + 32 + v.ams_header.data.len(),
        AmsTcpHeader::parse(AmsTcpHeader::wire(v) + rest) == Ok::<
            (AmsTcpHeaderView, nat),
            ProtoError,
        >((v, AmsTcpHeader::wire(v).len())),
{
    lemma_le_round_trips();
    lemma_frame_round_trip(v.ams_header, rest);
    let s = AmsTcpHeader::wire(v) + rest;
    assert(s.subrange(0, 2) =~= v.reserved);
    assert(s.subrange(2, 6) =~= u32_to_le(v.length));
    assert(s.skip(6) =~= AmsHeader::wire(v.ams_header) + rest);
}

} // verus!

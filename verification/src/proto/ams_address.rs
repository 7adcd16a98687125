//! The address of a node: six bytes of net id and a port.

use crate::error::{AmsAddressError, ProtoError};
use crate::proto::le_bytes::{advance, get_array, get_u16, put_bytes, put_u16, u16_at, u16_to_le};
use crate::proto::proto_traits::{ReadFrom, WriteTo};
use std::str::FromStr;
use vstd::prelude::*;
use vstd::string::StrSliceExecFns;

verus! {

/// The number of bytes of a net id.
pub const NET_ID_LEN: usize = 6;

/// The number of bytes of an address on the wire.
pub const ADDRESS_LEN: usize = 8;

/// The six bytes that name a node.
#[derive(Debug, Clone, Copy, PartialEq, Eq)]
pub struct AmsNetId {
    net_id: [u8; 6],
}

impl View for AmsNetId {
    type V = Seq<u8>;

    closed spec fn view(&self) -> Seq<u8> {
        self.net_id@
    }
}

impl AmsNetId {
    /// The net id of the six bytes.
    #[allow(clippy::many_single_char_names)]
    pub fn new(a: u8, b: u8, c: u8, d: u8, e: u8, f: u8) -> (id: AmsNetId)
        ensures
            id@ == seq![a, b, c, d, e, f],
    {
        let id = AmsNetId { net_id: [a, b, c, d, e, f] };
        assert(id@ =~= seq![a, b, c, d, e, f]);
        id
    }

    /// The six bytes.
    pub fn net_id(&self) -> (bytes: [u8; 6])
        ensures
            bytes@ == self@,
    {
        self.net_id
    }

    /// A net id has six bytes.
    pub proof fn lemma_len(self)
        ensures
            self@.len() == NET_ID_LEN,
    {
    }
}

impl From<[u8; 6]> for AmsNetId {
    fn from(net_id: [u8; 6]) -> (id: AmsNetId) {
        AmsNetId { net_id }
    }
}

impl vstd::std_specs::convert::FromSpecImpl<[u8; 6]> for AmsNetId {
    open spec fn obeys_from_spec() -> bool {
        true
    }

    closed spec fn from_spec(net_id: [u8; 6]) -> AmsNetId {
        AmsNetId { net_id }
    }
}

/// The net id made from six bytes holds those bytes.
pub proof fn lemma_net_id_from_bytes(net_id: [u8; 6])
    ensures
        <AmsNetId as vstd::std_specs::convert::FromSpec<[u8; 6]>>::from_spec(net_id)@ == net_id@,
{
}

impl WriteTo for AmsNetId {
    open spec fn wire(v: Seq<u8>) -> Seq<u8> {
        v
    }

    fn write_to(&self, wtr: &mut Vec<u8>) -> (res: Result<(), ProtoError>) {
        put_bytes(wtr, self.net_id.as_slice());
        Ok(())
    }
}

impl ReadFrom for AmsNetId {
    open spec fn parse(bytes: Seq<u8>) -> Result<(Seq<u8>, nat), ProtoError> {
        if bytes.len() < NET_ID_LEN {
            Err(ProtoError::UnexpectedEof)
        } else {
            Ok((bytes.subrange(0, NET_ID_LEN as int), NET_ID_LEN as nat))
        }
    }

    fn read_from(read: &mut &[u8]) -> (res: Result<Self, ProtoError>) {
        if read.len() < NET_ID_LEN {
            return Err(ProtoError::UnexpectedEof);
        }
        let id = AmsNetId { net_id: get_array::<6>(*read, 0) };
        advance(read, NET_ID_LEN);
        Ok(id)
    }
}

/// A net id that is written and read again is the same net id, whatever
/// follows it in the input.
pub proof fn lemma_net_id_round_trip(v: Seq<u8>, rest: Seq<u8>)
    requires
        v.len() == NET_ID_LEN,
    ensures
        AmsNetId::parse(AmsNetId::wire(v) + rest) == Ok::<(Seq<u8>, nat), ProtoError>(
            (v, NET_ID_LEN as nat),
        ),
{
    assert((v + rest).subrange(0, NET_ID_LEN as int) =~= v);
}

/// What an address is: the bytes of its net id and its port.
pub struct AmsAddressView {
    pub net_id: Seq<u8>,
    pub port: u16,
}

/// The address of a service: the net id of its node, and its port.
#[derive(Clone, Copy, Debug, PartialEq, Eq)]
pub struct AmsAddress {
    pub ams_net_id: AmsNetId,
    pub port: u16,
}

impl View for AmsAddress {
    type V = AmsAddressView;

    open spec fn view(&self) -> AmsAddressView {
        AmsAddressView { net_id: self.ams_net_id@, port: self.port }
    }
}

impl AmsAddress {
    /// The address of a net id and a port.
    pub fn new(ams_net_id: AmsNetId, port: u16) -> (address: Self)
        ensures
            address.ams_net_id == ams_net_id,
            address.port == port,
    {
        AmsAddress { ams_net_id, port }
    }
}

impl WriteTo for AmsAddress {
    open spec fn wire(v: AmsAddressView) -> Seq<u8> {
        v.net_id + u16_to_le(v.port)
    }

    fn write_to(&self, wtr: &mut Vec<u8>) -> (res: Result<(), ProtoError>) {
        let _ = self.ams_net_id.write_to(wtr);
        put_u16(wtr, self.port);
        assert(wtr@ =~= old(wtr)@ + Self::wire(self@));
        Ok(())
    }
}

impl ReadFrom for AmsAddress {
    open spec fn parse(bytes: Seq<u8>) -> Result<(AmsAddressView, nat), ProtoError> {
        if bytes.len() < ADDRESS_LEN {
            Err(ProtoError::UnexpectedEof)
        } else {
            Ok(
                (
                    AmsAddressView {
                        net_id: bytes.subrange(0, 6),
                        port: u16_at(bytes, 6),
                    },
                    ADDRESS_LEN as nat,
                ),
            )
        }
    }

    fn read_from(read: &mut &[u8]) -> (res: Result<Self, ProtoError>) {
        if read.len() < ADDRESS_LEN {
            return Err(ProtoError::UnexpectedEof);
        }
        let buf: &[u8] = *read;
        let ams_net_id = AmsNetId { net_id: get_array::<6>(buf, 0) };
        let port = get_u16(buf, 6);
        advance(read, ADDRESS_LEN);
        Ok(AmsAddress { ams_net_id, port })
    }
}

/// An address that is written and read again is the same address, whatever
/// follows it in the input.
pub proof fn lemma_address_round_trip(v: AmsAddressView, rest: Seq<u8>)
    requires
        v.net_id.len() == NET_ID_LEN,
    ensures
        AmsAddress::wire(v).len() == ADDRESS_LEN,
        AmsAddress::parse(AmsAddress::wire(v) + rest) == Ok::<(AmsAddressView, nat), ProtoError>(
            (v, ADDRESS_LEN as nat),
        ),
{
    crate::proto::le_bytes::lemma_u16_le_round_trip(v.port, seq![]);
    let s = AmsAddress::wire(v) + rest;
    assert(s.subrange(0, 6) =~= v.net_id);
    assert(s.subrange(6, 8) =~= u16_to_le(v.port));
}

/// The parts of a text between the separators. A text without a separator
/// is one part, and two separators side by side have an empty part between
/// them.
pub open spec fn split(text: Seq<char>, sep: char) -> Seq<Seq<char>>
    decreases text.len(),
{
    if text.len() == 0 {
        seq![Seq::empty()]
    } else if text.last() == sep {
        split(text.drop_last(), sep).push(Seq::empty())
    } else {
        let parts = split(text.drop_last(), sep);
        parts.drop_last().push(parts.last().push(text.last()))
    }
}

/// Whether a character is one of the ten digits.
pub open spec fn is_digit(c: char) -> bool {
    '0' <= c <= '9'
}

/// The number that digits stand for.
pub open spec fn digits_value(digits: Seq<char>) -> nat
    decreases digits.len(),
{
    if digits.len() == 0 {
        0
    } else {
        digits_value(digits.drop_last()) * 10 + (digits.last() as u32 - '0' as u32) as nat
    }
}

/// The number that a text stands for: digits, at least one, behind a plus
/// sign or behind none. Any other text stands for no number.
pub open spec fn decimal(text: Seq<char>) -> Option<nat> {
    let digits = if text.len() > 0 && text[0] == '+' {
        text.skip(1)
    } else {
        text
    };
    if digits.len() > 0 && forall|i: int| 0 <= i < digits.len() ==> is_digit(#[trigger] digits[i]) {
        Some(digits_value(digits))
    } else {
        None
    }
}

/// Calls `str::parse` for `u8`, which accepts decimal digits behind an
/// optional plus sign and nothing else, and fails on the empty text and on a
/// number over 255.
#[verifier::external_body]
fn parse_u8(text: &str) -> (res: Result<u8, std::num::ParseIntError>)
    ensures
        match res {
            Ok(n) => decimal(text@) == Some(n as nat),
            Err(_) => decimal(text@) matches Some(n) ==> n > u8::MAX,
        },
{
    text.parse::<u8>()
}

/// Calls `str::parse` for `u16`, which accepts decimal digits behind an
/// optional plus sign and nothing else, and fails on the empty text and on a
/// number over 65535.
#[verifier::external_body]
fn parse_u16(text: &str) -> (res: Result<u16, std::num::ParseIntError>)
    ensures
        match res {
            Ok(n) => decimal(text@) == Some(n as nat),
            Err(_) => decimal(text@) matches Some(n) ==> n > u16::MAX,
        },
{
    text.parse::<u16>()
}

/// What a list of texts is.
pub open spec fn texts_view(texts: Seq<&str>) -> Seq<Seq<char>> {
    texts.map_values(|text: &str| text@)
}

/// Cuts a text at every separator.
pub fn split_text<'a>(text: &'a str, sep: char) -> (parts: Vec<&'a str>)
    ensures
        texts_view(parts@) == split(text@, sep),
{
    let len = text.unicode_len();
    let mut parts: Vec<&'a str> = Vec::new();
    let mut start: usize = 0;
    let mut i: usize = 0;
    assert(text@.take(0) =~= Seq::empty());
    assert(texts_view(parts@).push(text@.subrange(0, 0)) =~= split(text@.take(0), sep));
    while i < len
        invariant
            start <= i <= len,
            len == text@.len(),
            texts_view(parts@).push(text@.subrange(start as int, i as int)) == split(
                text@.take(i as int),
                sep,
            ),
        decreases len - i,
    {
        let c = text.get_char(i);
        proof {
            assert(text@.take(i + 1).drop_last() =~= text@.take(i as int));
            assert(text@.take(i + 1).last() == c);
        }
        let ghost before = texts_view(parts@);
        if c == sep {
            let part = text.substring_char(start, i);
            proof {
                assert(texts_view(parts@.push(part)) =~= before.push(part@));
                assert(text@.subrange(i + 1, i + 1) =~= Seq::empty());
            }
            parts.push(part);
            start = i + 1;
        } else {
            proof {
                let now = before.push(text@.subrange(start as int, i as int));
                assert(now.drop_last() =~= before);
                assert(text@.subrange(start as int, i as int).push(c) =~= text@.subrange(
                    start as int,
                    i + 1,
                ));
            }
        }
        i += 1;
    }
    let last = text.substring_char(start, len);
    proof {
        assert(text@.take(len as int) =~= text@);
        assert(texts_view(parts@.push(last)) =~= texts_view(parts@).push(last@));
    }
    parts.push(last);
    parts
}

/// Whether a text stands for a number that fits in a byte.
pub open spec fn is_u8_text(text: Seq<char>) -> bool {
    decimal(text) matches Some(n) && n <= u8::MAX
}

/// Whether a text stands for a number that fits in sixteen bits.
pub open spec fn is_u16_text(text: Seq<char>) -> bool {
    decimal(text) matches Some(n) && n <= u16::MAX
}

/// The parts of the text of a net id: the parts between the dots, and
/// behind four parts a 1 and a 1, which such a short net id leaves out.
pub open spec fn net_id_parts(text: Seq<char>) -> Seq<Seq<char>> {
    let parts = split(text, '.');
    if parts.len() == 4 {
        parts.push(seq!['1']).push(seq!['1'])
    } else {
        parts
    }
}

/// Whether `res` is what the text of a net id stands for: six bytes, where
/// the text has six parts, or four, and every part is a number that fits in
/// a byte, and else the error that says which of the two is not so.
pub open spec fn net_id_text_result(
    text: Seq<char>,
    res: Result<Seq<u8>, AmsAddressError>,
) -> bool {
    let parts = net_id_parts(text);
    match res {
        Ok(net_id) => {
            &&& parts.len() == 6
            &&& net_id.len() == 6
            &&& forall|i: int| 0 <= i < 6 ==> decimal(#[trigger] parts[i]) == Some(net_id[i] as nat)
        },
        Err(AmsAddressError::InvalidAddressLength { length }) => {
            &&& length == split(text, '.').len()
            &&& length != 4
            &&& length != 6
        },
        Err(AmsAddressError::ParseError { .. }) => {
            &&& parts.len() == 6
            &&& exists|i: int| 0 <= i < 6 && !is_u8_text(#[trigger] parts[i])
        },
        Err(AmsAddressError::SplitError { .. }) => false,
    }
}

/// Whether `res` is what the text of an address stands for: the net id
/// before the one colon and the port behind it, and else the error that says
/// what is wrong: the number of parts around colons, the number of parts of
/// the net id, or a part that is no number that fits.
pub open spec fn address_text_result(
    text: Seq<char>,
    res: Result<AmsAddressView, AmsAddressError>,
) -> bool {
    let parts = split(text, ':');
    match res {
        Ok(address) => {
            &&& parts.len() == 2
            &&& net_id_text_result(parts[0], Ok(address.net_id))
            &&& decimal(parts[1]) == Some(address.port as nat)
        },
        Err(AmsAddressError::SplitError { length }) => length == parts.len() && length != 2,
        Err(AmsAddressError::InvalidAddressLength { length }) => {
            &&& parts.len() == 2
            &&& net_id_text_result(
                parts[0],
                Err(AmsAddressError::InvalidAddressLength { length }),
            )
        },
        Err(AmsAddressError::ParseError { source }) => {
            &&& parts.len() == 2
            &&& {
                ||| net_id_text_result(parts[0], Err(AmsAddressError::ParseError { source }))
                ||| (exists|net_id: Seq<u8>| net_id_text_result(parts[0], Ok(net_id)))
                    && !is_u16_text(parts[1])
            }
        },
    }
}

impl AmsNetId {
    /// The net id that a text stands for: six numbers with dots between
    /// them, or four, which stand for those four and 1 and 1.
    pub fn from_text(net_id: &str) -> (res: Result<AmsNetId, AmsAddressError>)
        ensures
            net_id_text_result(
                net_id@,
                match res {
                    Ok(id) => Ok(id@),
                    Err(e) => Err(e),
                },
            ),
    {
        let mut parts = split_text(net_id, '.');
        if parts.len() == 4 {
            proof {
                reveal_strlit("1");
                assert("1"@ =~= seq!['1']);
                assert(texts_view(parts@.push("1").push("1")) =~= texts_view(parts@).push(
                    "1"@,
                ).push("1"@));
            }
            parts.push("1");
            parts.push("1");
        } else if parts.len() != 6 {
            return Err(AmsAddressError::InvalidAddressLength { length: parts.len() });
        }
        let ghost texts = texts_view(parts@);
        assert(texts == net_id_parts(net_id@));
        let mut bytes: [u8; 6] = [0;6];
        let mut i: usize = 0;
        while i < 6
            invariant
                i <= 6,
                parts@.len() == 6,
                texts == texts_view(parts@),
                texts == net_id_parts(net_id@),
                forall|j: int| 0 <= j < i ==> decimal(#[trigger] texts[j])
                    == Some(bytes@[j] as nat),
            decreases 6 - i,
        {
            match parse_u8(parts[i]) {
                Ok(v) => {
                    bytes[i] = v;
                },
                Err(e) => {
                    assert(!is_u8_text(texts[i as int]));
                    return Err(AmsAddressError::ParseError { source: e });
                },
            }
            i += 1;
        }
        Ok(AmsNetId { net_id: bytes })
    }
}

impl FromStr for AmsNetId {
    type Err = AmsAddressError;

    /// The net id that a text stands for: six numbers with dots between
    /// them, or four, which stand for those four and 1 and 1.
    fn from_str(net_id: &str) -> (res: Result<AmsNetId, AmsAddressError>)
        ensures
            net_id_text_result(
                net_id@,
                match res {
                    Ok(id) => Ok(id@),
                    Err(e) => Err(e),
                },
            ),
    {
        AmsNetId::from_text(net_id)
    }
}

impl AmsAddress {
    /// The address that a text stands for: a net id, a colon and a port.
    pub fn from_text(socket_addr: &str) -> (res: Result<AmsAddress, AmsAddressError>)
        ensures
            address_text_result(
                socket_addr@,
                match res {
                    Ok(address) => Ok(address@),
                    Err(e) => Err(e),
                },
            ),
    {
        let split_socket = split_text(socket_addr, ':');
        if split_socket.len() != 2 {
            return Err(AmsAddressError::SplitError { length: split_socket.len() });
        }
        let ghost texts = texts_view(split_socket@);
        let ams_net_id = match AmsNetId::from_text(split_socket[0]) {
            Ok(id) => id,
            Err(e) => {
                return Err(e);
            },
        };
        let port = match parse_u16(split_socket[1]) {
            Ok(p) => p,
            Err(e) => {
                assert(!is_u16_text(texts[1]));
                return Err(AmsAddressError::ParseError { source: e });
            },
        };
        Ok(AmsAddress::new(ams_net_id, port))
    }

    /// Takes net id and port from a text. Where the text is no address, the
    /// address stays as it was.
    pub fn update_from_socket_addr(&mut self, socket_addr: &str) -> (res: Result<
        (),
        AmsAddressError,
    >)
        ensures
            address_text_result(
                socket_addr@,
                match res {
                    Ok(_) => Ok(final(self)@),
                    Err(e) => Err(e),
                },
            ),
            res is Err ==> *final(self) == *old(self),
    {
        let ams_address = match AmsAddress::from_text(socket_addr) {
            Ok(address) => address,
            Err(e) => {
                return Err(e);
            },
        };
        self.ams_net_id = ams_address.ams_net_id;
        self.port = ams_address.port;
        Ok(())
    }
}

impl FromStr for AmsAddress {
    type Err = AmsAddressError;

    /// The address that a text stands for: a net id, a colon and a port.
    fn from_str(socket_addr: &str) -> (res: Result<AmsAddress, AmsAddressError>)
        ensures
            address_text_result(
                socket_addr@,
                match res {
                    Ok(address) => Ok(address@),
                    Err(e) => Err(e),
                },
            ),
    {
        AmsAddress::from_text(socket_addr)
    }
}

} // verus!

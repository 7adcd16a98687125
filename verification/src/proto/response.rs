//! The responses: what a server sends, one shape for each command.

use crate::error::{lemma_status_code_bijection, AdsError, ProtoError, TryIntoError};
use crate::proto::ads_state::AdsState;
use crate::proto::command_id::CommandID;
use crate::proto::le_bytes::{
    advance, get_array, get_bytes, get_u16, get_u32, get_u64, lemma_le_round_trips, put_bytes,
    put_u16, put_u32, put_u64, u16_at, u16_to_le, u32_at, u32_to_le, u64_at, u64_to_le,
};
use crate::proto::proto_traits::{read_front, Command, ReadFrom, WriteTo};
use vstd::prelude::*;
use vstd::slice::slice_subrange;
use vstd::utf8::{decode_utf8, encode_utf8, valid_utf8};

verus! {

/// A response of any command. The variant says which command it is.
#[derive(Debug, PartialEq, Eq, Clone)]
pub enum Response {
    Invalid(InvalidResponse),
    ReadDeviceInfo(ReadDeviceInfoResponse),
    Read(ReadResponse),
    Write(WriteResponse),
    ReadState(ReadStateResponse),
    WriteControl(WriteControlResponse),
    AddDeviceNotification(AddDeviceNotificationResponse),
    DeleteDeviceNotification(DeleteDeviceNotificationResponse),
    DeviceNotification(AdsNotificationStream),
    ReadWrite(ReadWriteResponse),
}

/// What a response is: its variant, and the values of its fields.
pub enum ResponseView {
    Invalid(InvalidResponse),
    ReadDeviceInfo(ReadDeviceInfoResponseView),
    Read(ReadResponseView),
    Write(WriteResponse),
    ReadState(ReadStateResponse),
    WriteControl(WriteControlResponse),
    AddDeviceNotification(AddDeviceNotificationResponse),
    DeleteDeviceNotification(DeleteDeviceNotificationResponse),
    DeviceNotification(AdsNotificationStreamView),
    ReadWrite(ReadWriteResponseView),
}

impl ResponseView {
    /// The command that a response belongs to.
    pub open spec fn command(self) -> CommandID {
        match self {
            ResponseView::Invalid(_) => CommandID::Invalid,
            ResponseView::ReadDeviceInfo(_) => CommandID::ReadDeviceInfo,
            ResponseView::Read(_) => CommandID::Read,
            ResponseView::Write(_) => CommandID::Write,
            ResponseView::ReadState(_) => CommandID::ReadState,
            ResponseView::WriteControl(_) => CommandID::WriteControl,
            ResponseView::AddDeviceNotification(_) => CommandID::AddDeviceNotification,
            ResponseView::DeleteDeviceNotification(_) => CommandID::DeleteDeviceNotification,
            ResponseView::DeviceNotification(_) => CommandID::DeviceNotification,
            ResponseView::ReadWrite(_) => CommandID::ReadWrite,
        }
    }

    /// Whether a response is one that decoding can give back.
    pub open spec fn wf(self) -> bool {
        match self {
            ResponseView::Invalid(r) => r.command_id == CommandID::Invalid,
            ResponseView::ReadDeviceInfo(r) => r.wf(),
            ResponseView::Read(r) => r.wf(),
            ResponseView::Write(r) => r.wf(),
            ResponseView::ReadState(r) => r.wf(),
            ResponseView::WriteControl(r) => r.wf(),
            ResponseView::AddDeviceNotification(r) => r.wf(),
            ResponseView::DeleteDeviceNotification(r) => r.wf(),
            ResponseView::DeviceNotification(r) => r.wf(),
            ResponseView::ReadWrite(r) => r.wf(),
        }
    }
}

impl View for Response {
    type V = ResponseView;

    open spec fn view(&self) -> ResponseView {
        match self {
            Response::Invalid(r) => ResponseView::Invalid(*r),
            Response::ReadDeviceInfo(r) => ResponseView::ReadDeviceInfo(r@),
            Response::Read(r) => ResponseView::Read(r@),
            Response::Write(r) => ResponseView::Write(*r),
            Response::ReadState(r) => ResponseView::ReadState(*r),
            Response::WriteControl(r) => ResponseView::WriteControl(*r),
            Response::AddDeviceNotification(r) => ResponseView::AddDeviceNotification(*r),
            Response::DeleteDeviceNotification(r) => ResponseView::DeleteDeviceNotification(*r),
            Response::DeviceNotification(r) => ResponseView::DeviceNotification(r@),
            Response::ReadWrite(r) => ResponseView::ReadWrite(r@),
        }
    }
}

impl WriteTo for Response {
    /// The payload of a response. The invalid response has an empty payload.
    open spec fn wire(v: ResponseView) -> Seq<u8> {
        match v {
            ResponseView::Invalid(_) => Seq::empty(),
            ResponseView::ReadDeviceInfo(r) => ReadDeviceInfoResponse::wire(r),
            ResponseView::Read(r) => ReadResponse::wire(r),
            ResponseView::Write(r) => WriteResponse::wire(r),
            ResponseView::ReadState(r) => ReadStateResponse::wire(r),
            ResponseView::WriteControl(r) => WriteControlResponse::wire(r),
            ResponseView::AddDeviceNotification(r) => AddDeviceNotificationResponse::wire(r),
            ResponseView::DeleteDeviceNotification(r) => DeleteDeviceNotificationResponse::wire(r),
            ResponseView::DeviceNotification(r) => AdsNotificationStream::wire(r),
            ResponseView::ReadWrite(r) => ReadWriteResponse::wire(r),
        }
    }

    fn write_to(&self, wtr: &mut Vec<u8>) -> (res: Result<(), ProtoError>) {
        match self {
            Response::Invalid(_) => Ok(()),
            Response::ReadDeviceInfo(w) => w.write_to(wtr),
            Response::Read(w) => w.write_to(wtr),
            Response::Write(w) => w.write_to(wtr),
            Response::ReadState(w) => w.write_to(wtr),
            Response::WriteControl(w) => w.write_to(wtr),
            Response::AddDeviceNotification(w) => w.write_to(wtr),
            Response::DeleteDeviceNotification(w) => w.write_to(wtr),
            Response::DeviceNotification(w) => w.write_to(wtr),
            Response::ReadWrite(w) => w.write_to(wtr),
        }
    }
}

impl Command for Response {
    open spec fn command(&self) -> CommandID {
        self@.command()
    }

    fn command_id(&self) -> (command: CommandID) {
        match self {
            Response::Invalid(_) => CommandID::Invalid,
            Response::ReadDeviceInfo(_) => CommandID::ReadDeviceInfo,
            Response::Read(_) => CommandID::Read,
            Response::Write(_) => CommandID::Write,
            Response::ReadState(_) => CommandID::ReadState,
            Response::WriteControl(_) => CommandID::WriteControl,
            Response::AddDeviceNotification(_) => CommandID::AddDeviceNotification,
            Response::DeleteDeviceNotification(_) => CommandID::DeleteDeviceNotification,
            Response::DeviceNotification(_) => CommandID::DeviceNotification,
            Response::ReadWrite(_) => CommandID::ReadWrite,
        }
    }
}

impl Response {
    /// The response that the payload of a frame stands for, under the command
    /// of the frame. The invalid command has no payload.
    pub open spec fn parse_payload(command: CommandID, payload: Seq<u8>) -> Result<
        ResponseView,
        ProtoError,
    > {
        match command {
            CommandID::Invalid => Err(ProtoError::InvalidCommand),
            CommandID::ReadDeviceInfo => match ReadDeviceInfoResponse::parse(payload) {
                Ok((r, _)) => Ok(ResponseView::ReadDeviceInfo(r)),
                Err(e) => Err(e),
            },
            CommandID::Read => match ReadResponse::parse(payload) {
                Ok((r, _)) => Ok(ResponseView::Read(r)),
                Err(e) => Err(e),
            },
            CommandID::Write => match WriteResponse::parse(payload) {
                Ok((r, _)) => Ok(ResponseView::Write(r)),
                Err(e) => Err(e),
            },
            CommandID::ReadState => match ReadStateResponse::parse(payload) {
                Ok((r, _)) => Ok(ResponseView::ReadState(r)),
                Err(e) => Err(e),
            },
            CommandID::WriteControl => match WriteControlResponse::parse(payload) {
                Ok((r, _)) => Ok(ResponseView::WriteControl(r)),
                Err(e) => Err(e),
            },
            CommandID::AddDeviceNotification => match AddDeviceNotificationResponse::parse(
                payload,
            ) {
                Ok((r, _)) => Ok(ResponseView::AddDeviceNotification(r)),
                Err(e) => Err(e),
            },
            CommandID::DeleteDeviceNotification => match DeleteDeviceNotificationResponse::parse(
                payload,
            ) {
                Ok((r, _)) => Ok(ResponseView::DeleteDeviceNotification(r)),
                Err(e) => Err(e),
            },
            CommandID::DeviceNotification => match AdsNotificationStream::parse(payload) {
                Ok((r, _)) => Ok(ResponseView::DeviceNotification(r)),
                Err(e) => Err(e),
            },
            CommandID::ReadWrite => match ReadWriteResponse::parse(payload) {
                Ok((r, _)) => Ok(ResponseView::ReadWrite(r)),
                Err(e) => Err(e),
            },
        }
    }

    /// Decodes the payload of a frame as the response of `command`.
    pub fn read_payload(command: CommandID, payload: &[u8]) -> (res: Result<Response, ProtoError>)
        ensures
            match res {
                Ok(response) => Response::parse_payload(command, payload@) == Ok::<
                    ResponseView,
                    ProtoError,
                >(response@),
                Err(e) => Response::parse_payload(command, payload@) == Err::<
                    ResponseView,
                    ProtoError,
                >(e),
            },
    {
        match command {
            CommandID::Invalid => Err(ProtoError::InvalidCommand),
            CommandID::ReadDeviceInfo => match read_front::<ReadDeviceInfoResponse>(payload) {
                Ok(r) => Ok(Response::ReadDeviceInfo(r)),
                Err(e) => Err(e),
            },
            CommandID::Read => match read_front::<ReadResponse>(payload) {
                Ok(r) => Ok(Response::Read(r)),
                Err(e) => Err(e),
            },
            CommandID::Write => match read_front::<WriteResponse>(payload) {
                Ok(r) => Ok(Response::Write(r)),
                Err(e) => Err(e),
            },
            CommandID::ReadState => match read_front::<ReadStateResponse>(payload) {
                Ok(r) => Ok(Response::ReadState(r)),
                Err(e) => Err(e),
            },
            CommandID::WriteControl => match read_front::<WriteControlResponse>(payload) {
                Ok(r) => Ok(Response::WriteControl(r)),
                Err(e) => Err(e),
            },
            CommandID::AddDeviceNotification => match read_front::<AddDeviceNotificationResponse>(
                payload,
            ) {
                Ok(r) => Ok(Response::AddDeviceNotification(r)),
                Err(e) => Err(e),
            },
            CommandID::DeleteDeviceNotification => match read_front::<DeleteDeviceNotificationResponse>(
                payload,
            ) {
                Ok(r) => Ok(Response::DeleteDeviceNotification(r)),
                Err(e) => Err(e),
            },
            CommandID::DeviceNotification => match read_front::<AdsNotificationStream>(payload) {
                Ok(r) => Ok(Response::DeviceNotification(r)),
                Err(e) => Err(e),
            },
            CommandID::ReadWrite => match read_front::<ReadWriteResponse>(payload) {
                Ok(r) => Ok(Response::ReadWrite(r)),
                Err(e) => Err(e),
            },
        }
    }
}

/// A response that decoding can give back is read back from its own payload,
/// under its own command, unchanged. The invalid response is none such: the
/// invalid command has no payload.
pub proof fn lemma_response_round_trip(v: ResponseView)
    requires
        v.wf(),
        !(v is Invalid),
    ensures
        Response::parse_payload(v.command(), Response::wire(v)) == Ok::<ResponseView, ProtoError>(
            v,
        ),
{
    match v {
        ResponseView::ReadDeviceInfo(r) => lemma_read_device_info_response_round_trip(
            r,
            Seq::empty(),
        ),
        ResponseView::Read(r) => lemma_read_response_round_trip(r),
        ResponseView::Write(r) => lemma_write_response_round_trip(r, Seq::empty()),
        ResponseView::ReadState(r) => lemma_read_state_response_round_trip(r, Seq::empty()),
        ResponseView::WriteControl(r) => lemma_write_control_response_round_trip(r, Seq::empty()),
        ResponseView::AddDeviceNotification(r) => lemma_add_device_notification_response_round_trip(
            r,
            Seq::empty(),
        ),
        ResponseView::DeleteDeviceNotification(r) => lemma_delete_device_notification_response_round_trip(
            r,
            Seq::empty(),
        ),
        ResponseView::DeviceNotification(r) => lemma_stream_round_trip(r, Seq::empty()),
        ResponseView::ReadWrite(r) => lemma_read_write_response_round_trip(r),
        _ => {},
    }
    assert(Response::wire(v) + Seq::<u8>::empty() =~= Response::wire(v));
}

impl From<InvalidResponse> for Response {
    fn from(response: InvalidResponse) -> (wrapped: Response) {
        Response::Invalid(response)
    }
}

impl vstd::std_specs::convert::FromSpecImpl<InvalidResponse> for Response {
    open spec fn obeys_from_spec() -> bool {
        true
    }

    open spec fn from_spec(response: InvalidResponse) -> Response {
        Response::Invalid(response)
    }
}

impl TryFrom<Response> for InvalidResponse {
    type Error = TryIntoError;

    fn try_from(response: Response) -> (res: Result<InvalidResponse, TryIntoError>) {
        match response {
            Response::Invalid(r) => Ok(r),
            _ => Err(TryIntoError::TryIntoResponseFailed),
        }
    }
}

impl vstd::std_specs::convert::TryFromSpecImpl<Response> for InvalidResponse {
    open spec fn obeys_try_from_spec() -> bool {
        true
    }

    open spec fn try_from_spec(response: Response) -> Result<InvalidResponse, TryIntoError> {
        match response {
            Response::Invalid(r) => Ok(r),
            _ => Err(TryIntoError::TryIntoResponseFailed),
        }
    }
}

impl From<ReadDeviceInfoResponse> for Response {
    fn from(response: ReadDeviceInfoResponse) -> (wrapped: Response) {
        Response::ReadDeviceInfo(response)
    }
}

impl vstd::std_specs::convert::FromSpecImpl<ReadDeviceInfoResponse> for Response {
    open spec fn obeys_from_spec() -> bool {
        true
    }

    open spec fn from_spec(response: ReadDeviceInfoResponse) -> Response {
        Response::ReadDeviceInfo(response)
    }
}

impl TryFrom<Response> for ReadDeviceInfoResponse {
    type Error = TryIntoError;

    fn try_from(response: Response) -> (res: Result<ReadDeviceInfoResponse, TryIntoError>) {
        match response {
            Response::ReadDeviceInfo(r) => Ok(r),
            _ => Err(TryIntoError::TryIntoResponseFailed),
        }
    }
}

impl vstd::std_specs::convert::TryFromSpecImpl<Response> for ReadDeviceInfoResponse {
    open spec fn obeys_try_from_spec() -> bool {
        true
    }

    open spec fn try_from_spec(response: Response) -> Result<ReadDeviceInfoResponse, TryIntoError> {
        match response {
            Response::ReadDeviceInfo(r) => Ok(r),
            _ => Err(TryIntoError::TryIntoResponseFailed),
        }
    }
}

impl From<ReadResponse> for Response {
    fn from(response: ReadResponse) -> (wrapped: Response) {
        Response::Read(response)
    }
}

impl vstd::std_specs::convert::FromSpecImpl<ReadResponse> for Response {
    open spec fn obeys_from_spec() -> bool {
        true
    }

    open spec fn from_spec(response: ReadResponse) -> Response {
        Response::Read(response)
    }
}

impl TryFrom<Response> for ReadResponse {
    type Error = TryIntoError;

    fn try_from(response: Response) -> (res: Result<ReadResponse, TryIntoError>) {
        match response {
            Response::Read(r) => Ok(r),
            _ => Err(TryIntoError::TryIntoResponseFailed),
        }
    }
}

impl vstd::std_specs::convert::TryFromSpecImpl<Response> for ReadResponse {
    open spec fn obeys_try_from_spec() -> bool {
        true
    }

    open spec fn try_from_spec(response: Response) -> Result<ReadResponse, TryIntoError> {
        match response {
            Response::Read(r) => Ok(r),
            _ => Err(TryIntoError::TryIntoResponseFailed),
        }
    }
}

impl From<WriteResponse> for Response {
    fn from(response: WriteResponse) -> (wrapped: Response) {
        Response::Write(response)
    }
}

impl vstd::std_specs::convert::FromSpecImpl<WriteResponse> for Response {
    open spec fn obeys_from_spec() -> bool {
        true
    }

    open spec fn from_spec(response: WriteResponse) -> Response {
        Response::Write(response)
    }
}

impl TryFrom<Response> for WriteResponse {
    type Error = TryIntoError;

    fn try_from(response: Response) -> (res: Result<WriteResponse, TryIntoError>) {
        match response {
            Response::Write(r) => Ok(r),
            _ => Err(TryIntoError::TryIntoResponseFailed),
        }
    }
}

impl vstd::std_specs::convert::TryFromSpecImpl<Response> for WriteResponse {
    open spec fn obeys_try_from_spec() -> bool {
        true
    }

    open spec fn try_from_spec(response: Response) -> Result<WriteResponse, TryIntoError> {
        match response {
            Response::Write(r) => Ok(r),
            _ => Err(TryIntoError::TryIntoResponseFailed),
        }
    }
}

impl From<ReadStateResponse> for Response {
    fn from(response: ReadStateResponse) -> (wrapped: Response) {
        Response::ReadState(response)
    }
}

impl vstd::std_specs::convert::FromSpecImpl<ReadStateResponse> for Response {
    open spec fn obeys_from_spec() -> bool {
        true
    }

    open spec fn from_spec(response: ReadStateResponse) -> Response {
        Response::ReadState(response)
    }
}

impl TryFrom<Response> for ReadStateResponse {
    type Error = TryIntoError;

    fn try_from(response: Response) -> (res: Result<ReadStateResponse, TryIntoError>) {
        match response {
            Response::ReadState(r) => Ok(r),
            _ => Err(TryIntoError::TryIntoResponseFailed),
        }
    }
}

impl vstd::std_specs::convert::TryFromSpecImpl<Response> for ReadStateResponse {
    open spec fn obeys_try_from_spec() -> bool {
        true
    }

    open spec fn try_from_spec(response: Response) -> Result<ReadStateResponse, TryIntoError> {
        match response {
            Response::ReadState(r) => Ok(r),
            _ => Err(TryIntoError::TryIntoResponseFailed),
        }
    }
}

impl From<WriteControlResponse> for Response {
    fn from(response: WriteControlResponse) -> (wrapped: Response) {
        Response::WriteControl(response)
    }
}

impl vstd::std_specs::convert::FromSpecImpl<WriteControlResponse> for Response {
    open spec fn obeys_from_spec() -> bool {
        true
    }

    open spec fn from_spec(response: WriteControlResponse) -> Response {
        Response::WriteControl(response)
    }
}

impl TryFrom<Response> for WriteControlResponse {
    type Error = TryIntoError;

    fn try_from(response: Response) -> (res: Result<WriteControlResponse, TryIntoError>) {
        match response {
            Response::WriteControl(r) => Ok(r),
            _ => Err(TryIntoError::TryIntoResponseFailed),
        }
    }
}

impl vstd::std_specs::convert::TryFromSpecImpl<Response> for WriteControlResponse {
    open spec fn obeys_try_from_spec() -> bool {
        true
    }

    open spec fn try_from_spec(response: Response) -> Result<WriteControlResponse, TryIntoError> {
        match response {
            Response::WriteControl(r) => Ok(r),
            _ => Err(TryIntoError::TryIntoResponseFailed),
        }
    }
}

impl From<AddDeviceNotificationResponse> for Response {
    fn from(response: AddDeviceNotificationResponse) -> (wrapped: Response) {
        Response::AddDeviceNotification(response)
    }
}

impl vstd::std_specs::convert::FromSpecImpl<AddDeviceNotificationResponse> for Response {
    open spec fn obeys_from_spec() -> bool {
        true
    }

    open spec fn from_spec(response: AddDeviceNotificationResponse) -> Response {
        Response::AddDeviceNotification(response)
    }
}

impl TryFrom<Response> for AddDeviceNotificationResponse {
    type Error = TryIntoError;

    fn try_from(response: Response) -> (res: Result<AddDeviceNotificationResponse, TryIntoError>) {
        match response {
            Response::AddDeviceNotification(r) => Ok(r),
            _ => Err(TryIntoError::TryIntoResponseFailed),
        }
    }
}

impl vstd::std_specs::convert::TryFromSpecImpl<Response> for AddDeviceNotificationResponse {
    open spec fn obeys_try_from_spec() -> bool {
        true
    }

    open spec fn try_from_spec(
        response: Response,
    ) -> Result<AddDeviceNotificationResponse, TryIntoError> {
        match response {
            Response::AddDeviceNotification(r) => Ok(r),
            _ => Err(TryIntoError::TryIntoResponseFailed),
        }
    }
}

impl From<DeleteDeviceNotificationResponse> for Response {
    fn from(response: DeleteDeviceNotificationResponse) -> (wrapped: Response) {
        Response::DeleteDeviceNotification(response)
    }
}

impl vstd::std_specs::convert::FromSpecImpl<DeleteDeviceNotificationResponse> for Response {
    open spec fn obeys_from_spec() -> bool {
        true
    }

    open spec fn from_spec(response: DeleteDeviceNotificationResponse) -> Response {
        Response::DeleteDeviceNotification(response)
    }
}

impl TryFrom<Response> for DeleteDeviceNotificationResponse {
    type Error = TryIntoError;

    fn try_from(
        response: Response,
    ) -> (res: Result<DeleteDeviceNotificationResponse, TryIntoError>) {
        match response {
            Response::DeleteDeviceNotification(r) => Ok(r),
            _ => Err(TryIntoError::TryIntoResponseFailed),
        }
    }
}

impl vstd::std_specs::convert::TryFromSpecImpl<Response> for DeleteDeviceNotificationResponse {
    open spec fn obeys_try_from_spec() -> bool {
        true
    }

    open spec fn try_from_spec(
        response: Response,
    ) -> Result<DeleteDeviceNotificationResponse, TryIntoError> {
        match response {
            Response::DeleteDeviceNotification(r) => Ok(r),
            _ => Err(TryIntoError::TryIntoResponseFailed),
        }
    }
}

impl From<AdsNotificationStream> for Response {
    fn from(response: AdsNotificationStream) -> (wrapped: Response) {
        Response::DeviceNotification(response)
    }
}

impl vstd::std_specs::convert::FromSpecImpl<AdsNotificationStream> for Response {
    open spec fn obeys_from_spec() -> bool {
        true
    }

    open spec fn from_spec(response: AdsNotificationStream) -> Response {
        Response::DeviceNotification(response)
    }
}

impl TryFrom<Response> for AdsNotificationStream {
    type Error = TryIntoError;

    fn try_from(response: Response) -> (res: Result<AdsNotificationStream, TryIntoError>) {
        match response {
            Response::DeviceNotification(r) => Ok(r),
            _ => Err(TryIntoError::TryIntoResponseFailed),
        }
    }
}

impl vstd::std_specs::convert::TryFromSpecImpl<Response> for AdsNotificationStream {
    open spec fn obeys_try_from_spec() -> bool {
        true
    }

    open spec fn try_from_spec(response: Response) -> Result<AdsNotificationStream, TryIntoError> {
        match response {
            Response::DeviceNotification(r) => Ok(r),
            _ => Err(TryIntoError::TryIntoResponseFailed),
        }
    }
}

impl From<ReadWriteResponse> for Response {
    fn from(response: ReadWriteResponse) -> (wrapped: Response) {
        Response::ReadWrite(response)
    }
}

impl vstd::std_specs::convert::FromSpecImpl<ReadWriteResponse> for Response {
    open spec fn obeys_from_spec() -> bool {
        true
    }

    open spec fn from_spec(response: ReadWriteResponse) -> Response {
        Response::ReadWrite(response)
    }
}

impl TryFrom<Response> for ReadWriteResponse {
    type Error = TryIntoError;

    fn try_from(response: Response) -> (res: Result<ReadWriteResponse, TryIntoError>) {
        match response {
            Response::ReadWrite(r) => Ok(r),
            _ => Err(TryIntoError::TryIntoResponseFailed),
        }
    }
}

impl vstd::std_specs::convert::TryFromSpecImpl<Response> for ReadWriteResponse {
    open spec fn obeys_try_from_spec() -> bool {
        true
    }

    open spec fn try_from_spec(response: Response) -> Result<ReadWriteResponse, TryIntoError> {
        match response {
            Response::ReadWrite(r) => Ok(r),
            _ => Err(TryIntoError::TryIntoResponseFailed),
        }
    }
}

/// The response to the invalid command.
#[derive(Debug, Clone, Copy, PartialEq, Eq, Structural)]
pub struct InvalidResponse {
    pub command_id: CommandID,
}

impl InvalidResponse {
    /// The response with the given fields.
    pub fn new() -> (response: Self)
        ensures
            response.command_id == CommandID::Invalid,
    {
        InvalidResponse { command_id: CommandID::Invalid }
    }
}

impl Default for InvalidResponse {
    fn default() -> (response: Self)
        ensures
            response.command_id == CommandID::Invalid,
    {
        Self::new()
    }
}

/// What a device info response is.
pub struct ReadDeviceInfoResponseView {
    pub result: AdsError,
    pub major_version: u8,
    pub minor_version: u8,
    pub version_build: u16,
    pub device_name: Seq<u8>,
    pub command_id: CommandID,
}

impl ReadDeviceInfoResponseView {
    /// The status is canonical, the name has sixteen bytes, and the command
    /// is this response's.
    pub open spec fn wf(self) -> bool {
        &&& self.result.is_canonical()
        &&& self.device_name.len() == 16
        &&& self.command_id == CommandID::ReadDeviceInfo
    }
}

/// Name and version of a device.
#[derive(Debug, PartialEq, Eq, Clone)]
pub struct ReadDeviceInfoResponse {
    pub result: AdsError,
    pub major_version: u8,
    pub minor_version: u8,
    pub version_build: u16,
    pub device_name: [u8; 16],
    pub command_id: CommandID,
}

impl View for ReadDeviceInfoResponse {
    type V = ReadDeviceInfoResponseView;

    open spec fn view(&self) -> ReadDeviceInfoResponseView {
        ReadDeviceInfoResponseView {
            result: self.result,
            major_version: self.major_version,
            minor_version: self.minor_version,
            version_build: self.version_build,
            device_name: self.device_name@,
            command_id: self.command_id,
        }
    }
}

impl ReadFrom for ReadDeviceInfoResponse {
    open spec fn parse(bytes: Seq<u8>) -> Result<(ReadDeviceInfoResponseView, nat), ProtoError> {
        if bytes.len() < 24 {
            Err(ProtoError::UnexpectedEof)
        } else {
            Ok(
                (
                    ReadDeviceInfoResponseView {
                        result: AdsError::of_code(u32_at(bytes, 0)),
                        major_version: bytes[4],
                        minor_version: bytes[5],
                        version_build: u16_at(bytes, 6),
                        device_name: bytes.subrange(8, 24),
                        command_id: CommandID::ReadDeviceInfo,
                    },
                    24,
                ),
            )
        }
    }

    fn read_from(read: &mut &[u8]) -> (res: Result<Self, ProtoError>) {
        let buf: &[u8] = *read;
        if buf.len() < 24 {
            return Err(ProtoError::UnexpectedEof);
        }
        let response = ReadDeviceInfoResponse {
            result: AdsError::from_code(get_u32(buf, 0)),
            major_version: buf[4],
            minor_version: buf[5],
            version_build: get_u16(buf, 6),
            device_name: get_array::<16>(buf, 8),
            command_id: CommandID::ReadDeviceInfo,
        };
        advance(read, 24);
        Ok(response)
    }
}

impl WriteTo for ReadDeviceInfoResponse {
    open spec fn wire(v: ReadDeviceInfoResponseView) -> Seq<u8> {
        u32_to_le(v.result.code()) + seq![v.major_version, v.minor_version] + u16_to_le(
            v.version_build,
        ) + v.device_name
    }

    fn write_to(&self, wtr: &mut Vec<u8>) -> (res: Result<(), ProtoError>) {
        put_u32(wtr, self.result.as_u32());
        wtr.push(self.major_version);
        wtr.push(self.minor_version);
        put_u16(wtr, self.version_build);
        put_bytes(wtr, self.device_name.as_slice());
        assert(wtr@ =~= old(wtr)@ + Self::wire(self@));
        Ok(())
    }
}

/// A name without the zero bytes at its end.
pub open spec fn trim_zeros(name: Seq<u8>) -> Seq<u8>
    decreases name.len(),
{
    if name.len() > 0 && name.last() == 0 {
        trim_zeros(name.drop_last())
    } else {
        name
    }
}

/// The field of sixteen bytes that holds a name: its first sixteen bytes,
/// and zeros where it has fewer.
pub open spec fn name_field(name: Seq<u8>) -> Seq<u8> {
    Seq::new(
        16,
        |i: int|
            if i < name.len() {
                name[i]
            } else {
                0u8
            },
    )
}

/// `std::string::FromUtf8Error`, the error of `String::from_utf8`. It is
/// carried from the call to the caller and not looked into.
#[verifier::external_type_specification]
#[verifier::external_body]
pub struct ExFromUtf8Error(std::string::FromUtf8Error);

/// Calls `String::from_utf8`, which succeeds on the bytes that are valid
/// UTF-8 and on no others, and gives the string that they encode.
#[verifier::external_body]
fn string_from_utf8(bytes: Vec<u8>) -> (res: Result<String, std::string::FromUtf8Error>)
    ensures
        res is Ok <==> valid_utf8(bytes@),
        res matches Ok(text) ==> text@ == decode_utf8(bytes@),
{
    String::from_utf8(bytes)
}

impl ReadDeviceInfoResponse {
    /// The response with the given fields.
    pub fn new(
        result: AdsError,
        major_version: u8,
        minor_version: u8,
        version_build: u16,
        device_name: [u8; 16],
    ) -> (response: Self)
        ensures
            response@ == (ReadDeviceInfoResponseView {
                result,
                major_version,
                minor_version,
                version_build,
                device_name: device_name@,
                command_id: CommandID::ReadDeviceInfo,
            }),
    {
        ReadDeviceInfoResponse {
            result,
            major_version,
            minor_version,
            version_build,
            device_name,
            command_id: CommandID::ReadDeviceInfo,
        }
    }

    /// The name of the device: the bytes of the name field up to the zeros
    /// at its end, as text. Fails where those bytes are no valid UTF-8.
    pub fn get_device_name(&self) -> (res: Result<String, std::string::FromUtf8Error>)
        ensures
            res is Ok <==> valid_utf8(trim_zeros(self.device_name@)),
            res matches Ok(name) ==> name@ == decode_utf8(trim_zeros(self.device_name@)),
    {
        let mut end: usize = 16;
        assert(self.device_name@.take(16) =~= self.device_name@);
        while end > 0 && self.device_name[end - 1] == 0
            invariant
                end <= 16,
                trim_zeros(self.device_name@) == trim_zeros(self.device_name@.take(end as int)),
            decreases end,
        {
            assert(self.device_name@.take(end as int).drop_last() =~= self.device_name@.take(
                end - 1,
            ));
            end -= 1;
        }
        assert(self.device_name@.subrange(0, end as int) =~= self.device_name@.take(end as int));
        string_from_utf8(get_bytes(self.device_name.as_slice(), 0, end))
    }

    /// The name field for a name: its bytes, cut after the sixteenth, and
    /// zeros behind a shorter name.
    pub fn create_device_name_buf(device_name: &str) -> (buf: [u8; 16])
        ensures
            buf@ == name_field(encode_utf8(device_name@)),
    {
        let bytes = device_name.as_bytes();
        let mut device_name_buffer: [u8; 16] = [0;16];
        let mut n: usize = 0;
        while n < 16 && n < bytes.len()
            invariant
                n <= 16,
                n <= bytes.len(),
                bytes@ == encode_utf8(device_name@),
                forall|i: int| 0 <= i < n ==> device_name_buffer@[i] == bytes@[i],
                forall|i: int| n <= i < 16 ==> device_name_buffer@[i] == 0,
            decreases 16 - n,
        {
            device_name_buffer[n] = bytes[n];
            n += 1;
        }
        assert(device_name_buffer@ =~= name_field(encode_utf8(device_name@)));
        device_name_buffer
    }
}

/// A device info response that is written and read again is the same
/// response, whatever follows it in the input.
pub proof fn lemma_read_device_info_response_round_trip(
    v: ReadDeviceInfoResponseView,
    rest: Seq<u8>,
)
    requires
        v.wf(),
    ensures
        ReadDeviceInfoResponse::wire(v).len() == 24,
        ReadDeviceInfoResponse::parse(ReadDeviceInfoResponse::wire(v) + rest) == Ok::<
            (ReadDeviceInfoResponseView, nat),
            ProtoError,
        >((v, 24)),
{
    lemma_le_round_trips();
    lemma_status_code_bijection(v.result, 0);
    let s = ReadDeviceInfoResponse::wire(v) + rest;
    assert(s.subrange(0, 4) =~= u32_to_le(v.result.code()));
    assert(s.subrange(6, 8) =~= u16_to_le(v.version_build));
    assert(s.subrange(8, 24) =~= v.device_name);
}

/// The state of a device.
#[derive(Debug, PartialEq, Eq, Clone, Copy, Structural)]
pub struct ReadStateResponse {
    pub result: AdsError,
    pub ads_state: AdsState,
    pub device_state: u16,
    pub command_id: CommandID,
}

impl View for ReadStateResponse {
    type V = ReadStateResponse;

    open spec fn view(&self) -> ReadStateResponse {
        *self
    }
}

impl ReadFrom for ReadStateResponse {
    open spec fn parse(bytes: Seq<u8>) -> Result<(ReadStateResponse, nat), ProtoError> {
        if bytes.len() < 8 {
            Err(ProtoError::UnexpectedEof)
        } else {
            Ok(
                (
                    ReadStateResponse {
                        result: AdsError::of_code(u32_at(bytes, 0)),
                        ads_state: AdsState::of_code(u16_at(bytes, 4)),
                        device_state: u16_at(bytes, 6),
                        command_id: CommandID::ReadState,
                    },
                    8,
                ),
            )
        }
    }

    fn read_from(read: &mut &[u8]) -> (res: Result<Self, ProtoError>) {
        let buf: &[u8] = *read;
        if buf.len() < 8 {
            return Err(ProtoError::UnexpectedEof);
        }
        let response = ReadStateResponse {
            result: AdsError::from_code(get_u32(buf, 0)),
            ads_state: AdsState::from_code(get_u16(buf, 4)),
            device_state: get_u16(buf, 6),
            command_id: CommandID::ReadState,
        };
        advance(read, 8);
        Ok(response)
    }
}

impl WriteTo for ReadStateResponse {
    open spec fn wire(v: ReadStateResponse) -> Seq<u8> {
        u32_to_le(v.result.code()) + u16_to_le(v.ads_state.code()) + u16_to_le(v.device_state)
    }

    fn write_to(&self, wtr: &mut Vec<u8>) -> (res: Result<(), ProtoError>) {
        put_u32(wtr, self.result.as_u32());
        let _ = self.ads_state.write_to(wtr);
        put_u16(wtr, self.device_state);
        assert(wtr@ =~= old(wtr)@ + Self::wire(self@));
        Ok(())
    }
}

impl ReadStateResponse {
    /// The response with the given fields.
    pub fn new(result: AdsError, ads_state: AdsState, device_state: u16) -> (response: Self)
        ensures
            response == (ReadStateResponse {
                result,
                ads_state,
                device_state,
                command_id: CommandID::ReadState,
            }),
    {
        ReadStateResponse { result, ads_state, device_state, command_id: CommandID::ReadState }
    }

    /// The status is canonical, and the command is this response's.
    pub open spec fn wf(self) -> bool {
        self.result.is_canonical() && self.command_id == CommandID::ReadState
    }
}

/// A state response that is written and read again is the same response,
/// whatever follows it in the input.
pub proof fn lemma_read_state_response_round_trip(v: ReadStateResponse, rest: Seq<u8>)
    requires
        v.wf(),
    ensures
        ReadStateResponse::wire(v).len() == 8,
        ReadStateResponse::parse(ReadStateResponse::wire(v) + rest) == Ok::<
            (ReadStateResponse, nat),
            ProtoError,
        >((v, 8)),
{
    lemma_le_round_trips();
    lemma_status_code_bijection(v.result, 0);
    let s = ReadStateResponse::wire(v) + rest;
    assert(s.subrange(0, 4) =~= u32_to_le(v.result.code()));
    assert(s.subrange(4, 6) =~= u16_to_le(v.ads_state.code()));
    assert(s.subrange(6, 8) =~= u16_to_le(v.device_state));
}

/// The handle under which notifications will come.
#[derive(Debug, PartialEq, Eq, Clone, Copy, Structural)]
pub struct AddDeviceNotificationResponse {
    pub result: AdsError,
    pub notification_handle: u32,
    pub command_id: CommandID,
}

impl View for AddDeviceNotificationResponse {
    type V = AddDeviceNotificationResponse;

    open spec fn view(&self) -> AddDeviceNotificationResponse {
        *self
    }
}

impl ReadFrom for AddDeviceNotificationResponse {
    open spec fn parse(bytes: Seq<u8>) -> Result<(AddDeviceNotificationResponse, nat), ProtoError> {
        if bytes.len() < 8 {
            Err(ProtoError::UnexpectedEof)
        } else {
            Ok(
                (
                    AddDeviceNotificationResponse {
                        result: AdsError::of_code(u32_at(bytes, 0)),
                        notification_handle: u32_at(bytes, 4),
                        command_id: CommandID::AddDeviceNotification,
                    },
                    8,
                ),
            )
        }
    }

    fn read_from(read: &mut &[u8]) -> (res: Result<Self, ProtoError>) {
        let buf: &[u8] = *read;
        if buf.len() < 8 {
            return Err(ProtoError::UnexpectedEof);
        }
        let response = AddDeviceNotificationResponse {
            result: AdsError::from_code(get_u32(buf, 0)),
            notification_handle: get_u32(buf, 4),
            command_id: CommandID::AddDeviceNotification,
        };
        advance(read, 8);
        Ok(response)
    }
}

impl WriteTo for AddDeviceNotificationResponse {
    open spec fn wire(v: AddDeviceNotificationResponse) -> Seq<u8> {
        u32_to_le(v.result.code()) + u32_to_le(v.notification_handle)
    }

    fn write_to(&self, wtr: &mut Vec<u8>) -> (res: Result<(), ProtoError>) {
        put_u32(wtr, self.result.as_u32());
        put_u32(wtr, self.notification_handle);
        assert(wtr@ =~= old(wtr)@ + Self::wire(self@));
        Ok(())
    }
}

impl AddDeviceNotificationResponse {
    /// The response with the given fields.
    pub fn new(result: AdsError, notification_handle: u32) -> (response: Self)
        ensures
            response == (AddDeviceNotificationResponse {
                result,
                notification_handle,
                command_id: CommandID::AddDeviceNotification,
            }),
    {
        AddDeviceNotificationResponse {
            result,
            notification_handle,
            command_id: CommandID::AddDeviceNotification,
        }
    }

    /// The status is canonical, and the command is this response's.
    pub open spec fn wf(self) -> bool {
        self.result.is_canonical() && self.command_id == CommandID::AddDeviceNotification
    }
}

/// A notification handle response that is written and read again is the same
/// response, whatever follows it in the input.
pub proof fn lemma_add_device_notification_response_round_trip(
    v: AddDeviceNotificationResponse,
    rest: Seq<u8>,
)
    requires
        v.wf(),
    ensures
        AddDeviceNotificationResponse::wire(v).len() == 8,
        AddDeviceNotificationResponse::parse(AddDeviceNotificationResponse::wire(v) + rest) == Ok::<
            (AddDeviceNotificationResponse, nat),
            ProtoError,
        >((v, 8)),
{
    lemma_le_round_trips();
    lemma_status_code_bijection(v.result, 0);
    let s = AddDeviceNotificationResponse::wire(v) + rest;
    assert(s.subrange(0, 4) =~= u32_to_le(v.result.code()));
    assert(s.subrange(4, 8) =~= u32_to_le(v.notification_handle));
}

/// The status of a write.
#[derive(Debug, PartialEq, Eq, Clone, Copy, Structural)]
pub struct WriteResponse {
    pub result: AdsError,
    pub command_id: CommandID,
}

impl View for WriteResponse {
    type V = WriteResponse;

    open spec fn view(&self) -> WriteResponse {
        *self
    }
}

impl ReadFrom for WriteResponse {
    open spec fn parse(bytes: Seq<u8>) -> Result<(WriteResponse, nat), ProtoError> {
        if bytes.len() < 4 {
            Err(ProtoError::UnexpectedEof)
        } else {
            Ok(
                (
                    WriteResponse {
                        result: AdsError::of_code(u32_at(bytes, 0)),
                        command_id: CommandID::Write,
                    },
                    4,
                ),
            )
        }
    }

    fn read_from(read: &mut &[u8]) -> (res: Result<Self, ProtoError>) {
        let buf: &[u8] = *read;
        if buf.len() < 4 {
            return Err(ProtoError::UnexpectedEof);
        }
        let response = WriteResponse {
            result: AdsError::from_code(get_u32(buf, 0)),
            command_id: CommandID::Write,
        };
        advance(read, 4);
        Ok(response)
    }
}

impl WriteTo for WriteResponse {
    open spec fn wire(v: WriteResponse) -> Seq<u8> {
        u32_to_le(v.result.code())
    }

    fn write_to(&self, wtr: &mut Vec<u8>) -> (res: Result<(), ProtoError>) {
        put_u32(wtr, self.result.as_u32());
        Ok(())
    }
}

impl WriteResponse {
    /// The response with the given fields.
    pub fn new(result: AdsError) -> (response: Self)
        ensures
            response == (WriteResponse { result, command_id: CommandID::Write }),
    {
        WriteResponse { result, command_id: CommandID::Write }
    }

    /// The status is canonical, and the command is this response's.
    pub open spec fn wf(self) -> bool {
        self.result.is_canonical() && self.command_id == CommandID::Write
    }
}

/// A write response that is written and read again is the same response, whatever
/// follows it in the input.
pub proof fn lemma_write_response_round_trip(v: WriteResponse, rest: Seq<u8>)
    requires
        v.wf(),
    ensures
        WriteResponse::wire(v).len() == 4,
        WriteResponse::parse(WriteResponse::wire(v) + rest)
            == Ok::<(WriteResponse, nat), ProtoError>((v, 4)),
{
    lemma_le_round_trips();
    lemma_status_code_bijection(v.result, 0);
    let s = WriteResponse::wire(v) + rest;
    assert(s.subrange(0, 4) =~= u32_to_le(v.result.code()));
}

/// The status of a change of state.
#[derive(Debug, PartialEq, Eq, Clone, Copy, Structural)]
pub struct WriteControlResponse {
    pub result: AdsError,
    pub command_id: CommandID,
}

impl View for WriteControlResponse {
    type V = WriteControlResponse;

    open spec fn view(&self) -> WriteControlResponse {
        *self
    }
}

impl ReadFrom for WriteControlResponse {
    open spec fn parse(bytes: Seq<u8>) -> Result<(WriteControlResponse, nat), ProtoError> {
        if bytes.len() < 4 {
            Err(ProtoError::UnexpectedEof)
        } else {
            Ok(
                (
                    WriteControlResponse {
                        result: AdsError::of_code(u32_at(bytes, 0)),
                        command_id: CommandID::WriteControl,
                    },
                    4,
                ),
            )
        }
    }

    fn read_from(read: &mut &[u8]) -> (res: Result<Self, ProtoError>) {
        let buf: &[u8] = *read;
        if buf.len() < 4 {
            return Err(ProtoError::UnexpectedEof);
        }
        let response = WriteControlResponse {
            result: AdsError::from_code(get_u32(buf, 0)),
            command_id: CommandID::WriteControl,
        };
        advance(read, 4);
        Ok(response)
    }
}

impl WriteTo for WriteControlResponse {
    open spec fn wire(v: WriteControlResponse) -> Seq<u8> {
        u32_to_le(v.result.code())
    }

    fn write_to(&self, wtr: &mut Vec<u8>) -> (res: Result<(), ProtoError>) {
        put_u32(wtr, self.result.as_u32());
        Ok(())
    }
}

impl WriteControlResponse {
    /// The response with the given fields.
    pub fn new(result: AdsError) -> (response: Self)
        ensures
            response == (WriteControlResponse { result, command_id: CommandID::WriteControl }),
    {
        WriteControlResponse { result, command_id: CommandID::WriteControl }
    }

    /// The status is canonical, and the command is this response's.
    pub open spec fn wf(self) -> bool {
        self.result.is_canonical() && self.command_id == CommandID::WriteControl
    }
}

/// A write control response that is written and read again is the same response, whatever
/// follows it in the input.
pub proof fn lemma_write_control_response_round_trip(v: WriteControlResponse, rest: Seq<u8>)
    requires
        v.wf(),
    ensures
        WriteControlResponse::wire(v).len() == 4,
        WriteControlResponse::parse(WriteControlResponse::wire(v) + rest)
            == Ok::<(WriteControlResponse, nat), ProtoError>((v, 4)),
{
    lemma_le_round_trips();
    lemma_status_code_bijection(v.result, 0);
    let s = WriteControlResponse::wire(v) + rest;
    assert(s.subrange(0, 4) =~= u32_to_le(v.result.code()));
}

/// The status of ending notifications.
#[derive(Debug, PartialEq, Eq, Clone, Copy, Structural)]
pub struct DeleteDeviceNotificationResponse {
    pub result: AdsError,
    pub command_id: CommandID,
}

impl View for DeleteDeviceNotificationResponse {
    type V = DeleteDeviceNotificationResponse;

    open spec fn view(&self) -> DeleteDeviceNotificationResponse {
        *self
    }
}

impl ReadFrom for DeleteDeviceNotificationResponse {
    open spec fn parse(
        bytes: Seq<u8>,
    ) -> Result<(DeleteDeviceNotificationResponse, nat), ProtoError> {
        if bytes.len() < 4 {
            Err(ProtoError::UnexpectedEof)
        } else {
            Ok(
                (
                    DeleteDeviceNotificationResponse {
                        result: AdsError::of_code(u32_at(bytes, 0)),
                        command_id: CommandID::DeleteDeviceNotification,
                    },
                    4,
                ),
            )
        }
    }

    fn read_from(read: &mut &[u8]) -> (res: Result<Self, ProtoError>) {
        let buf: &[u8] = *read;
        if buf.len() < 4 {
            return Err(ProtoError::UnexpectedEof);
        }
        let response = DeleteDeviceNotificationResponse {
            result: AdsError::from_code(get_u32(buf, 0)),
            command_id: CommandID::DeleteDeviceNotification,
        };
        advance(read, 4);
        Ok(response)
    }
}

impl WriteTo for DeleteDeviceNotificationResponse {
    open spec fn wire(v: DeleteDeviceNotificationResponse) -> Seq<u8> {
        u32_to_le(v.result.code())
    }

    fn write_to(&self, wtr: &mut Vec<u8>) -> (res: Result<(), ProtoError>) {
        put_u32(wtr, self.result.as_u32());
        Ok(())
    }
}

impl DeleteDeviceNotificationResponse {
    /// The response with the given fields.
    pub fn new(result: AdsError) -> (response: Self)
        ensures
            response == (DeleteDeviceNotificationResponse {
                result,
                command_id: CommandID::DeleteDeviceNotification,
            }),
    {
        DeleteDeviceNotificationResponse { result, command_id: CommandID::DeleteDeviceNotification }
    }

    /// The status is canonical, and the command is this response's.
    pub open spec fn wf(self) -> bool {
        self.result.is_canonical() && self.command_id == CommandID::DeleteDeviceNotification
    }
}

/// A response to ending notifications that is written and read again is the same response, whatever
/// follows it in the input.
pub proof fn lemma_delete_device_notification_response_round_trip(
    v: DeleteDeviceNotificationResponse,
    rest: Seq<u8>,
)
    requires
        v.wf(),
    ensures
        DeleteDeviceNotificationResponse::wire(v).len() == 4,
        DeleteDeviceNotificationResponse::parse(DeleteDeviceNotificationResponse::wire(v) + rest)
            == Ok::<(DeleteDeviceNotificationResponse, nat), ProtoError>((v, 4)),
{
    lemma_le_round_trips();
    lemma_status_code_bijection(v.result, 0);
    let s = DeleteDeviceNotificationResponse::wire(v) + rest;
    assert(s.subrange(0, 4) =~= u32_to_le(v.result.code()));
}

/// What a read response is.
pub struct ReadResponseView {
    pub result: AdsError,
    pub length: u32,
    pub data: Seq<u8>,
    pub command_id: CommandID,
}

impl ReadResponseView {
    /// The status is canonical, and the command is this response's.
    pub open spec fn wf(self) -> bool {
        self.result.is_canonical() && self.command_id == CommandID::Read
    }
}

/// The bytes that were read.
#[derive(Debug, Clone, PartialEq, Eq)]
pub struct ReadResponse {
    pub result: AdsError,
    pub length: u32,
    pub data: Vec<u8>,
    pub command_id: CommandID,
}

impl View for ReadResponse {
    type V = ReadResponseView;

    open spec fn view(&self) -> ReadResponseView {
        ReadResponseView {
            result: self.result,
            length: self.length,
            data: self.data@,
            command_id: self.command_id,
        }
    }
}

impl ReadFrom for ReadResponse {
    /// The data of the response is all that follows its two integers,
    /// whatever length it declares.
    open spec fn parse(bytes: Seq<u8>) -> Result<(ReadResponseView, nat), ProtoError> {
        if bytes.len() < 8 {
            Err(ProtoError::UnexpectedEof)
        } else {
            Ok(
                (
                    ReadResponseView {
                        result: AdsError::of_code(u32_at(bytes, 0)),
                        length: u32_at(bytes, 4),
                        data: bytes.skip(8),
                        command_id: CommandID::Read,
                    },
                    bytes.len(),
                ),
            )
        }
    }

    fn read_from(read: &mut &[u8]) -> (res: Result<Self, ProtoError>) {
        let buf: &[u8] = *read;
        if buf.len() < 8 {
            return Err(ProtoError::UnexpectedEof);
        }
        let response = ReadResponse {
            result: AdsError::from_code(get_u32(buf, 0)),
            length: get_u32(buf, 4),
            data: get_bytes(buf, 8, buf.len()),
            command_id: CommandID::Read,
        };
        advance(read, buf.len());
        Ok(response)
    }
}

impl WriteTo for ReadResponse {
    open spec fn wire(v: ReadResponseView) -> Seq<u8> {
        u32_to_le(v.result.code()) + u32_to_le(v.length) + v.data
    }

    fn write_to(&self, wtr: &mut Vec<u8>) -> (res: Result<(), ProtoError>) {
        put_u32(wtr, self.result.as_u32());
        put_u32(wtr, self.length);
        put_bytes(wtr, self.data.as_slice());
        assert(wtr@ =~= old(wtr)@ + Self::wire(self@));
        Ok(())
    }
}

impl ReadResponse {
    /// A response whose length is that of `data`.
    pub fn new(result: AdsError, data: Vec<u8>) -> (response: Self)
        requires
            data.len() <= u32::MAX,
        ensures
            response@ == (ReadResponseView {
                result,
                length: data.len() as u32,
                data: data@,
                command_id: CommandID::Read,
            }),
    {
        ReadResponse { result, length: data.len() as u32, data, command_id: CommandID::Read }
    }
}

/// A read response that is written and read again is the same response, also where
/// its length is not that of its data.
pub proof fn lemma_read_response_round_trip(v: ReadResponseView)
    requires
        v.wf(),
    ensures
        ReadResponse::wire(v).len() == 8 + v.data.len(),
        ReadResponse::parse(ReadResponse::wire(v)) == Ok::<(ReadResponseView, nat), ProtoError>(
            (v, ReadResponse::wire(v).len()),
        ),
{
    lemma_le_round_trips();
    lemma_status_code_bijection(v.result, 0);
    let s = ReadResponse::wire(v);
    assert(s.subrange(0, 4) =~= u32_to_le(v.result.code()));
    assert(s.subrange(4, 8) =~= u32_to_le(v.length));
    assert(s.skip(8) =~= v.data);
}

/// What a read-write response is.
pub struct ReadWriteResponseView {
    pub result: AdsError,
    pub length: u32,
    pub data: Seq<u8>,
    pub command_id: CommandID,
}

impl ReadWriteResponseView {
    /// The status is canonical, and the command is this response's.
    pub open spec fn wf(self) -> bool {
        self.result.is_canonical() && self.command_id == CommandID::ReadWrite
    }
}

/// The bytes that were read after writing.
#[derive(Debug, Clone, PartialEq, Eq)]
pub struct ReadWriteResponse {
    pub result: AdsError,
    pub length: u32,
    pub data: Vec<u8>,
    pub command_id: CommandID,
}

impl View for ReadWriteResponse {
    type V = ReadWriteResponseView;

    open spec fn view(&self) -> ReadWriteResponseView {
        ReadWriteResponseView {
            result: self.result,
            length: self.length,
            data: self.data@,
            command_id: self.command_id,
        }
    }
}

impl ReadFrom for ReadWriteResponse {
    /// The data of the response is all that follows its two integers,
    /// whatever length it declares.
    open spec fn parse(bytes: Seq<u8>) -> Result<(ReadWriteResponseView, nat), ProtoError> {
        if bytes.len() < 8 {
            Err(ProtoError::UnexpectedEof)
        } else {
            Ok(
                (
                    ReadWriteResponseView {
                        result: AdsError::of_code(u32_at(bytes, 0)),
                        length: u32_at(bytes, 4),
                        data: bytes.skip(8),
                        command_id: CommandID::ReadWrite,
                    },
                    bytes.len(),
                ),
            )
        }
    }

    fn read_from(read: &mut &[u8]) -> (res: Result<Self, ProtoError>) {
        let buf: &[u8] = *read;
        if buf.len() < 8 {
            return Err(ProtoError::UnexpectedEof);
        }
        let response = ReadWriteResponse {
            result: AdsError::from_code(get_u32(buf, 0)),
            length: get_u32(buf, 4),
            data: get_bytes(buf, 8, buf.len()),
            command_id: CommandID::ReadWrite,
        };
        advance(read, buf.len());
        Ok(response)
    }
}

impl WriteTo for ReadWriteResponse {
    open spec fn wire(v: ReadWriteResponseView) -> Seq<u8> {
        u32_to_le(v.result.code()) + u32_to_le(v.length) + v.data
    }

    fn write_to(&self, wtr: &mut Vec<u8>) -> (res: Result<(), ProtoError>) {
        put_u32(wtr, self.result.as_u32());
        put_u32(wtr, self.length);
        put_bytes(wtr, self.data.as_slice());
        assert(wtr@ =~= old(wtr)@ + Self::wire(self@));
        Ok(())
    }
}

impl ReadWriteResponse {
    /// A response whose length is that of `data`.
    pub fn new(result: AdsError, data: Vec<u8>) -> (response: Self)
        requires
            data.len() <= u32::MAX,
        ensures
            response@ == (ReadWriteResponseView {
                result,
                length: data.len() as u32,
                data: data@,
                command_id: CommandID::ReadWrite,
            }),
    {
        ReadWriteResponse {
            result,
            length: data.len() as u32,
            data,
            command_id: CommandID::ReadWrite,
        }
    }
}

/// A read-write response that is written and read again is the same response, also where
/// its length is not that of its data.
pub proof fn lemma_read_write_response_round_trip(v: ReadWriteResponseView)
    requires
        v.wf(),
    ensures
        ReadWriteResponse::wire(v).len() == 8 + v.data.len(),
        ReadWriteResponse::parse(ReadWriteResponse::wire(v))
            == Ok::<(ReadWriteResponseView, nat), ProtoError>(
            (v, ReadWriteResponse::wire(v).len()),
        ),
{
    lemma_le_round_trips();
    lemma_status_code_bijection(v.result, 0);
    let s = ReadWriteResponse::wire(v);
    assert(s.subrange(0, 4) =~= u32_to_le(v.result.code()));
    assert(s.subrange(4, 8) =~= u32_to_le(v.length));
    assert(s.skip(8) =~= v.data);
}

/// What a sample is.
pub struct AdsNotificationSampleView {
    pub notification_handle: u32,
    pub sample_size: u32,
    pub data: Seq<u8>,
}

impl AdsNotificationSampleView {
    /// The size of a sample is that of its data.
    pub open spec fn wf(self) -> bool {
        self.sample_size == self.data.len()
    }
}

/// One value of one notification: the handle it belongs to and its bytes.
#[derive(Debug, PartialEq, Eq, Clone)]
pub struct AdsNotificationSample {
    pub notification_handle: u32,
    pub sample_size: u32,
    pub data: Vec<u8>,
}

impl View for AdsNotificationSample {
    type V = AdsNotificationSampleView;

    open spec fn view(&self) -> AdsNotificationSampleView {
        AdsNotificationSampleView {
            notification_handle: self.notification_handle,
            sample_size: self.sample_size,
            data: self.data@,
        }
    }
}

impl AdsNotificationSample {
    /// A sample whose size is that of `data`.
    pub fn new(notification_handle: u32, data: Vec<u8>) -> (sample: Self)
        requires
            data.len() <= u32::MAX,
        ensures
            sample@ == (AdsNotificationSampleView {
                notification_handle,
                sample_size: data.len() as u32,
                data: data@,
            }),
            sample@.wf(),
    {
        AdsNotificationSample { notification_handle, sample_size: data.len() as u32, data }
    }

    /// The number of bytes of the sample on the wire.
    pub fn sample_len(&self) -> (len: usize)
        requires
            Self::wire(self@).len() <= usize::MAX,
        ensures
            len == Self::wire(self@).len(),
    {
        proof {
            lemma_le_round_trips();
        }
        self.data.len() + 8
    }
}

impl WriteTo for AdsNotificationSample {
    open spec fn wire(v: AdsNotificationSampleView) -> Seq<u8> {
        u32_to_le(v.notification_handle) + u32_to_le(v.sample_size) + v.data
    }

    fn write_to(&self, wtr: &mut Vec<u8>) -> (res: Result<(), ProtoError>) {
        put_u32(wtr, self.notification_handle);
        put_u32(wtr, self.sample_size);
        put_bytes(wtr, self.data.as_slice());
        assert(wtr@ =~= old(wtr)@ + Self::wire(self@));
        Ok(())
    }
}

impl ReadFrom for AdsNotificationSample {
    /// The data of a sample is as long as its size says.
    open spec fn parse(bytes: Seq<u8>) -> Result<(AdsNotificationSampleView, nat), ProtoError> {
        if bytes.len() < 8 {
            Err(ProtoError::UnexpectedEof)
        } else if bytes.len() < 8 + u32_at(bytes, 4) {
            Err(ProtoError::UnexpectedEof)
        } else {
            Ok(
                (
                    AdsNotificationSampleView {
                        notification_handle: u32_at(bytes, 0),
                        sample_size: u32_at(bytes, 4),
                        data: bytes.subrange(8, 8 + u32_at(bytes, 4)),
                    },
                    (8 + u32_at(bytes, 4)) as nat,
                ),
            )
        }
    }

    fn read_from(read: &mut &[u8]) -> (res: Result<Self, ProtoError>) {
        let buf: &[u8] = *read;
        if buf.len() < 8 {
            return Err(ProtoError::UnexpectedEof);
        }
        let sample_size = get_u32(buf, 4);
        if sample_size as u64 > (buf.len() - 8) as u64 {
            return Err(ProtoError::UnexpectedEof);
        }
        let end: usize = 8 + sample_size as usize;
        let sample = AdsNotificationSample {
            notification_handle: get_u32(buf, 0),
            sample_size,
            data: get_bytes(buf, 8, end),
        };
        advance(read, end);
        Ok(sample)
    }
}

/// A sample whose size is that of its data, written and read again, is the
/// same sample, whatever follows it in the input.
pub proof fn lemma_sample_round_trip(v: AdsNotificationSampleView, rest: Seq<u8>)
    requires
        v.wf(),
    ensures
        AdsNotificationSample::wire(v).len() == 8 + v.data.len(),
        AdsNotificationSample::parse(AdsNotificationSample::wire(v) + rest) == Ok::<
            (AdsNotificationSampleView, nat),
            ProtoError,
        >((v, AdsNotificationSample::wire(v).len())),
{
    lemma_le_round_trips();
    let s = AdsNotificationSample::wire(v) + rest;
    assert(s.subrange(0, 4) =~= u32_to_le(v.notification_handle));
    assert(s.subrange(4, 8) =~= u32_to_le(v.sample_size));
    assert(s.subrange(8, 8 + v.sample_size) =~= v.data);
}

/// What a list of samples is.
pub open spec fn samples_view(samples: Seq<AdsNotificationSample>) -> Seq<
    AdsNotificationSampleView,
> {
    samples.map_values(|sample: AdsNotificationSample| sample@)
}

/// The samples one behind the other.
pub open spec fn samples_wire(samples: Seq<AdsNotificationSampleView>) -> Seq<u8>
    decreases samples.len(),
{
    if samples.len() == 0 {
        Seq::empty()
    } else {
        samples_wire(samples.drop_last()) + AdsNotificationSample::wire(samples.last())
    }
}

/// The first `count` samples of `bytes`, and the number of bytes they take.
pub open spec fn parse_samples(bytes: Seq<u8>, count: nat) -> Result<
    (Seq<AdsNotificationSampleView>, nat),
    ProtoError,
>
    decreases count,
{
    if count == 0 {
        Ok((Seq::empty(), 0))
    } else {
        match parse_samples(bytes, (count - 1) as nat) {
            Err(e) => Err(e),
            Ok((samples, taken)) => match AdsNotificationSample::parse(bytes.skip(taken as int)) {
                Err(e) => Err(e),
                Ok((sample, n)) => Ok((samples.push(sample), taken + n)),
            },
        }
    }
}

/// Samples that cannot be read stay unreadable when more of them are asked
/// for, and `count` samples that can be read are `count` many, within the
/// input.
pub proof fn lemma_parse_samples(bytes: Seq<u8>, count: nat, more: nat)
    requires
        count <= more,
    ensures
        parse_samples(bytes, count) matches Err(e) ==> parse_samples(bytes, more) == Err::<
            (Seq<AdsNotificationSampleView>, nat),
            ProtoError,
        >(e),
        parse_samples(bytes, count) matches Ok((samples, taken)) ==> samples.len() == count
            && taken <= bytes.len(),
    decreases more,
{
    if count > 0 {
        lemma_parse_samples(bytes, (count - 1) as nat, (count - 1) as nat);
    }
    if count < more {
        lemma_parse_samples(bytes, count, (more - 1) as nat);
    }
}

/// What a stamp is.
pub struct AdsStampHeaderView {
    pub time_stamp: u64,
    pub samples: u32,
    pub notification_samples: Seq<AdsNotificationSampleView>,
}

impl AdsStampHeaderView {
    /// The stamp counts its samples, and each sample's size is that of its
    /// data.
    pub open spec fn wf(self) -> bool {
        &&& self.samples == self.notification_samples.len()
        &&& forall|i: int|
            0 <= i < self.notification_samples.len() ==> (
            #[trigger] self.notification_samples[i]).wf()
    }
}

/// The samples that were taken at one time.
#[derive(Debug, PartialEq, Eq, Clone)]
pub struct AdsStampHeader {
    pub time_stamp: u64,
    pub samples: u32,
    pub notification_samples: Vec<AdsNotificationSample>,
}

impl View for AdsStampHeader {
    type V = AdsStampHeaderView;

    open spec fn view(&self) -> AdsStampHeaderView {
        AdsStampHeaderView {
            time_stamp: self.time_stamp,
            samples: self.samples,
            notification_samples: samples_view(self.notification_samples@),
        }
    }
}

impl ReadFrom for AdsStampHeader {
    /// A stamp holds as many samples as it says, one behind the other.
    open spec fn parse(bytes: Seq<u8>) -> Result<(AdsStampHeaderView, nat), ProtoError> {
        if bytes.len() < 12 {
            Err(ProtoError::UnexpectedEof)
        } else {
            match parse_samples(bytes.skip(12), u32_at(bytes, 8) as nat) {
                Err(e) => Err(e),
                Ok((samples, taken)) => Ok(
                    (
                        AdsStampHeaderView {
                            time_stamp: u64_at(bytes, 0),
                            samples: u32_at(bytes, 8),
                            notification_samples: samples,
                        },
                        12 + taken,
                    ),
                ),
            }
        }
    }

    fn read_from(read: &mut &[u8]) -> (res: Result<Self, ProtoError>) {
        let buf: &[u8] = *read;
        if buf.len() < 12 {
            return Err(ProtoError::UnexpectedEof);
        }
        let time_stamp = get_u64(buf, 0);
        let samples = get_u32(buf, 8);
        let mut notification_samples: Vec<AdsNotificationSample> = Vec::new();
        let mut body: &[u8] = slice_subrange(buf, 12, buf.len());
        let ghost all = buf@.skip(12);
        let ghost mut taken: nat = 0;
        let mut i: u32 = 0;
        assert(samples_view(notification_samples@) =~= Seq::empty());
        assert(all.skip(0) =~= all);
        while i < samples
            invariant
                i <= samples,
                taken <= all.len(),
                all == buf@.skip(12),
                buf@.len() >= 12,
                time_stamp == u64_at(buf@, 0),
                samples == u32_at(buf@, 8),
                *read == buf,
                buf@ == old(read)@,
                body@ == all.skip(taken as int),
                parse_samples(all, i as nat) == Ok::<
                    (Seq<AdsNotificationSampleView>, nat),
                    ProtoError,
                >((samples_view(notification_samples@), taken)),
            decreases samples - i,
        {
            match AdsNotificationSample::read_from(&mut body) {
                Err(e) => {
                    proof {
                        assert(parse_samples(all, (i + 1) as nat) is Err);
                        lemma_parse_samples(all, (i + 1) as nat, samples as nat);
                    }
                    return Err(e);
                },
                Ok(sample) => {
                    proof {
                        let n = AdsNotificationSample::parse(all.skip(taken as int))->Ok_0.1;
                        assert(
                            all.skip(taken as int).skip(n as int)
                                =~= all.skip((taken + n) as int)
                        );
                        assert(samples_view(notification_samples@.push(sample)) =~= samples_view(
                            notification_samples@,
                        ).push(sample@));
                        lemma_parse_samples(all, (i + 1) as nat, (i + 1) as nat);
                        taken = taken + n;
                    }
                    notification_samples.push(sample);
                },
            }
            i += 1;
        }
        proof {
            assert(buf@.skip(12).skip(taken as int) =~= buf@.skip((12 + taken) as int));
        }
        *read = body;
        Ok(AdsStampHeader { time_stamp, samples, notification_samples })
    }
}

impl WriteTo for AdsStampHeader {
    open spec fn wire(v: AdsStampHeaderView) -> Seq<u8> {
        u64_to_le(v.time_stamp) + u32_to_le(v.samples) + samples_wire(v.notification_samples)
    }

    fn write_to(&self, wtr: &mut Vec<u8>) -> (res: Result<(), ProtoError>) {
        put_u64(wtr, self.time_stamp);
        put_u32(wtr, self.samples);
        let ghost head = wtr@;
        let ghost all = samples_view(self.notification_samples@);
        let mut i: usize = 0;
        while i < self.notification_samples.len()
            invariant
                i <= self.notification_samples.len(),
                all == samples_view(self.notification_samples@),
                wtr@ == head + samples_wire(all.take(i as int)),
            decreases self.notification_samples.len() - i,
        {
            let _ = self.notification_samples[i].write_to(wtr);
            proof {
                assert(all.take(i + 1).drop_last() =~= all.take(i as int));
                assert(wtr@ =~= head + samples_wire(all.take(i + 1)));
            }
            i += 1;
        }
        proof {
            assert(all.take(i as int) =~= all);
            assert(wtr@ =~= old(wtr)@ + Self::wire(self@));
        }
        Ok(())
    }
}

/// The samples of a shorter list take no more bytes than those of the
/// whole.
pub proof fn lemma_samples_wire_len(samples: Seq<AdsNotificationSampleView>, count: int)
    requires
        0 <= count <= samples.len(),
    ensures
        samples_wire(samples.take(count)).len() <= samples_wire(samples).len(),
    decreases samples.len(),
{
    if count < samples.len() {
        assert(samples.drop_last().take(count) =~= samples.take(count));
        lemma_samples_wire_len(samples.drop_last(), count);
    } else {
        assert(samples.take(count) =~= samples);
    }
}

impl AdsStampHeader {
    /// The stamp of a time with its samples. The number of samples is taken
    /// as given.
    pub fn new(
        time_stamp: u64,
        samples: u32,
        notification_samples: Vec<AdsNotificationSample>,
    ) -> (stamp:
        Self)
        ensures
            stamp@ == (AdsStampHeaderView {
                time_stamp,
                samples,
                notification_samples: samples_view(notification_samples@),
            }),
    {
        AdsStampHeader { time_stamp, samples, notification_samples }
    }

    /// The number of bytes of the stamp on the wire.
    pub fn stamp_len(&self) -> (len: usize)
        requires
            Self::wire(self@).len() <= usize::MAX,
        ensures
            len == Self::wire(self@).len(),
    {
        proof {
            lemma_le_round_trips();
        }
        let ghost all = samples_view(self.notification_samples@);
        let mut len: usize = 0;
        let mut i: usize = 0;
        while i < self.notification_samples.len()
            invariant
                i <= self.notification_samples.len(),
                all == samples_view(self.notification_samples@),
                len == samples_wire(all.take(i as int)).len(),
                samples_wire(all).len() + 12 <= usize::MAX,
            decreases self.notification_samples.len() - i,
        {
            proof {
                lemma_le_round_trips();
                assert(all.take(i + 1).drop_last() =~= all.take(i as int));
                lemma_samples_wire_len(all, i + 1);
            }
            len += self.notification_samples[i].sample_len();
            i += 1;
        }
        proof {
            assert(all.take(i as int) =~= all);
        }
        len + 12
    }
}

/// A stamp that counts its samples, each of them with the size of its data,
/// written and read again, is the same stamp, whatever follows it in the
/// input.
pub proof fn lemma_stamp_round_trip(v: AdsStampHeaderView, rest: Seq<u8>)
    requires
        v.wf(),
    ensures
        AdsStampHeader::parse(AdsStampHeader::wire(v) + rest) == Ok::<
            (AdsStampHeaderView, nat),
            ProtoError,
        >((v, AdsStampHeader::wire(v).len())),
{
    lemma_le_round_trips();
    let s = AdsStampHeader::wire(v) + rest;
    assert(s.subrange(0, 8) =~= u64_to_le(v.time_stamp));
    assert(s.subrange(8, 12) =~= u32_to_le(v.samples));
    assert(s.skip(12) =~= samples_wire(v.notification_samples) + rest);
    lemma_samples_round_trip(v.notification_samples, rest);
}

/// Samples, each with the size of its data, are read back from their bytes,
/// whatever follows them in the input.
pub proof fn lemma_samples_round_trip(samples: Seq<AdsNotificationSampleView>, rest: Seq<u8>)
    requires
        forall|i: int| 0 <= i < samples.len() ==> (#[trigger] samples[i]).wf(),
    ensures
        parse_samples(samples_wire(samples) + rest, samples.len()) == Ok::<
            (Seq<AdsNotificationSampleView>, nat),
            ProtoError,
        >((samples, samples_wire(samples).len())),
    decreases samples.len(),
{
    if samples.len() == 0 {
        assert(samples =~= Seq::empty());
    } else {
        let front = samples.drop_last();
        let last = samples.last();
        let bytes = samples_wire(samples) + rest;
        let tail = AdsNotificationSample::wire(last) + rest;
        assert(bytes =~= samples_wire(front) + tail);
        lemma_samples_round_trip(front, tail);
        lemma_sample_round_trip(last, rest);
        assert(bytes.skip(samples_wire(front).len() as int) =~= tail);
        assert(front.push(last) =~= samples);
        assert(parse_samples(bytes, front.len()) == Ok::<
            (Seq<AdsNotificationSampleView>, nat),
            ProtoError,
        >((front, samples_wire(front).len())));
        assert(samples.len() - 1 == front.len());
    }
}

/// What a list of stamps is.
pub open spec fn stamps_view(stamps: Seq<AdsStampHeader>) -> Seq<AdsStampHeaderView> {
    stamps.map_values(|stamp: AdsStampHeader| stamp@)
}

/// The stamps one behind the other.
pub open spec fn stamps_wire(stamps: Seq<AdsStampHeaderView>) -> Seq<u8>
    decreases stamps.len(),
{
    if stamps.len() == 0 {
        Seq::empty()
    } else {
        stamps_wire(stamps.drop_last()) + AdsStampHeader::wire(stamps.last())
    }
}

/// The first `count` stamps of `bytes`, where every stamp is taken to fill
/// `size` bytes: stamp number `i` is read from the bytes `i * size` up to
/// `(i + 1) * size`, and from no others.
pub open spec fn parse_stamps(bytes: Seq<u8>, size: nat, count: nat) -> Result<
    Seq<AdsStampHeaderView>,
    ProtoError,
>
    decreases count,
{
    if count == 0 {
        Ok(Seq::empty())
    } else {
        match parse_stamps(bytes, size, (count - 1) as nat) {
            Err(e) => Err(e),
            Ok(stamps) => if bytes.len() < count * size {
                Err(ProtoError::UnexpectedEof)
            } else {
                match AdsStampHeader::parse(
                    bytes.subrange((count - 1) * size, count * size as int),
                ) {
                    Err(e) => Err(e),
                    Ok((stamp, _)) => Ok(stamps.push(stamp)),
                }
            },
        }
    }
}

/// Stamps that cannot be read stay unreadable when more of them are asked
/// for, and `count` stamps that can be read are `count` many.
pub proof fn lemma_parse_stamps(bytes: Seq<u8>, size: nat, count: nat, more: nat)
    requires
        count <= more,
    ensures
        parse_stamps(bytes, size, count) matches Err(e) ==> parse_stamps(bytes, size, more)
            == Err::<Seq<AdsStampHeaderView>, ProtoError>(e),
        parse_stamps(bytes, size, count) matches Ok(stamps) ==> stamps.len() == count,
    decreases more,
{
    if count > 0 {
        lemma_parse_stamps(bytes, size, (count - 1) as nat, (count - 1) as nat);
    }
    if count < more {
        lemma_parse_stamps(bytes, size, count, (more - 1) as nat);
    }
}

/// What a notification stream is.
pub struct AdsNotificationStreamView {
    pub length: u32,
    pub stamps: u32,
    pub ads_stamp_headers: Seq<AdsStampHeaderView>,
    pub command_id: CommandID,
}

impl AdsNotificationStreamView {
    /// The number of bytes that every stamp of a uniform stream takes.
    pub open spec fn stamp_size(self) -> nat {
        AdsStampHeader::wire(self.ads_stamp_headers[0]).len()
    }

    /// Whether a stream is one that decoding can give back. It counts its
    /// stamps and has at least one; every stamp counts its samples, and
    /// every sample has the size of its data; all stamps take the same number
    /// of bytes; and the length is that of the stamps and of the count before
    /// them.
    pub open spec fn wf(self) -> bool {
        &&& self.command_id == CommandID::DeviceNotification
        &&& self.stamps == self.ads_stamp_headers.len()
        &&& self.stamps > 0
        &&& forall|i: int|
            0 <= i < self.ads_stamp_headers.len() ==> (#[trigger] self.ads_stamp_headers[i]).wf()
        &&& forall|i: int|
            0 <= i < self.ads_stamp_headers.len() ==> AdsStampHeader::wire(
                #[trigger] self.ads_stamp_headers[i],
            ).len() == self.stamp_size()
        &&& self.length == 4 + self.stamps * self.stamp_size()
    }
}

/// The notifications that a server pushes: stamps, each with its samples.
#[derive(Debug, PartialEq, Eq, Clone)]
pub struct AdsNotificationStream {
    pub length: u32,
    pub stamps: u32,
    pub ads_stamp_headers: Vec<AdsStampHeader>,
    pub command_id: CommandID,
}

impl View for AdsNotificationStream {
    type V = AdsNotificationStreamView;

    open spec fn view(&self) -> AdsNotificationStreamView {
        AdsNotificationStreamView {
            length: self.length,
            stamps: self.stamps,
            ads_stamp_headers: stamps_view(self.ads_stamp_headers@),
            command_id: self.command_id,
        }
    }
}

impl ReadFrom for AdsNotificationStream {
    /// The length of a stream counts the bytes behind it: four for the
    /// number of stamps, the rest for the stamps. That rest is cut into as
    /// many pieces of equal size as there are stamps, and each stamp is read
    /// from its piece. A stream without stamps, or with a length under four,
    /// has no such pieces.
    open spec fn parse(bytes: Seq<u8>) -> Result<(AdsNotificationStreamView, nat), ProtoError> {
        if bytes.len() < 8 {
            Err(ProtoError::UnexpectedEof)
        } else if u32_at(bytes, 0) < 4 || u32_at(bytes, 4) == 0 {
            Err(ProtoError::InvalidData)
        } else {
            let length = u32_at(bytes, 0);
            let stamps = u32_at(bytes, 4);
            let size = ((length - 4) / (stamps as int)) as nat;
            match parse_stamps(bytes.skip(8), size, stamps as nat) {
                Err(e) => Err(e),
                Ok(headers) => Ok(
                    (
                        AdsNotificationStreamView {
                            length,
                            stamps,
                            ads_stamp_headers: headers,
                            command_id: CommandID::DeviceNotification,
                        },
                        (8 + stamps * size) as nat,
                    ),
                ),
            }
        }
    }

    fn read_from(read: &mut &[u8]) -> (res: Result<Self, ProtoError>) {
        let buf: &[u8] = *read;
        if buf.len() < 8 {
            return Err(ProtoError::UnexpectedEof);
        }
        let length = get_u32(buf, 0);
        let stamps = get_u32(buf, 4);
        if length < 4 || stamps == 0 {
            return Err(ProtoError::InvalidData);
        }
        let stamp_data_size: usize = ((length - 4) / stamps) as usize;
        let mut ads_stamp_headers: Vec<AdsStampHeader> = Vec::new();
        let ghost all = buf@.skip(8);
        let ghost size = stamp_data_size as nat;
        let mut at: usize = 8;
        let mut i: u32 = 0;
        assert(stamps_view(ads_stamp_headers@) =~= Seq::empty());
        while i < stamps
            invariant
                i <= stamps,
                8 <= at <= buf.len(),
                at == 8 + i * size,
                size == stamp_data_size,
                all == buf@.skip(8),
                *read == buf,
                buf@ == old(read)@,
                length == u32_at(buf@, 0),
                stamps == u32_at(buf@, 4),
                length >= 4,
                stamps > 0,
                size == (length - 4) / (stamps as int),
                parse_stamps(all, size, i as nat) == Ok::<Seq<AdsStampHeaderView>, ProtoError>(
                    stamps_view(ads_stamp_headers@),
                ),
            decreases stamps - i,
        {
            proof {
                assert((i + 1) * size == i * size + size) by (nonlinear_arith);
            }
            if stamp_data_size > buf.len() - at {
                proof {
                    assert(parse_stamps(all, size, (i + 1) as nat) is Err);
                    lemma_parse_stamps(all, size, (i + 1) as nat, stamps as nat);
                }
                return Err(ProtoError::UnexpectedEof);
            }
            let mut piece: &[u8] = slice_subrange(buf, at, at + stamp_data_size);
            proof {
                assert(piece@ =~= all.subrange(i * size, (i + 1) * size as int));
            }
            match AdsStampHeader::read_from(&mut piece) {
                Err(e) => {
                    proof {
                        assert(parse_stamps(all, size, (i + 1) as nat) is Err);
                        lemma_parse_stamps(all, size, (i + 1) as nat, stamps as nat);
                    }
                    return Err(e);
                },
                Ok(stamp) => {
                    proof {
                        assert(stamps_view(ads_stamp_headers@.push(stamp)) =~= stamps_view(
                            ads_stamp_headers@,
                        ).push(stamp@));
                    }
                    ads_stamp_headers.push(stamp);
                },
            }
            at += stamp_data_size;
            i += 1;
        }
        advance(read, at);
        Ok(
            AdsNotificationStream {
                length,
                stamps,
                ads_stamp_headers,
                command_id: CommandID::DeviceNotification,
            },
        )
    }
}

impl WriteTo for AdsNotificationStream {
    open spec fn wire(v: AdsNotificationStreamView) -> Seq<u8> {
        u32_to_le(v.length) + u32_to_le(v.stamps) + stamps_wire(v.ads_stamp_headers)
    }

    fn write_to(&self, wtr: &mut Vec<u8>) -> (res: Result<(), ProtoError>) {
        put_u32(wtr, self.length);
        put_u32(wtr, self.stamps);
        let ghost head = wtr@;
        let ghost all = stamps_view(self.ads_stamp_headers@);
        let mut i: usize = 0;
        while i < self.ads_stamp_headers.len()
            invariant
                i <= self.ads_stamp_headers.len(),
                all == stamps_view(self.ads_stamp_headers@),
                wtr@ == head + stamps_wire(all.take(i as int)),
            decreases self.ads_stamp_headers.len() - i,
        {
            let _ = self.ads_stamp_headers[i].write_to(wtr);
            proof {
                assert(all.take(i + 1).drop_last() =~= all.take(i as int));
                assert(wtr@ =~= head + stamps_wire(all.take(i + 1)));
            }
            i += 1;
        }
        proof {
            assert(all.take(i as int) =~= all);
            assert(wtr@ =~= old(wtr)@ + Self::wire(self@));
        }
        Ok(())
    }
}

/// The stamps of a shorter list take no more bytes than those of the whole.
pub proof fn lemma_stamps_wire_len(stamps: Seq<AdsStampHeaderView>, count: int)
    requires
        0 <= count <= stamps.len(),
    ensures
        stamps_wire(stamps.take(count)).len() <= stamps_wire(stamps).len(),
    decreases stamps.len(),
{
    if count < stamps.len() {
        assert(stamps.drop_last().take(count) =~= stamps.take(count));
        lemma_stamps_wire_len(stamps.drop_last(), count);
    } else {
        assert(stamps.take(count) =~= stamps);
    }
}

impl AdsNotificationStream {
    /// The stream of the given stamps. Length and number of stamps are taken
    /// as given.
    pub fn new(length: u32, stamps: u32, ads_stamp_headers: Vec<AdsStampHeader>) -> (stream: Self)
        ensures
            stream@ == (AdsNotificationStreamView {
                length,
                stamps,
                ads_stamp_headers: stamps_view(ads_stamp_headers@),
                command_id: CommandID::DeviceNotification,
            }),
    {
        AdsNotificationStream {
            length,
            stamps,
            ads_stamp_headers,
            command_id: CommandID::DeviceNotification,
        }
    }

    /// The number of bytes of the stream on the wire. The length that the
    /// stream declares is four less: it does not count itself.
    pub fn stream_len(&self) -> (len: usize)
        requires
            Self::wire(self@).len() <= usize::MAX,
        ensures
            len == Self::wire(self@).len(),
    {
        proof {
            lemma_le_round_trips();
        }
        let ghost all = stamps_view(self.ads_stamp_headers@);
        let mut len: usize = 0;
        let mut i: usize = 0;
        while i < self.ads_stamp_headers.len()
            invariant
                i <= self.ads_stamp_headers.len(),
                all == stamps_view(self.ads_stamp_headers@),
                len == stamps_wire(all.take(i as int)).len(),
                stamps_wire(all).len() + 8 <= usize::MAX,
            decreases self.ads_stamp_headers.len() - i,
        {
            proof {
                assert(all.take(i + 1).drop_last() =~= all.take(i as int));
                lemma_stamps_wire_len(all, i + 1);
            }
            len += self.ads_stamp_headers[i].stamp_len();
            i += 1;
        }
        proof {
            assert(all.take(i as int) =~= all);
        }
        len + 8
    }
}

/// Stamps of one size, each counting its samples and each sample with the
/// size of its data, are read back from their bytes cut into pieces of that
/// size, whatever follows them in the input.
pub proof fn lemma_stamps_round_trip(stamps: Seq<AdsStampHeaderView>, size: nat, rest: Seq<u8>)
    requires
        forall|i: int| 0 <= i < stamps.len() ==> (#[trigger] stamps[i]).wf(),
        forall|i: int|
            0 <= i < stamps.len() ==> AdsStampHeader::wire(#[trigger] stamps[i]).len() == size,
    ensures
        stamps_wire(stamps).len() == stamps.len() * size,
        parse_stamps(stamps_wire(stamps) + rest, size, stamps.len()) == Ok::<
            Seq<AdsStampHeaderView>,
            ProtoError,
        >(stamps),
    decreases stamps.len(),
{
    if stamps.len() == 0 {
        assert(stamps =~= Seq::empty());
        assert(stamps.len() * size == 0) by (nonlinear_arith)
            requires
                stamps.len() == 0,
        ;
    } else {
        let front = stamps.drop_last();
        let last = stamps.last();
        let bytes = stamps_wire(stamps) + rest;
        let tail = AdsStampHeader::wire(last) + rest;
        assert(bytes =~= stamps_wire(front) + tail);
        lemma_stamps_round_trip(front, size, tail);
        lemma_stamp_round_trip(last, Seq::empty());
        assert(stamps.len() * size == front.len() * size + size) by (nonlinear_arith)
            requires
                stamps.len() == front.len() + 1,
        ;
        assert(bytes.subrange((stamps.len() - 1) * size, stamps.len() * size as int)
            =~= AdsStampHeader::wire(last));
        assert(AdsStampHeader::wire(last) + Seq::<u8>::empty() =~= AdsStampHeader::wire(last));
        assert(front.push(last) =~= stamps);
        assert(parse_stamps(bytes, size, front.len()) == Ok::<
            Seq<AdsStampHeaderView>,
            ProtoError,
        >(front));
        assert(stamps.len() - 1 == front.len());
    }
}

/// A stream that decoding can give back, written and read again, is the same
/// stream, whatever follows it in the input; and the length that it declares
/// is four less than the number of its bytes.
pub proof fn lemma_stream_round_trip(v: AdsNotificationStreamView, rest: Seq<u8>)
    requires
        v.wf(),
    ensures
        AdsNotificationStream::wire(v).len() == v.length + 4,
        AdsNotificationStream::parse(AdsNotificationStream::wire(v) + rest) == Ok::<
            (AdsNotificationStreamView, nat),
            ProtoError,
        >((v, AdsNotificationStream::wire(v).len())),
{
    lemma_le_round_trips();
    let s = AdsNotificationStream::wire(v) + rest;
    let size = v.stamp_size();
    let count = v.stamps as int;
    assert(s.subrange(0, 4) =~= u32_to_le(v.length));
    assert(s.subrange(4, 8) =~= u32_to_le(v.stamps));
    assert(s.skip(8) =~= stamps_wire(v.ads_stamp_headers) + rest);
    assert((count * size) / count == size) by (nonlinear_arith)
        requires
            count > 0,
            size >= 0,
    ;
    lemma_stamps_round_trip(v.ads_stamp_headers, size, rest);
}

} // verus!

//! The requests: what a client sends, one shape for each command.

use crate::error::{ProtoError, TryIntoError};
use crate::proto::ads_state::AdsState;
use crate::proto::ads_transition_mode::AdsTransMode;
use crate::proto::command_id::CommandID;
use crate::proto::le_bytes::{
    advance, get_array, get_bytes, get_u16, get_u32, lemma_le_round_trips, put_bytes, put_u16,
    put_u32, u16_at, u16_to_le, u32_at, u32_to_le,
};
use crate::proto::proto_traits::{read_front, Command, ReadFrom, WriteTo};
use vstd::prelude::*;

verus! {

/// A request of any command. The variant says which command it is.
#[derive(Debug, PartialEq, Clone)]
pub enum Request {
    Invalid(InvalidRequest),
    ReadDeviceInfo(ReadDeviceInfoRequest),
    ReadState(ReadStateRequest),
    Read(ReadRequest),
    Write(WriteRequest),
    WriteControl(WriteControlRequest),
    AddDeviceNotification(AddDeviceNotificationRequest),
    DeleteDeviceNotification(DeleteDeviceNotificationRequest),
    DeviceNotification(DeviceNotificationRequest),
    ReadWrite(ReadWriteRequest),
}

/// What a request is: its variant, and the values of its fields.
pub enum RequestView {
    Invalid(InvalidRequest),
    ReadDeviceInfo(ReadDeviceInfoRequest),
    ReadState(ReadStateRequest),
    Read(ReadRequest),
    Write(WriteRequestView),
    WriteControl(WriteControlRequestView),
    AddDeviceNotification(AddDeviceNotificationRequestView),
    DeleteDeviceNotification(DeleteDeviceNotificationRequest),
    DeviceNotification(DeviceNotificationRequest),
    ReadWrite(ReadWriteRequestView),
}

impl RequestView {
    /// The command that a request belongs to.
    pub open spec fn command(self) -> CommandID {
        match self {
            RequestView::Invalid(_) => CommandID::Invalid,
            RequestView::ReadDeviceInfo(_) => CommandID::ReadDeviceInfo,
            RequestView::ReadState(_) => CommandID::ReadState,
            RequestView::Read(_) => CommandID::Read,
            RequestView::Write(_) => CommandID::Write,
            RequestView::WriteControl(_) => CommandID::WriteControl,
            RequestView::AddDeviceNotification(_) => CommandID::AddDeviceNotification,
            RequestView::DeleteDeviceNotification(_) => CommandID::DeleteDeviceNotification,
            RequestView::DeviceNotification(_) => CommandID::DeviceNotification,
            RequestView::ReadWrite(_) => CommandID::ReadWrite,
        }
    }

    /// Whether a request is one that decoding can give back: its command
    /// field names its own command, and where the data is read by a declared
    /// length, that length is the data's.
    pub open spec fn wf(self) -> bool {
        match self {
            RequestView::Invalid(r) => r.command_id == CommandID::Invalid,
            RequestView::ReadDeviceInfo(r) => r.command_id == CommandID::ReadDeviceInfo,
            RequestView::ReadState(r) => r.command_id == CommandID::ReadState,
            RequestView::Read(r) => r.command_id == CommandID::Read,
            RequestView::Write(r) => r.command_id == CommandID::Write,
            RequestView::WriteControl(r) => r.command_id == CommandID::WriteControl,
            RequestView::AddDeviceNotification(r) => r.wf(),
            RequestView::DeleteDeviceNotification(r) => r.command_id
                == CommandID::DeleteDeviceNotification,
            RequestView::DeviceNotification(r) => r.command_id == CommandID::DeviceNotification,
            RequestView::ReadWrite(r) => r.wf(),
        }
    }
}

impl View for Request {
    type V = RequestView;

    open spec fn view(&self) -> RequestView {
        match self {
            Request::Invalid(r) => RequestView::Invalid(*r),
            Request::ReadDeviceInfo(r) => RequestView::ReadDeviceInfo(*r),
            Request::ReadState(r) => RequestView::ReadState(*r),
            Request::Read(r) => RequestView::Read(*r),
            Request::Write(r) => RequestView::Write(r@),
            Request::WriteControl(r) => RequestView::WriteControl(r@),
            Request::AddDeviceNotification(r) => RequestView::AddDeviceNotification(r@),
            Request::DeleteDeviceNotification(r) => RequestView::DeleteDeviceNotification(*r),
            Request::DeviceNotification(r) => RequestView::DeviceNotification(*r),
            Request::ReadWrite(r) => RequestView::ReadWrite(r@),
        }
    }
}

impl WriteTo for Request {
    /// The payload of a request. The requests without fields have an empty
    /// payload.
    open spec fn wire(v: RequestView) -> Seq<u8> {
        match v {
            RequestView::Invalid(_) => Seq::empty(),
            RequestView::ReadDeviceInfo(_) => Seq::empty(),
            RequestView::ReadState(_) => Seq::empty(),
            RequestView::Read(r) => ReadRequest::wire(r),
            RequestView::Write(r) => WriteRequest::wire(r),
            RequestView::WriteControl(r) => WriteControlRequest::wire(r),
            RequestView::AddDeviceNotification(r) => AddDeviceNotificationRequest::wire(r),
            RequestView::DeleteDeviceNotification(r) => DeleteDeviceNotificationRequest::wire(r),
            RequestView::DeviceNotification(_) => Seq::empty(),
            RequestView::ReadWrite(r) => ReadWriteRequest::wire(r),
        }
    }

    fn write_to(&self, wtr: &mut Vec<u8>) -> (res: Result<(), ProtoError>) {
        match self {
            Request::Invalid(_) => Ok(()),
            Request::ReadDeviceInfo(_) => Ok(()),
            Request::ReadState(_) => Ok(()),
            Request::Read(r) => r.write_to(wtr),
            Request::Write(r) => r.write_to(wtr),
            Request::ReadWrite(r) => r.write_to(wtr),
            Request::AddDeviceNotification(r) => r.write_to(wtr),
            Request::WriteControl(r) => r.write_to(wtr),
            Request::DeviceNotification(_) => Ok(()),
            Request::DeleteDeviceNotification(r) => r.write_to(wtr),
        }
    }
}

impl Command for Request {
    open spec fn command(&self) -> CommandID {
        self@.command()
    }

    fn command_id(&self) -> (command: CommandID) {
        match self {
            Request::Invalid(_) => CommandID::Invalid,
            Request::ReadDeviceInfo(_) => CommandID::ReadDeviceInfo,
            Request::ReadState(_) => CommandID::ReadState,
            Request::Read(_) => CommandID::Read,
            Request::Write(_) => CommandID::Write,
            Request::ReadWrite(_) => CommandID::ReadWrite,
            Request::AddDeviceNotification(_) => CommandID::AddDeviceNotification,
            Request::WriteControl(_) => CommandID::WriteControl,
            Request::DeviceNotification(_) => CommandID::DeviceNotification,
            Request::DeleteDeviceNotification(_) => CommandID::DeleteDeviceNotification,
        }
    }
}

impl Request {
    /// The request that the payload of a frame stands for, under the command
    /// of the frame. The invalid command has no payload; a device
    /// notification has no request form, so its request holds no fields.
    pub open spec fn parse_payload(command: CommandID, payload: Seq<u8>) -> Result<
        RequestView,
        ProtoError,
    > {
        match command {
            CommandID::Invalid => Err(ProtoError::InvalidCommand),
            CommandID::ReadDeviceInfo => Ok(
                RequestView::ReadDeviceInfo(
                    ReadDeviceInfoRequest { command_id: CommandID::ReadDeviceInfo },
                ),
            ),
            CommandID::ReadState => Ok(
                RequestView::ReadState(ReadStateRequest { command_id: CommandID::ReadState }),
            ),
            CommandID::DeviceNotification => Ok(
                RequestView::DeviceNotification(
                    DeviceNotificationRequest { command_id: CommandID::DeviceNotification },
                ),
            ),
            CommandID::Read => match ReadRequest::parse(payload) {
                Ok((r, _)) => Ok(RequestView::Read(r)),
                Err(e) => Err(e),
            },
            CommandID::Write => match WriteRequest::parse(payload) {
                Ok((r, _)) => Ok(RequestView::Write(r)),
                Err(e) => Err(e),
            },
            CommandID::WriteControl => match WriteControlRequest::parse(payload) {
                Ok((r, _)) => Ok(RequestView::WriteControl(r)),
                Err(e) => Err(e),
            },
            CommandID::AddDeviceNotification => match AddDeviceNotificationRequest::parse(payload) {
                Ok((r, _)) => Ok(RequestView::AddDeviceNotification(r)),
                Err(e) => Err(e),
            },
            CommandID::DeleteDeviceNotification => match DeleteDeviceNotificationRequest::parse(
                payload,
            ) {
                Ok((r, _)) => Ok(RequestView::DeleteDeviceNotification(r)),
                Err(e) => Err(e),
            },
            CommandID::ReadWrite => match ReadWriteRequest::parse(payload) {
                Ok((r, _)) => Ok(RequestView::ReadWrite(r)),
                Err(e) => Err(e),
            },
        }
    }

    /// Decodes the payload of a frame as the request of `command`.
    pub fn read_payload(command: CommandID, payload: &[u8]) -> (res: Result<Request, ProtoError>)
        ensures
            match res {
                Ok(request) => Request::parse_payload(command, payload@) == Ok::<
                    RequestView,
                    ProtoError,
                >(request@),
                Err(e) => Request::parse_payload(command, payload@) == Err::<
                    RequestView,
                    ProtoError,
                >(e),
            },
    {
        match command {
            CommandID::Invalid => Err(ProtoError::InvalidCommand),
            CommandID::ReadDeviceInfo => Ok(Request::ReadDeviceInfo(ReadDeviceInfoRequest::new())),
            CommandID::ReadState => Ok(Request::ReadState(ReadStateRequest::new())),
            CommandID::DeviceNotification => Ok(
                Request::DeviceNotification(DeviceNotificationRequest::new()),
            ),
            CommandID::Read => match read_front::<ReadRequest>(payload) {
                Ok(r) => Ok(Request::Read(r)),
                Err(e) => Err(e),
            },
            CommandID::Write => match read_front::<WriteRequest>(payload) {
                Ok(r) => Ok(Request::Write(r)),
                Err(e) => Err(e),
            },
            CommandID::WriteControl => match read_front::<WriteControlRequest>(payload) {
                Ok(r) => Ok(Request::WriteControl(r)),
                Err(e) => Err(e),
            },
            CommandID::AddDeviceNotification => match read_front::<AddDeviceNotificationRequest>(
                payload,
            ) {
                Ok(r) => Ok(Request::AddDeviceNotification(r)),
                Err(e) => Err(e),
            },
            CommandID::DeleteDeviceNotification => match read_front::<DeleteDeviceNotificationRequest>(
                payload,
            ) {
                Ok(r) => Ok(Request::DeleteDeviceNotification(r)),
                Err(e) => Err(e),
            },
            CommandID::ReadWrite => match read_front::<ReadWriteRequest>(payload) {
                Ok(r) => Ok(Request::ReadWrite(r)),
                Err(e) => Err(e),
            },
        }
    }
}

/// A request that decoding can give back is read back from its own payload,
/// under its own command, unchanged. The invalid request is none such: the
/// invalid command has no payload.
pub proof fn lemma_request_round_trip(v: RequestView)
    requires
        v.wf(),
        !(v is Invalid),
    ensures
        Request::parse_payload(v.command(), Request::wire(v)) == Ok::<RequestView, ProtoError>(v),
{
    match v {
        RequestView::Read(r) => lemma_read_request_round_trip(r, Seq::empty()),
        RequestView::Write(r) => lemma_write_request_round_trip(r),
        RequestView::WriteControl(r) => lemma_write_control_request_round_trip(r),
        RequestView::AddDeviceNotification(r) => lemma_add_device_notification_request_round_trip(
            r,
            Seq::empty(),
        ),
        RequestView::DeleteDeviceNotification(r) => {
            lemma_delete_device_notification_request_round_trip(r, Seq::empty())
        },
        RequestView::ReadWrite(r) => lemma_read_write_request_round_trip(r, Seq::empty()),
        _ => {},
    }
    assert(Request::wire(v) + Seq::<u8>::empty() =~= Request::wire(v));
}

impl From<InvalidRequest> for Request {
    fn from(request: InvalidRequest) -> (wrapped: Request) {
        Request::Invalid(request)
    }
}

impl vstd::std_specs::convert::FromSpecImpl<InvalidRequest> for Request {
    open spec fn obeys_from_spec() -> bool {
        true
    }

    open spec fn from_spec(request: InvalidRequest) -> Request {
        Request::Invalid(request)
    }
}

impl TryFrom<Request> for InvalidRequest {
    type Error = TryIntoError;

    fn try_from(request: Request) -> (res: Result<InvalidRequest, TryIntoError>) {
        match request {
            Request::Invalid(r) => Ok(r),
            _ => Err(TryIntoError::TryIntoRequestFailed),
        }
    }
}

impl vstd::std_specs::convert::TryFromSpecImpl<Request> for InvalidRequest {
    open spec fn obeys_try_from_spec() -> bool {
        true
    }

    open spec fn try_from_spec(request: Request) -> Result<InvalidRequest, TryIntoError> {
        match request {
            Request::Invalid(r) => Ok(r),
            _ => Err(TryIntoError::TryIntoRequestFailed),
        }
    }
}

impl From<ReadDeviceInfoRequest> for Request {
    fn from(request: ReadDeviceInfoRequest) -> (wrapped: Request) {
        Request::ReadDeviceInfo(request)
    }
}

impl vstd::std_specs::convert::FromSpecImpl<ReadDeviceInfoRequest> for Request {
    open spec fn obeys_from_spec() -> bool {
        true
    }

    open spec fn from_spec(request: ReadDeviceInfoRequest) -> Request {
        Request::ReadDeviceInfo(request)
    }
}

impl TryFrom<Request> for ReadDeviceInfoRequest {
    type Error = TryIntoError;

    fn try_from(request: Request) -> (res: Result<ReadDeviceInfoRequest, TryIntoError>) {
        match request {
            Request::ReadDeviceInfo(r) => Ok(r),
            _ => Err(TryIntoError::TryIntoRequestFailed),
        }
    }
}

impl vstd::std_specs::convert::TryFromSpecImpl<Request> for ReadDeviceInfoRequest {
    open spec fn obeys_try_from_spec() -> bool {
        true
    }

    open spec fn try_from_spec(request: Request) -> Result<ReadDeviceInfoRequest, TryIntoError> {
        match request {
            Request::ReadDeviceInfo(r) => Ok(r),
            _ => Err(TryIntoError::TryIntoRequestFailed),
        }
    }
}

impl From<ReadStateRequest> for Request {
    fn from(request: ReadStateRequest) -> (wrapped: Request) {
        Request::ReadState(request)
    }
}

impl vstd::std_specs::convert::FromSpecImpl<ReadStateRequest> for Request {
    open spec fn obeys_from_spec() -> bool {
        true
    }

    open spec fn from_spec(request: ReadStateRequest) -> Request {
        Request::ReadState(request)
    }
}

impl TryFrom<Request> for ReadStateRequest {
    type Error = TryIntoError;

    fn try_from(request: Request) -> (res: Result<ReadStateRequest, TryIntoError>) {
        match request {
            Request::ReadState(r) => Ok(r),
            _ => Err(TryIntoError::TryIntoRequestFailed),
        }
    }
}

impl vstd::std_specs::convert::TryFromSpecImpl<Request> for ReadStateRequest {
    open spec fn obeys_try_from_spec() -> bool {
        true
    }

    open spec fn try_from_spec(request: Request) -> Result<ReadStateRequest, TryIntoError> {
        match request {
            Request::ReadState(r) => Ok(r),
            _ => Err(TryIntoError::TryIntoRequestFailed),
        }
    }
}

impl From<ReadRequest> for Request {
    fn from(request: ReadRequest) -> (wrapped: Request) {
        Request::Read(request)
    }
}

impl vstd::std_specs::convert::FromSpecImpl<ReadRequest> for Request {
    open spec fn obeys_from_spec() -> bool {
        true
    }

    open spec fn from_spec(request: ReadRequest) -> Request {
        Request::Read(request)
    }
}

impl TryFrom<Request> for ReadRequest {
    type Error = TryIntoError;

    fn try_from(request: Request) -> (res: Result<ReadRequest, TryIntoError>) {
        match request {
            Request::Read(r) => Ok(r),
            _ => Err(TryIntoError::TryIntoRequestFailed),
        }
    }
}

impl vstd::std_specs::convert::TryFromSpecImpl<Request> for ReadRequest {
    open spec fn obeys_try_from_spec() -> bool {
        true
    }

    open spec fn try_from_spec(request: Request) -> Result<ReadRequest, TryIntoError> {
        match request {
            Request::Read(r) => Ok(r),
            _ => Err(TryIntoError::TryIntoRequestFailed),
        }
    }
}

impl From<WriteRequest> for Request {
    fn from(request: WriteRequest) -> (wrapped: Request) {
        Request::Write(request)
    }
}

impl vstd::std_specs::convert::FromSpecImpl<WriteRequest> for Request {
    open spec fn obeys_from_spec() -> bool {
        true
    }

    open spec fn from_spec(request: WriteRequest) -> Request {
        Request::Write(request)
    }
}

impl TryFrom<Request> for WriteRequest {
    type Error = TryIntoError;

    fn try_from(request: Request) -> (res: Result<WriteRequest, TryIntoError>) {
        match request {
            Request::Write(r) => Ok(r),
            _ => Err(TryIntoError::TryIntoRequestFailed),
        }
    }
}

impl vstd::std_specs::convert::TryFromSpecImpl<Request> for WriteRequest {
    open spec fn obeys_try_from_spec() -> bool {
        true
    }

    open spec fn try_from_spec(request: Request) -> Result<WriteRequest, TryIntoError> {
        match request {
            Request::Write(r) => Ok(r),
            _ => Err(TryIntoError::TryIntoRequestFailed),
        }
    }
}

impl From<WriteControlRequest> for Request {
    fn from(request: WriteControlRequest) -> (wrapped: Request) {
        Request::WriteControl(request)
    }
}

impl vstd::std_specs::convert::FromSpecImpl<WriteControlRequest> for Request {
    open spec fn obeys_from_spec() -> bool {
        true
    }

    open spec fn from_spec(request: WriteControlRequest) -> Request {
        Request::WriteControl(request)
    }
}

impl TryFrom<Request> for WriteControlRequest {
    type Error = TryIntoError;

    fn try_from(request: Request) -> (res: Result<WriteControlRequest, TryIntoError>) {
        match request {
            Request::WriteControl(r) => Ok(r),
            _ => Err(TryIntoError::TryIntoRequestFailed),
        }
    }
}

impl vstd::std_specs::convert::TryFromSpecImpl<Request> for WriteControlRequest {
    open spec fn obeys_try_from_spec() -> bool {
        true
    }

    open spec fn try_from_spec(request: Request) -> Result<WriteControlRequest, TryIntoError> {
        match request {
            Request::WriteControl(r) => Ok(r),
            _ => Err(TryIntoError::TryIntoRequestFailed),
        }
    }
}

impl From<AddDeviceNotificationRequest> for Request {
    fn from(request: AddDeviceNotificationRequest) -> (wrapped: Request) {
        Request::AddDeviceNotification(request)
    }
}

impl vstd::std_specs::convert::FromSpecImpl<AddDeviceNotificationRequest> for Request {
    open spec fn obeys_from_spec() -> bool {
        true
    }

    open spec fn from_spec(request: AddDeviceNotificationRequest) -> Request {
        Request::AddDeviceNotification(request)
    }
}

impl TryFrom<Request> for AddDeviceNotificationRequest {
    type Error = TryIntoError;

    fn try_from(request: Request) -> (res: Result<AddDeviceNotificationRequest, TryIntoError>) {
        match request {
            Request::AddDeviceNotification(r) => Ok(r),
            _ => Err(TryIntoError::TryIntoRequestFailed),
        }
    }
}

impl vstd::std_specs::convert::TryFromSpecImpl<Request> for AddDeviceNotificationRequest {
    open spec fn obeys_try_from_spec() -> bool {
        true
    }

    open spec fn try_from_spec(
        request: Request,
    ) -> Result<AddDeviceNotificationRequest, TryIntoError> {
        match request {
            Request::AddDeviceNotification(r) => Ok(r),
            _ => Err(TryIntoError::TryIntoRequestFailed),
        }
    }
}

impl From<DeleteDeviceNotificationRequest> for Request {
    fn from(request: DeleteDeviceNotificationRequest) -> (wrapped: Request) {
        Request::DeleteDeviceNotification(request)
    }
}

impl vstd::std_specs::convert::FromSpecImpl<DeleteDeviceNotificationRequest> for Request {
    open spec fn obeys_from_spec() -> bool {
        true
    }

    open spec fn from_spec(request: DeleteDeviceNotificationRequest) -> Request {
        Request::DeleteDeviceNotification(request)
    }
}

impl TryFrom<Request> for DeleteDeviceNotificationRequest {
    type Error = TryIntoError;

    fn try_from(request: Request) -> (res: Result<DeleteDeviceNotificationRequest, TryIntoError>) {
        match request {
            Request::DeleteDeviceNotification(r) => Ok(r),
            _ => Err(TryIntoError::TryIntoRequestFailed),
        }
    }
}

impl vstd::std_specs::convert::TryFromSpecImpl<Request> for DeleteDeviceNotificationRequest {
    open spec fn obeys_try_from_spec() -> bool {
        true
    }

    open spec fn try_from_spec(
        request: Request,
    ) -> Result<DeleteDeviceNotificationRequest, TryIntoError> {
        match request {
            Request::DeleteDeviceNotification(r) => Ok(r),
            _ => Err(TryIntoError::TryIntoRequestFailed),
        }
    }
}

impl From<DeviceNotificationRequest> for Request {
    fn from(request: DeviceNotificationRequest) -> (wrapped: Request) {
        Request::DeviceNotification(request)
    }
}

impl vstd::std_specs::convert::FromSpecImpl<DeviceNotificationRequest> for Request {
    open spec fn obeys_from_spec() -> bool {
        true
    }

    open spec fn from_spec(request: DeviceNotificationRequest) -> Request {
        Request::DeviceNotification(request)
    }
}

impl TryFrom<Request> for DeviceNotificationRequest {
    type Error = TryIntoError;

    fn try_from(request: Request) -> (res: Result<DeviceNotificationRequest, TryIntoError>) {
        match request {
            Request::DeviceNotification(r) => Ok(r),
            _ => Err(TryIntoError::TryIntoRequestFailed),
        }
    }
}

impl vstd::std_specs::convert::TryFromSpecImpl<Request> for DeviceNotificationRequest {
    open spec fn obeys_try_from_spec() -> bool {
        true
    }

    open spec fn try_from_spec(
        request: Request,
    ) -> Result<DeviceNotificationRequest, TryIntoError> {
        match request {
            Request::DeviceNotification(r) => Ok(r),
            _ => Err(TryIntoError::TryIntoRequestFailed),
        }
    }
}

impl From<ReadWriteRequest> for Request {
    fn from(request: ReadWriteRequest) -> (wrapped: Request) {
        Request::ReadWrite(request)
    }
}

impl vstd::std_specs::convert::FromSpecImpl<ReadWriteRequest> for Request {
    open spec fn obeys_from_spec() -> bool {
        true
    }

    open spec fn from_spec(request: ReadWriteRequest) -> Request {
        Request::ReadWrite(request)
    }
}

impl TryFrom<Request> for ReadWriteRequest {
    type Error = TryIntoError;

    fn try_from(request: Request) -> (res: Result<ReadWriteRequest, TryIntoError>) {
        match request {
            Request::ReadWrite(r) => Ok(r),
            _ => Err(TryIntoError::TryIntoRequestFailed),
        }
    }
}

impl vstd::std_specs::convert::TryFromSpecImpl<Request> for ReadWriteRequest {
    open spec fn obeys_try_from_spec() -> bool {
        true
    }

    open spec fn try_from_spec(request: Request) -> Result<ReadWriteRequest, TryIntoError> {
        match request {
            Request::ReadWrite(r) => Ok(r),
            _ => Err(TryIntoError::TryIntoRequestFailed),
        }
    }
}

/// The request of the invalid command.
#[derive(Debug, Clone, Copy, PartialEq, Eq, Structural)]
pub struct InvalidRequest {
    pub command_id: CommandID,
}

impl InvalidRequest {
    /// The request with the given fields.
    pub fn new() -> (request: Self)
        ensures
            request.command_id == CommandID::Invalid,
    {
        InvalidRequest { command_id: CommandID::Invalid }
    }
}

impl Default for InvalidRequest {
    fn default() -> (request: Self)
        ensures
            request.command_id == CommandID::Invalid,
    {
        Self::new()
    }
}

/// The request to read name and version of a device.
#[derive(Debug, Clone, Copy, PartialEq, Eq, Structural)]
pub struct ReadDeviceInfoRequest {
    pub command_id: CommandID,
}

impl ReadDeviceInfoRequest {
    /// The request with the given fields.
    pub fn new() -> (request: Self)
        ensures
            request.command_id == CommandID::ReadDeviceInfo,
    {
        ReadDeviceInfoRequest { command_id: CommandID::ReadDeviceInfo }
    }
}

impl Default for ReadDeviceInfoRequest {
    fn default() -> (request: Self)
        ensures
            request.command_id == CommandID::ReadDeviceInfo,
    {
        Self::new()
    }
}

/// The request to read the state of a device.
#[derive(Debug, Clone, Copy, PartialEq, Eq, Structural)]
pub struct ReadStateRequest {
    pub command_id: CommandID,
}

impl ReadStateRequest {
    /// The request with the given fields.
    pub fn new() -> (request: Self)
        ensures
            request.command_id == CommandID::ReadState,
    {
        ReadStateRequest { command_id: CommandID::ReadState }
    }
}

impl Default for ReadStateRequest {
    fn default() -> (request: Self)
        ensures
            request.command_id == CommandID::ReadState,
    {
        Self::new()
    }
}

/// The request side of a device notification, which a server sends unasked.
#[derive(Debug, Clone, Copy, PartialEq, Eq, Structural)]
pub struct DeviceNotificationRequest {
    pub command_id: CommandID,
}

impl DeviceNotificationRequest {
    /// The request with the given fields.
    pub fn new() -> (request: Self)
        ensures
            request.command_id == CommandID::DeviceNotification,
    {
        DeviceNotificationRequest { command_id: CommandID::DeviceNotification }
    }
}

impl Default for DeviceNotificationRequest {
    fn default() -> (request: Self)
        ensures
            request.command_id == CommandID::DeviceNotification,
    {
        Self::new()
    }
}

/// The request to read `length` bytes.
#[derive(Debug, Clone, Copy, PartialEq, Eq, Structural)]
pub struct ReadRequest {
    pub index_group: u32,
    pub index_offset: u32,
    pub length: u32,
    pub command_id: CommandID,
}

impl View for ReadRequest {
    type V = ReadRequest;

    open spec fn view(&self) -> ReadRequest {
        *self
    }
}

impl ReadRequest {
    /// The request with the given fields.
    pub fn new(index_group: u32, index_offset: u32, length: u32) -> (request: Self)
        ensures
            request == (ReadRequest {
                index_group,
                index_offset,
                length,
                command_id: CommandID::Read,
            }),
    {
        ReadRequest { index_group, index_offset, length, command_id: CommandID::Read }
    }
}

impl WriteTo for ReadRequest {
    open spec fn wire(v: ReadRequest) -> Seq<u8> {
        u32_to_le(v.index_group) + u32_to_le(v.index_offset) + u32_to_le(v.length)
    }

    fn write_to(&self, wtr: &mut Vec<u8>) -> (res: Result<(), ProtoError>) {
        put_u32(wtr, self.index_group);
        put_u32(wtr, self.index_offset);
        put_u32(wtr, self.length);
        assert(wtr@ =~= old(wtr)@ + Self::wire(self@));
        Ok(())
    }
}

impl ReadFrom for ReadRequest {
    open spec fn parse(bytes: Seq<u8>) -> Result<(ReadRequest, nat), ProtoError> {
        if bytes.len() < 12 {
            Err(ProtoError::UnexpectedEof)
        } else {
            Ok(
                (
                    ReadRequest {
                        index_group: u32_at(bytes, 0),
                        index_offset: u32_at(bytes, 4),
                        length: u32_at(bytes, 8),
                        command_id: CommandID::Read,
                    },
                    12,
                ),
            )
        }
    }

    fn read_from(read: &mut &[u8]) -> (res: Result<Self, ProtoError>) {
        let buf: &[u8] = *read;
        if buf.len() < 12 {
            return Err(ProtoError::UnexpectedEof);
        }
        let request = ReadRequest {
            index_group: get_u32(buf, 0),
            index_offset: get_u32(buf, 4),
            length: get_u32(buf, 8),
            command_id: CommandID::Read,
        };
        advance(read, 12);
        Ok(request)
    }
}

/// A read request that is written and read again is the same request,
/// whatever follows it in the input.
pub proof fn lemma_read_request_round_trip(v: ReadRequest, rest: Seq<u8>)
    requires
        v.command_id == CommandID::Read,
    ensures
        ReadRequest::wire(v).len() == 12,
        ReadRequest::parse(ReadRequest::wire(v) + rest) == Ok::<(ReadRequest, nat), ProtoError>(
            (v, 12),
        ),
{
    lemma_le_round_trips();
    let s = ReadRequest::wire(v) + rest;
    assert(s.subrange(0, 4) =~= u32_to_le(v.index_group));
    assert(s.subrange(4, 8) =~= u32_to_le(v.index_offset));
    assert(s.subrange(8, 12) =~= u32_to_le(v.length));
}

/// What a write request is.
pub struct WriteRequestView {
    pub index_group: u32,
    pub index_offset: u32,
    pub length: u32,
    pub data: Seq<u8>,
    pub command_id: CommandID,
}

/// The request to write `data`.
#[derive(Debug, Clone, PartialEq, Eq)]
pub struct WriteRequest {
    pub index_group: u32,
    pub index_offset: u32,
    pub length: u32,
    pub data: Vec<u8>,
    pub command_id: CommandID,
}

impl View for WriteRequest {
    type V = WriteRequestView;

    open spec fn view(&self) -> WriteRequestView {
        WriteRequestView {
            index_group: self.index_group,
            index_offset: self.index_offset,
            length: self.length,
            data: self.data@,
            command_id: self.command_id,
        }
    }
}

impl WriteRequest {
    /// A write request whose length is that of `data`.
    pub fn new(index_group: u32, index_offset: u32, data: Vec<u8>) -> (request: Self)
        requires
            data.len() <= u32::MAX,
        ensures
            request@ == (WriteRequestView {
                index_group,
                index_offset,
                length: data.len() as u32,
                data: data@,
                command_id: CommandID::Write,
            }),
    {
        WriteRequest {
            index_group,
            index_offset,
            length: data.len() as u32,
            data,
            command_id: CommandID::Write,
        }
    }
}

impl WriteTo for WriteRequest {
    open spec fn wire(v: WriteRequestView) -> Seq<u8> {
        u32_to_le(v.index_group) + u32_to_le(v.index_offset) + u32_to_le(v.length) + v.data
    }

    fn write_to(&self, wtr: &mut Vec<u8>) -> (res: Result<(), ProtoError>) {
        put_u32(wtr, self.index_group);
        put_u32(wtr, self.index_offset);
        put_u32(wtr, self.length);
        put_bytes(wtr, self.data.as_slice());
        assert(wtr@ =~= old(wtr)@ + Self::wire(self@));
        Ok(())
    }
}

impl ReadFrom for WriteRequest {
    /// The data of a write request is all that follows its three integers,
    /// whatever length it declares.
    open spec fn parse(bytes: Seq<u8>) -> Result<(WriteRequestView, nat), ProtoError> {
        if bytes.len() < 12 {
            Err(ProtoError::UnexpectedEof)
        } else {
            Ok(
                (
                    WriteRequestView {
                        index_group: u32_at(bytes, 0),
                        index_offset: u32_at(bytes, 4),
                        length: u32_at(bytes, 8),
                        data: bytes.skip(12),
                        command_id: CommandID::Write,
                    },
                    bytes.len(),
                ),
            )
        }
    }

    fn read_from(read: &mut &[u8]) -> (res: Result<Self, ProtoError>) {
        let buf: &[u8] = *read;
        if buf.len() < 12 {
            return Err(ProtoError::UnexpectedEof);
        }
        let request = WriteRequest {
            index_group: get_u32(buf, 0),
            index_offset: get_u32(buf, 4),
            length: get_u32(buf, 8),
            data: get_bytes(buf, 12, buf.len()),
            command_id: CommandID::Write,
        };
        advance(read, buf.len());
        Ok(request)
    }
}

/// A write request that is written and read again is the same request, also
/// where its length is not that of its data.
pub proof fn lemma_write_request_round_trip(v: WriteRequestView)
    requires
        v.command_id == CommandID::Write,
    ensures
        WriteRequest::wire(v).len() == 12 + v.data.len(),
        WriteRequest::parse(WriteRequest::wire(v)) == Ok::<(WriteRequestView, nat), ProtoError>(
            (v, WriteRequest::wire(v).len()),
        ),
{
    lemma_le_round_trips();
    let s = WriteRequest::wire(v);
    assert(s.subrange(0, 4) =~= u32_to_le(v.index_group));
    assert(s.subrange(4, 8) =~= u32_to_le(v.index_offset));
    assert(s.subrange(8, 12) =~= u32_to_le(v.length));
    assert(s.skip(12) =~= v.data);
}

/// What a write control request is.
pub struct WriteControlRequestView {
    pub ads_state: AdsState,
    pub device_state: u16,
    pub length: u32,
    pub data: Seq<u8>,
    pub command_id: CommandID,
}

/// The request to change the state of a device.
#[derive(Debug, Clone, PartialEq, Eq)]
pub struct WriteControlRequest {
    pub ads_state: AdsState,
    pub device_state: u16,
    pub length: u32,
    pub data: Vec<u8>,
    pub command_id: CommandID,
}

impl View for WriteControlRequest {
    type V = WriteControlRequestView;

    open spec fn view(&self) -> WriteControlRequestView {
        WriteControlRequestView {
            ads_state: self.ads_state,
            device_state: self.device_state,
            length: self.length,
            data: self.data@,
            command_id: self.command_id,
        }
    }
}

impl WriteControlRequest {
    /// The request with the given fields. The length is taken as given.
    pub fn new(ads_state: AdsState, device_state: u16, length: u32, data: Vec<u8>) -> (request:
        Self)
        ensures
            request@ == (WriteControlRequestView {
                ads_state,
                device_state,
                length,
                data: data@,
                command_id: CommandID::WriteControl,
            }),
    {
        WriteControlRequest {
            ads_state,
            device_state,
            length,
            data,
            command_id: CommandID::WriteControl,
        }
    }
}

impl WriteTo for WriteControlRequest {
    open spec fn wire(v: WriteControlRequestView) -> Seq<u8> {
        u16_to_le(v.ads_state.code()) + u16_to_le(v.device_state) + u32_to_le(v.length) + v.data
    }

    fn write_to(&self, wtr: &mut Vec<u8>) -> (res: Result<(), ProtoError>) {
        let _ = self.ads_state.write_to(wtr);
        put_u16(wtr, self.device_state);
        put_u32(wtr, self.length);
        put_bytes(wtr, self.data.as_slice());
        assert(wtr@ =~= old(wtr)@ + Self::wire(self@));
        Ok(())
    }
}

impl ReadFrom for WriteControlRequest {
    /// The data of a write control request is all that follows its three
    /// integers, whatever length it declares.
    open spec fn parse(bytes: Seq<u8>) -> Result<(WriteControlRequestView, nat), ProtoError> {
        if bytes.len() < 8 {
            Err(ProtoError::UnexpectedEof)
        } else {
            Ok(
                (
                    WriteControlRequestView {
                        ads_state: AdsState::of_code(u16_at(bytes, 0)),
                        device_state: u16_at(bytes, 2),
                        length: u32_at(bytes, 4),
                        data: bytes.skip(8),
                        command_id: CommandID::WriteControl,
                    },
                    bytes.len(),
                ),
            )
        }
    }

    fn read_from(read: &mut &[u8]) -> (res: Result<Self, ProtoError>) {
        let buf: &[u8] = *read;
        if buf.len() < 8 {
            return Err(ProtoError::UnexpectedEof);
        }
        let request = WriteControlRequest {
            ads_state: AdsState::from_code(get_u16(buf, 0)),
            device_state: get_u16(buf, 2),
            length: get_u32(buf, 4),
            data: get_bytes(buf, 8, buf.len()),
            command_id: CommandID::WriteControl,
        };
        advance(read, buf.len());
        Ok(request)
    }
}

/// A write control request that is written and read again is the same
/// request, also where its length is not that of its data.
pub proof fn lemma_write_control_request_round_trip(v: WriteControlRequestView)
    requires
        v.command_id == CommandID::WriteControl,
    ensures
        WriteControlRequest::wire(v).len() == 8 + v.data.len(),
        WriteControlRequest::parse(WriteControlRequest::wire(v)) == Ok::<
            (WriteControlRequestView, nat),
            ProtoError,
        >((v, WriteControlRequest::wire(v).len())),
{
    lemma_le_round_trips();
    let s = WriteControlRequest::wire(v);
    assert(s.subrange(0, 2) =~= u16_to_le(v.ads_state.code()));
    assert(s.subrange(2, 4) =~= u16_to_le(v.device_state));
    assert(s.subrange(4, 8) =~= u32_to_le(v.length));
    assert(s.skip(8) =~= v.data);
}

/// What a request for notifications is.
pub struct AddDeviceNotificationRequestView {
    pub index_group: u32,
    pub index_offset: u32,
    pub length: u32,
    pub transmission_mode: AdsTransMode,
    pub max_delay: u32,
    pub cycle_time: u32,
    pub reserved: Seq<u8>,
    pub command_id: CommandID,
}

impl AddDeviceNotificationRequestView {
    /// Sixteen reserved bytes, and the command of this request.
    pub open spec fn wf(self) -> bool {
        self.reserved.len() == 16 && self.command_id == CommandID::AddDeviceNotification
    }
}

/// The request to be notified of changes of a variable.
#[derive(Debug, PartialEq, Eq, Clone)]
pub struct AddDeviceNotificationRequest {
    pub index_group: u32,
    pub index_offset: u32,
    pub length: u32,
    pub transmission_mode: AdsTransMode,
    pub max_delay: u32,
    pub cycle_time: u32,
    pub reserved: [u8; 16],
    pub command_id: CommandID,
}

impl View for AddDeviceNotificationRequest {
    type V = AddDeviceNotificationRequestView;

    open spec fn view(&self) -> AddDeviceNotificationRequestView {
        AddDeviceNotificationRequestView {
            index_group: self.index_group,
            index_offset: self.index_offset,
            length: self.length,
            transmission_mode: self.transmission_mode,
            max_delay: self.max_delay,
            cycle_time: self.cycle_time,
            reserved: self.reserved@,
            command_id: self.command_id,
        }
    }
}

impl AddDeviceNotificationRequest {
    /// A request whose reserved bytes are zero.
    pub fn new(
        index_group: u32,
        index_offset: u32,
        length: u32,
        transmission_mode: AdsTransMode,
        max_delay: u32,
        cycle_time: u32,
    ) -> (request: Self)
        ensures
            request@ == (AddDeviceNotificationRequestView {
                index_group,
                index_offset,
                length,
                transmission_mode,
                max_delay,
                cycle_time,
                reserved: Seq::new(16, |i: int| 0u8),
                command_id: CommandID::AddDeviceNotification,
            }),
    {
        let request = AddDeviceNotificationRequest {
            index_group,
            index_offset,
            length,
            transmission_mode,
            max_delay,
            cycle_time,
            reserved: [0;16],
            command_id: CommandID::AddDeviceNotification,
        };
        assert(request.reserved@ =~= Seq::new(16, |i: int| 0u8));
        request
    }
}

impl WriteTo for AddDeviceNotificationRequest {
    open spec fn wire(v: AddDeviceNotificationRequestView) -> Seq<u8> {
        u32_to_le(v.index_group) + u32_to_le(v.index_offset) + u32_to_le(v.length) + u32_to_le(
            v.transmission_mode.code(),
        ) + u32_to_le(v.max_delay) + u32_to_le(v.cycle_time) + v.reserved
    }

    fn write_to(&self, wtr: &mut Vec<u8>) -> (res: Result<(), ProtoError>) {
        put_u32(wtr, self.index_group);
        put_u32(wtr, self.index_offset);
        put_u32(wtr, self.length);
        let _ = self.transmission_mode.write_to(wtr);
        put_u32(wtr, self.max_delay);
        put_u32(wtr, self.cycle_time);
        put_bytes(wtr, self.reserved.as_slice());
        assert(wtr@ =~= old(wtr)@ + Self::wire(self@));
        Ok(())
    }
}

impl ReadFrom for AddDeviceNotificationRequest {
    open spec fn parse(bytes: Seq<u8>) -> Result<
        (AddDeviceNotificationRequestView, nat),
        ProtoError,
    > {
        if bytes.len() < 40 {
            Err(ProtoError::UnexpectedEof)
        } else {
            Ok(
                (
                    AddDeviceNotificationRequestView {
                        index_group: u32_at(bytes, 0),
                        index_offset: u32_at(bytes, 4),
                        length: u32_at(bytes, 8),
                        transmission_mode: AdsTransMode::of_code(u32_at(bytes, 12)),
                        max_delay: u32_at(bytes, 16),
                        cycle_time: u32_at(bytes, 20),
                        reserved: bytes.subrange(24, 40),
                        command_id: CommandID::AddDeviceNotification,
                    },
                    40,
                ),
            )
        }
    }

    fn read_from(read: &mut &[u8]) -> (res: Result<Self, ProtoError>) {
        let buf: &[u8] = *read;
        if buf.len() < 40 {
            return Err(ProtoError::UnexpectedEof);
        }
        let request = AddDeviceNotificationRequest {
            index_group: get_u32(buf, 0),
            index_offset: get_u32(buf, 4),
            length: get_u32(buf, 8),
            transmission_mode: AdsTransMode::from_code(get_u32(buf, 12)),
            max_delay: get_u32(buf, 16),
            cycle_time: get_u32(buf, 20),
            reserved: get_array::<16>(buf, 24),
            command_id: CommandID::AddDeviceNotification,
        };
        advance(read, 40);
        Ok(request)
    }
}

/// A request for notifications that is written and read again is the same
/// request, whatever follows it in the input.
pub proof fn lemma_add_device_notification_request_round_trip(
    v: AddDeviceNotificationRequestView,
    rest: Seq<u8>,
)
    requires
        v.wf(),
    ensures
        AddDeviceNotificationRequest::wire(v).len() == 40,
        AddDeviceNotificationRequest::parse(AddDeviceNotificationRequest::wire(v) + rest) == Ok::<
            (AddDeviceNotificationRequestView, nat),
            ProtoError,
        >((v, 40)),
{
    lemma_le_round_trips();
    let s = AddDeviceNotificationRequest::wire(v) + rest;
    assert(s.subrange(0, 4) =~= u32_to_le(v.index_group));
    assert(s.subrange(4, 8) =~= u32_to_le(v.index_offset));
    assert(s.subrange(8, 12) =~= u32_to_le(v.length));
    assert(s.subrange(12, 16) =~= u32_to_le(v.transmission_mode.code()));
    assert(s.subrange(16, 20) =~= u32_to_le(v.max_delay));
    assert(s.subrange(20, 24) =~= u32_to_le(v.cycle_time));
    assert(s.subrange(24, 40) =~= v.reserved);
}

/// The request to end the notifications of one handle.
#[derive(Debug, Clone, Copy, PartialEq, Eq, Structural)]
pub struct DeleteDeviceNotificationRequest {
    pub handle: u32,
    pub command_id: CommandID,
}

impl View for DeleteDeviceNotificationRequest {
    type V = DeleteDeviceNotificationRequest;

    open spec fn view(&self) -> DeleteDeviceNotificationRequest {
        *self
    }
}

impl WriteTo for DeleteDeviceNotificationRequest {
    open spec fn wire(v: DeleteDeviceNotificationRequest) -> Seq<u8> {
        u32_to_le(v.handle)
    }

    fn write_to(&self, wtr: &mut Vec<u8>) -> (res: Result<(), ProtoError>) {
        put_u32(wtr, self.handle);
        Ok(())
    }
}

impl ReadFrom for DeleteDeviceNotificationRequest {
    open spec fn parse(bytes: Seq<u8>) -> Result<
        (DeleteDeviceNotificationRequest, nat),
        ProtoError,
    > {
        if bytes.len() < 4 {
            Err(ProtoError::UnexpectedEof)
        } else {
            Ok(
                (
                    DeleteDeviceNotificationRequest {
                        handle: u32_at(bytes, 0),
                        command_id: CommandID::DeleteDeviceNotification,
                    },
                    4,
                ),
            )
        }
    }

    fn read_from(read: &mut &[u8]) -> (res: Result<Self, ProtoError>) {
        let buf: &[u8] = *read;
        if buf.len() < 4 {
            return Err(ProtoError::UnexpectedEof);
        }
        let request = DeleteDeviceNotificationRequest {
            handle: get_u32(buf, 0),
            command_id: CommandID::DeleteDeviceNotification,
        };
        advance(read, 4);
        Ok(request)
    }
}

impl DeleteDeviceNotificationRequest {
    /// The request with the given fields.
    pub fn new(handle: u32) -> (request: Self)
        ensures
            request == (DeleteDeviceNotificationRequest {
                handle,
                command_id: CommandID::DeleteDeviceNotification,
            }),
    {
        DeleteDeviceNotificationRequest { handle, command_id: CommandID::DeleteDeviceNotification }
    }
}

/// A request to end notifications that is written and read again is the same
/// request, whatever follows it in the input.
pub proof fn lemma_delete_device_notification_request_round_trip(
    v: DeleteDeviceNotificationRequest,
    rest: Seq<u8>,
)
    requires
        v.command_id == CommandID::DeleteDeviceNotification,
    ensures
        DeleteDeviceNotificationRequest::wire(v).len() == 4,
        DeleteDeviceNotificationRequest::parse(DeleteDeviceNotificationRequest::wire(v) + rest)
            == Ok::<(DeleteDeviceNotificationRequest, nat), ProtoError>((v, 4)),
{
    lemma_le_round_trips();
    let s = DeleteDeviceNotificationRequest::wire(v) + rest;
    assert(s.subrange(0, 4) =~= u32_to_le(v.handle));
}

/// What a read-write request is.
pub struct ReadWriteRequestView {
    pub index_group: u32,
    pub index_offset: u32,
    pub read_length: u32,
    pub write_length: u32,
    pub data: Seq<u8>,
    pub command_id: CommandID,
}

impl ReadWriteRequestView {
    /// The write length is that of the data, and the command is this
    /// request's.
    pub open spec fn wf(self) -> bool {
        self.write_length == self.data.len() && self.command_id == CommandID::ReadWrite
    }
}

/// The request to write `data` and read `read_length` bytes in one step.
#[derive(Debug, Clone, PartialEq, Eq)]
pub struct ReadWriteRequest {
    pub index_group: u32,
    pub index_offset: u32,
    pub read_length: u32,
    pub write_length: u32,
    pub data: Vec<u8>,
    pub command_id: CommandID,
}

impl View for ReadWriteRequest {
    type V = ReadWriteRequestView;

    open spec fn view(&self) -> ReadWriteRequestView {
        ReadWriteRequestView {
            index_group: self.index_group,
            index_offset: self.index_offset,
            read_length: self.read_length,
            write_length: self.write_length,
            data: self.data@,
            command_id: self.command_id,
        }
    }
}

impl ReadWriteRequest {
    /// A read-write request whose write length is that of `data`.
    pub fn new(index_group: u32, index_offset: u32, read_length: u32, data: Vec<u8>) -> (request:
        Self)
        requires
            data.len() <= u32::MAX,
        ensures
            request@ == (ReadWriteRequestView {
                index_group,
                index_offset,
                read_length,
                write_length: data.len() as u32,
                data: data@,
                command_id: CommandID::ReadWrite,
            }),
            request@.wf(),
    {
        ReadWriteRequest {
            index_group,
            index_offset,
            read_length,
            write_length: data.len() as u32,
            data,
            command_id: CommandID::ReadWrite,
        }
    }
}

impl WriteTo for ReadWriteRequest {
    open spec fn wire(v: ReadWriteRequestView) -> Seq<u8> {
        u32_to_le(v.index_group) + u32_to_le(v.index_offset) + u32_to_le(v.read_length)
            + u32_to_le(v.write_length) + v.data
    }

    fn write_to(&self, wtr: &mut Vec<u8>) -> (res: Result<(), ProtoError>) {
        put_u32(wtr, self.index_group);
        put_u32(wtr, self.index_offset);
        put_u32(wtr, self.read_length);
        put_u32(wtr, self.write_length);
        put_bytes(wtr, self.data.as_slice());
        assert(wtr@ =~= old(wtr)@ + Self::wire(self@));
        Ok(())
    }
}

impl ReadFrom for ReadWriteRequest {
    /// The data of a read-write request is as long as its write length says.
    open spec fn parse(bytes: Seq<u8>) -> Result<(ReadWriteRequestView, nat), ProtoError> {
        if bytes.len() < 16 {
            Err(ProtoError::UnexpectedEof)
        } else if bytes.len() < 16 + u32_at(bytes, 12) {
            Err(ProtoError::UnexpectedEof)
        } else {
            Ok(
                (
                    ReadWriteRequestView {
                        index_group: u32_at(bytes, 0),
                        index_offset: u32_at(bytes, 4),
                        read_length: u32_at(bytes, 8),
                        write_length: u32_at(bytes, 12),
                        data: bytes.subrange(16, 16 + u32_at(bytes, 12)),
                        command_id: CommandID::ReadWrite,
                    },
                    (16 + u32_at(bytes, 12)) as nat,
                ),
            )
        }
    }

    fn read_from(read: &mut &[u8]) -> (res: Result<Self, ProtoError>) {
        let buf: &[u8] = *read;
        if buf.len() < 16 {
            return Err(ProtoError::UnexpectedEof);
        }
        let write_length = get_u32(buf, 12);
        if write_length as u64 > (buf.len() - 16) as u64 {
            return Err(ProtoError::UnexpectedEof);
        }
        let end: usize = 16 + write_length as usize;
        let request = ReadWriteRequest {
            index_group: get_u32(buf, 0),
            index_offset: get_u32(buf, 4),
            read_length: get_u32(buf, 8),
            write_length,
            data: get_bytes(buf, 16, end),
            command_id: CommandID::ReadWrite,
        };
        advance(read, end);
        Ok(request)
    }
}

/// A read-write request whose write length is that of its data, written and
/// read again, is the same request, whatever follows it in the input.
pub proof fn lemma_read_write_request_round_trip(v: ReadWriteRequestView, rest: Seq<u8>)
    requires
        v.wf(),
    ensures
        ReadWriteRequest::wire(v).len() == 16 + v.data.len(),
        ReadWriteRequest::parse(ReadWriteRequest::wire(v) + rest) == Ok::<
            (ReadWriteRequestView, nat),
            ProtoError,
        >((v, ReadWriteRequest::wire(v).len())),
{
    lemma_le_round_trips();
    let s = ReadWriteRequest::wire(v) + rest;
    assert(s.subrange(0, 4) =~= u32_to_le(v.index_group));
    assert(s.subrange(4, 8) =~= u32_to_le(v.index_offset));
    assert(s.subrange(8, 12) =~= u32_to_le(v.read_length));
    assert(s.subrange(12, 16) =~= u32_to_le(v.write_length));
    assert(s.subrange(16, 16 + v.write_length) =~= v.data);
}

} // verus!

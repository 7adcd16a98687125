use ads_proto::ads_services::system_services::{
    adsigrp_sumup_readex, adsigrp_sumup_readwrite, adsigrp_sumup_write, get_symhandle_by_name,
    read_write_symval_by_handle,
};
use ads_proto::error::{AdsError, AmsAddressError, ProtoError, TryIntoError};
use ads_proto::proto::ads_state::AdsState;
use ads_proto::proto::ads_transition_mode::AdsTransMode;
use ads_proto::proto::ams_address::{AmsAddress, AmsNetId};
use ads_proto::proto::ams_header::{AmsHeader, AmsTcpHeader};
use ads_proto::proto::command_id::CommandID;
use ads_proto::proto::proto_traits::{ReadFrom, WriteTo};
use ads_proto::proto::request::{
    AddDeviceNotificationRequest, DeleteDeviceNotificationRequest, DeviceNotificationRequest,
    InvalidRequest, ReadDeviceInfoRequest, ReadRequest, ReadStateRequest, ReadWriteRequest,
    Request, WriteControlRequest, WriteRequest,
};
use ads_proto::proto::response::{
    AddDeviceNotificationResponse, AdsNotificationSample, AdsNotificationStream, AdsStampHeader,
    DeleteDeviceNotificationResponse, InvalidResponse, ReadDeviceInfoResponse, ReadResponse,
    ReadStateResponse, ReadWriteResponse, Response, WriteControlResponse, WriteResponse,
};
use ads_proto::proto::state_flags::{NetProto, StateFlags};
use ads_proto::proto::sumup::sumup_request::{
    SumupReadRequest, SumupReadWriteRequest, SumupWriteRequest,
};
use ads_proto::proto::sumup::sumup_response::{SumupReadResponse, SumupWriteResponse};
use std::convert::TryFrom;
use std::str::FromStr;

fn frame(command: u16, flags: u16, payload: &[u8]) -> AmsHeader {
    let mut bytes: Vec<u8> = vec![
        192, 168, 1, 1, 1, 1, 48, 117, 192, 168, 1, 1, 1, 2, 48, 117,
    ];
    bytes.extend(command.to_le_bytes());
    bytes.extend(flags.to_le_bytes());
    bytes.extend((payload.len() as u32).to_le_bytes());
    bytes.extend([0, 0, 0, 0, 111, 0, 0, 0]);
    bytes.extend(payload);
    AmsHeader::read_from(&mut bytes.as_slice()).unwrap()
}

fn cut_short<T: ReadFrom + std::fmt::Debug>(bytes: &[u8]) {
    for len in 0..bytes.len() {
        let mut reader: &[u8] = &bytes[..len];
        match T::read_from(&mut reader) {
            Err(e) => assert_eq!(e, ProtoError::UnexpectedEof, "at length {}", len),
            Ok(value) => panic!("{:?} read from {} bytes", value, len),
        }
        assert_eq!(reader, &bytes[..len], "a failed read moved the reader");
    }
}

#[test]
fn fixed_shapes_that_are_cut_short_are_refused() {
    cut_short::<CommandID>(&[1, 0]);
    cut_short::<AdsState>(&[1, 0]);
    cut_short::<AdsTransMode>(&[1, 0, 0, 0]);
    cut_short::<StateFlags>(&[4, 0]);
    cut_short::<AmsNetId>(&[1, 2, 3, 4, 5, 6]);
    cut_short::<AmsAddress>(&[1, 2, 3, 4, 5, 6, 7, 8]);
    cut_short::<ReadRequest>(&[0; 12]);
    cut_short::<AddDeviceNotificationRequest>(&[0; 40]);
    cut_short::<DeleteDeviceNotificationRequest>(&[0; 4]);
    cut_short::<ReadDeviceInfoResponse>(&[0; 24]);
    cut_short::<WriteResponse>(&[0; 4]);
    cut_short::<WriteControlResponse>(&[0; 4]);
    cut_short::<DeleteDeviceNotificationResponse>(&[0; 4]);
    cut_short::<ReadStateResponse>(&[0; 8]);
    cut_short::<AddDeviceNotificationResponse>(&[0; 8]);
}

#[test]
fn shapes_with_data_that_are_cut_short_are_refused() {
    cut_short::<WriteRequest>(&[0; 12]);
    cut_short::<WriteControlRequest>(&[0; 8]);
    cut_short::<ReadResponse>(&[0; 8]);
    cut_short::<ReadWriteResponse>(&[0; 8]);
    cut_short::<ReadWriteRequest>(&[1, 0, 0, 0, 2, 0, 0, 0, 3, 0, 0, 0, 2, 0, 0, 0, 8, 9]);
    cut_short::<AdsNotificationSample>(&[1, 0, 0, 0, 3, 0, 0, 0, 7, 8, 9]);
    cut_short::<AdsStampHeader>(&[
        9, 0, 0, 0, 0, 0, 0, 0, 2, 0, 0, 0, 1, 0, 0, 0, 1, 0, 0, 0, 7, 2, 0, 0, 0, 0, 0, 0, 0,
    ]);
    cut_short::<AdsNotificationStream>(&[
        17, 0, 0, 0, 1, 0, 0, 0, 9, 0, 0, 0, 0, 0, 0, 0, 1, 0, 0, 0, 1, 0, 0, 0, 1, 0, 0, 0, 7,
    ]);
    let mut frame_bytes = vec![0u8; 32];
    frame_bytes[20] = 3;
    frame_bytes.extend([1, 2, 3]);
    cut_short::<AmsHeader>(&frame_bytes);
    let mut envelope_bytes = vec![0, 0, 35, 0, 0, 0];
    envelope_bytes.extend(&frame_bytes);
    cut_short::<AmsTcpHeader>(&envelope_bytes);
}

#[test]
fn reading_takes_the_bytes_of_the_value_and_no_more() {
    let bytes: Vec<u8> = vec![3, 1, 0, 0, 3, 1, 0, 0, 4, 0, 0, 0, 99, 98];
    let mut reader: &[u8] = bytes.as_slice();
    assert_eq!(
        ReadRequest::read_from(&mut reader).unwrap(),
        ReadRequest::new(259, 259, 4)
    );
    assert_eq!(reader, [99, 98]);
    let mut reader: &[u8] = bytes.as_slice();
    assert_eq!(CommandID::read_from(&mut reader).unwrap(), CommandID::Invalid);
    assert_eq!(reader, &bytes[2..]);
    let mut reader: &[u8] = bytes.as_slice();
    let write = WriteRequest::read_from(&mut reader).unwrap();
    assert_eq!(write.data, [99, 98]);
    assert_eq!(write.length, 4);
    assert!(reader.is_empty());
}

#[test]
fn stream_without_stamps_or_with_a_length_under_four_is_refused() {
    let no_stamps: Vec<u8> = vec![4, 0, 0, 0, 0, 0, 0, 0];
    assert_eq!(
        AdsNotificationStream::read_from(&mut no_stamps.as_slice()),
        Err(ProtoError::InvalidData)
    );
    let short_length: Vec<u8> = vec![3, 0, 0, 0, 1, 0, 0, 0, 1, 2, 3, 4, 5, 6, 7, 8, 0, 0, 0, 0];
    assert_eq!(
        AdsNotificationStream::read_from(&mut short_length.as_slice()),
        Err(ProtoError::InvalidData)
    );
}

#[test]
fn stream_reads_each_stamp_from_its_own_piece() {
    // Two stamps in pieces of 14 bytes: each stamp has 12 bytes and no
    // sample, and the two bytes left in each piece are passed over.
    let mut bytes: Vec<u8> = vec![32, 0, 0, 0, 2, 0, 0, 0];
    bytes.extend([1, 0, 0, 0, 0, 0, 0, 0, 0, 0, 0, 0, 0xaa, 0xaa]);
    bytes.extend([2, 0, 0, 0, 0, 0, 0, 0, 0, 0, 0, 0, 0xbb, 0xbb]);
    bytes.extend([0xcc]);
    let mut reader: &[u8] = bytes.as_slice();
    let stream = AdsNotificationStream::read_from(&mut reader).unwrap();
    assert_eq!(reader, [0xcc]);
    assert_eq!(stream.length, 32);
    assert_eq!(stream.stamps, 2);
    assert_eq!(stream.command_id, CommandID::DeviceNotification);
    assert_eq!(
        stream.ads_stamp_headers,
        vec![
            AdsStampHeader::new(1, 0, vec![]),
            AdsStampHeader::new(2, 0, vec![])
        ]
    );
}

#[test]
fn notification_lengths() {
    let sample = AdsNotificationSample::new(1, vec![1, 2, 3]);
    assert_eq!(sample.sample_size, 3);
    assert_eq!(sample.sample_len(), 11);
    assert_eq!(AdsNotificationSample::new(1, vec![]).sample_len(), 8);
    let stamp = AdsStampHeader::new(5, 2, vec![sample.clone(), sample.clone()]);
    assert_eq!(stamp.stamp_len(), 34);
    assert_eq!(AdsStampHeader::new(5, 0, vec![]).stamp_len(), 12);
    let stream = AdsNotificationStream::new(72, 2, vec![stamp.clone(), stamp]);
    assert_eq!(stream.stream_len(), 76);
    assert_eq!(AdsNotificationStream::new(4, 0, vec![]).stream_len(), 8);
}

#[test]
fn batch_whose_lengths_do_not_fill_the_payload_is_refused() {
    // One record that declares two bytes, and three bytes behind it: no
    // second record fits.
    let bytes: Vec<u8> = vec![1, 0, 0, 0, 2, 0, 0, 0, 2, 0, 0, 0, 7, 7, 7];
    assert_eq!(
        SumupWriteRequest::read_from(&mut bytes.as_slice()),
        Err(ProtoError::UnexpectedEof)
    );
    // One record that declares more than the payload holds.
    let bytes: Vec<u8> = vec![1, 0, 0, 0, 2, 0, 0, 0, 9, 0, 0, 0, 7, 7, 7];
    assert_eq!(
        SumupWriteRequest::read_from(&mut bytes.as_slice()),
        Err(ProtoError::InvalidData)
    );
    let bytes: Vec<u8> = vec![1, 0, 0, 0, 255, 255, 255, 255];
    assert_eq!(
        SumupReadResponse::read_from(&mut bytes.as_slice()),
        Err(ProtoError::InvalidData)
    );
    let bytes: Vec<u8> = vec![0; 15];
    assert_eq!(
        SumupReadWriteRequest::read_from(&mut bytes.as_slice()),
        Err(ProtoError::UnexpectedEof)
    );
    // Records that declare more and more, past the end of the payload.
    let mut bytes: Vec<u8> = Vec::new();
    for _ in 0..4 {
        bytes.extend([0, 0, 0, 0, 0, 0, 0, 0, 20, 0, 0, 0]);
    }
    assert_eq!(
        SumupWriteRequest::read_from(&mut bytes.as_slice()),
        Err(ProtoError::InvalidData)
    );
}

#[test]
fn batch_finds_the_end_of_the_records() {
    // The second record could be taken for data of the first: the records
    // end at the first count at which records and data fill the payload.
    let bytes: Vec<u8> = vec![
        1, 0, 0, 0, 2, 0, 0, 0, 12, 0, 0, 0, 3, 0, 0, 0, 4, 0, 0, 0, 0, 0, 0, 0,
    ];
    let batch = SumupWriteRequest::read_from(&mut bytes.as_slice()).unwrap();
    assert_eq!(
        batch,
        SumupWriteRequest::new(vec![WriteRequest::new(
            1,
            2,
            vec![3, 0, 0, 0, 4, 0, 0, 0, 0, 0, 0, 0]
        )])
    );
}

#[test]
fn empty_batches() {
    let empty: Vec<u8> = Vec::new();
    assert_eq!(
        SumupWriteRequest::read_from(&mut empty.as_slice()).unwrap(),
        SumupWriteRequest::new(vec![])
    );
    assert_eq!(
        SumupReadWriteRequest::read_from(&mut empty.as_slice()).unwrap(),
        SumupReadWriteRequest::new(vec![])
    );
    assert_eq!(
        SumupReadRequest::read_from(&mut empty.as_slice()).unwrap(),
        SumupReadRequest::new(vec![])
    );
    assert_eq!(
        SumupReadResponse::read_from(&mut empty.as_slice()).unwrap(),
        SumupReadResponse::new(vec![])
    );
    assert_eq!(
        SumupWriteResponse::read_from(&mut empty.as_slice()).unwrap(),
        SumupWriteResponse::new(vec![])
    );
}

#[test]
fn read_batch_that_ends_within_a_record_is_refused() {
    let bytes: Vec<u8> = vec![0; 13];
    let mut reader: &[u8] = bytes.as_slice();
    assert_eq!(
        SumupReadRequest::read_from(&mut reader),
        Err(ProtoError::UnexpectedEof)
    );
    assert_eq!(reader.len(), 13);
}

#[test]
fn write_response_batch_passes_over_a_rest_under_four_bytes() {
    let bytes: Vec<u8> = vec![0, 0, 0, 0, 72, 7, 0, 0, 9, 9, 9];
    let mut reader: &[u8] = bytes.as_slice();
    let batch = SumupWriteResponse::read_from(&mut reader).unwrap();
    assert!(reader.is_empty());
    assert_eq!(
        batch.write_responses,
        vec![
            WriteResponse::new(AdsError::ErrNoError),
            WriteResponse::new(AdsError::AdsErrClientPortNotOpen)
        ]
    );
}

#[test]
fn expected_response_lengths() {
    let reads = SumupReadRequest::new(vec![
        ReadRequest::new(1, 1, 4),
        ReadRequest::new(1, 1, 0),
        ReadRequest::new(1, 1, 100),
    ]);
    assert_eq!(reads.request_count(), 3);
    assert_eq!(reads.expected_response_len(), 12 + 8 + 108);
    assert_eq!(SumupReadRequest::new(vec![]).expected_response_len(), 0);
    let writes = SumupWriteRequest::new(vec![
        WriteRequest::new(1, 1, vec![1, 2]),
        WriteRequest::new(1, 1, vec![]),
    ]);
    assert_eq!(writes.request_count(), 2);
    assert_eq!(writes.expected_response_len(), 8);
    assert_eq!(SumupWriteRequest::new(vec![]).expected_response_len(), 0);
}

#[test]
fn frame_is_44_bytes_and_its_envelope_50() {
    let header = AmsHeader::new(
        AmsAddress::from_str("192.168.1.1.1.1:30000").unwrap(),
        AmsAddress::from_str("192.168.1.1.1.2:30000").unwrap(),
        StateFlags::req_default(),
        111,
        Request::Read(ReadRequest::new(259, 259, 4)),
    );
    assert_eq!(header.header_len(), 44);
    assert_eq!(header.data_len(), 12);
    assert_eq!(header.response_data_len(), 12);
    let mut frame_bytes: Vec<u8> = Vec::new();
    header.write_to(&mut frame_bytes).unwrap();
    assert_eq!(frame_bytes.len(), 44);
    assert_eq!(&frame_bytes[32..], [3, 1, 0, 0, 3, 1, 0, 0, 4, 0, 0, 0]);
    let envelope = AmsTcpHeader::new(header);
    assert_eq!(envelope.length, 44);
    let mut bytes: Vec<u8> = Vec::new();
    envelope.write_to(&mut bytes).unwrap();
    assert_eq!(bytes.len(), 50);
    assert_eq!(&bytes[..6], [0, 0, 44, 0, 0, 0]);
    assert_eq!(&bytes[6..], frame_bytes.as_slice());
}

#[test]
fn frame_tells_request_from_response() {
    let read: [u8; 12] = [3, 1, 0, 0, 3, 1, 0, 0, 4, 0, 0, 0];
    let request = frame(2, 4, &read);
    assert_eq!(
        request.request().unwrap(),
        Request::Read(ReadRequest::new(259, 259, 4))
    );
    assert_eq!(request.response(), Err(ProtoError::WrongDirection));
    let response = frame(2, 5, &read);
    assert_eq!(response.request(), Err(ProtoError::WrongDirection));
    assert_eq!(
        response.response().unwrap(),
        Response::Read(ReadResponse {
            result: AdsError::ErrUnknowAdsError { error_code: 259 },
            length: 259,
            data: vec![4, 0, 0, 0],
            command_id: CommandID::Read,
        })
    );
    // Only bit 0 tells the direction.
    assert!(frame(2, 0xfffe, &read).request().is_ok());
    assert!(frame(2, 1, &read).response().is_ok());
}

#[test]
fn frame_of_the_invalid_command_holds_no_payload() {
    for flags in [4, 5] {
        for command in [0, 10, 9654] {
            let invalid = frame(command, flags, &[1, 2, 3, 4]);
            assert_eq!(invalid.command_id(), CommandID::Invalid);
            assert_eq!(invalid.request(), Err(ProtoError::InvalidCommand));
            assert_eq!(invalid.response(), Err(ProtoError::InvalidCommand));
        }
    }
}

#[test]
fn device_notification_is_a_response_whatever_the_flags_say() {
    let mut payload: Vec<u8> = vec![16, 0, 0, 0, 1, 0, 0, 0];
    payload.extend([9, 0, 0, 0, 0, 0, 0, 0, 0, 0, 0, 0]);
    for flags in [4, 5] {
        let notification = frame(8, flags, &payload);
        assert_eq!(
            notification.response().unwrap(),
            Response::DeviceNotification(AdsNotificationStream::new(
                16,
                1,
                vec![AdsStampHeader::new(9, 0, vec![])]
            ))
        );
    }
    assert_eq!(
        frame(8, 4, &payload).request().unwrap(),
        Request::DeviceNotification(DeviceNotificationRequest::new())
    );
    assert_eq!(
        frame(8, 5, &payload).request(),
        Err(ProtoError::WrongDirection)
    );
}

#[test]
fn frame_requests_without_fields() {
    assert_eq!(
        frame(1, 4, &[]).request().unwrap(),
        Request::ReadDeviceInfo(ReadDeviceInfoRequest::new())
    );
    assert_eq!(
        frame(4, 4, &[1, 2, 3]).request().unwrap(),
        Request::ReadState(ReadStateRequest::new())
    );
}

#[test]
fn frame_with_a_payload_that_is_cut_short_is_refused() {
    assert_eq!(
        frame(2, 4, &[3, 1, 0, 0]).request(),
        Err(ProtoError::UnexpectedEof)
    );
    assert_eq!(
        frame(4, 5, &[0, 0, 0, 0, 5, 0]).response(),
        Err(ProtoError::UnexpectedEof)
    );
}

#[test]
fn update_command_replaces_payload_command_and_flags() {
    let mut header = frame(9, 4, &[0; 16]);
    let response = ReadWriteResponse::new(AdsError::ErrNoError, vec![123, 0, 0, 0]);
    header
        .update_command(Response::ReadWrite(response.clone()), StateFlags::resp_default())
        .unwrap();
    assert_eq!(header.command_id(), CommandID::ReadWrite);
    assert_eq!(header.state_flags().value(), 5);
    assert_eq!(header.data_len(), 12);
    assert_eq!(header.raw_response_data().len(), 12);
    assert_eq!(
        header.raw_response_data(),
        [0, 0, 0, 0, 4, 0, 0, 0, 123, 0, 0, 0]
    );
    assert_eq!(header.response().unwrap(), Response::ReadWrite(response));
    assert_eq!(header.invoke_id(), 111);

    header
        .update_command(
            Request::ReadState(ReadStateRequest::new()),
            StateFlags::new(false, true, NetProto::Udp),
        )
        .unwrap();
    assert_eq!(header.command_id(), CommandID::ReadState);
    assert_eq!(header.state_flags().value(), 68);
    assert_eq!(header.data_len(), 0);
    assert!(header.raw_response_data().is_empty());
    assert_eq!(header.header_len(), 32);
}

#[test]
fn update_data_keeps_the_length_with_the_payload() {
    let mut header = frame(2, 4, &[0; 12]);
    header.update_data(vec![1, 2, 3, 4, 5]);
    assert_eq!(header.data_len(), 5);
    assert_eq!(header.header_len(), 37);
    assert_eq!(header.raw_response_data(), [1, 2, 3, 4, 5]);
    assert_eq!(header.command_id(), CommandID::Read);
    let mut bytes: Vec<u8> = Vec::new();
    header.write_to(&mut bytes).unwrap();
    assert_eq!(&bytes[20..24], [5, 0, 0, 0]);
    header.update_response_data(vec![]);
    assert_eq!(header.response_data_len(), 0);
}

#[test]
fn swap_address_twice_gives_the_frame_back() {
    let mut header = frame(2, 4, &[0; 12]);
    let target = *header.ams_address_targed();
    let source = *header.ams_address_source();
    assert_ne!(target, source);
    let mut before: Vec<u8> = Vec::new();
    header.write_to(&mut before).unwrap();
    header.swap_address();
    assert_eq!(*header.ams_address_targed(), source);
    assert_eq!(*header.ams_address_source(), target);
    let mut swapped: Vec<u8> = Vec::new();
    header.write_to(&mut swapped).unwrap();
    assert_eq!(&swapped[..8], &before[8..16]);
    assert_eq!(&swapped[8..16], &before[..8]);
    assert_eq!(&swapped[16..], &before[16..]);
    header.swap_address();
    let mut after: Vec<u8> = Vec::new();
    header.write_to(&mut after).unwrap();
    assert_eq!(after, before);
}

#[test]
fn response_result_needs_four_bytes() {
    assert_eq!(frame(3, 5, &[]).response_result(), None);
    assert_eq!(frame(3, 5, &[1, 0, 0]).response_result(), None);
    assert_eq!(
        frame(3, 5, &[1, 0, 0, 0]).response_result(),
        Some(AdsError::ErrInternal)
    );
    assert_eq!(
        frame(3, 5, &[3, 1, 0, 0, 9]).response_result(),
        Some(AdsError::ErrUnknowAdsError { error_code: 259 })
    );
}

#[test]
fn envelope_keeps_reserved_bytes_and_length_as_they_came() {
    let mut bytes: Vec<u8> = vec![7, 8, 99, 0, 0, 0];
    let mut frame_bytes: Vec<u8> = Vec::new();
    frame(2, 4, &[0; 12]).write_to(&mut frame_bytes).unwrap();
    bytes.extend(&frame_bytes);
    bytes.extend([1, 2]);
    let mut reader: &[u8] = bytes.as_slice();
    let envelope = AmsTcpHeader::read_from(&mut reader).unwrap();
    assert_eq!(reader, [1, 2]);
    assert_eq!(envelope.reserved, [7, 8]);
    assert_eq!(envelope.length, 99);
    assert_eq!(envelope.ams_header.data_len(), 12);
    let mut written: Vec<u8> = Vec::new();
    envelope.write_to(&mut written).unwrap();
    assert_eq!(written, &bytes[..50]);
}

#[test]
fn wrong_variant_is_refused() {
    let request = Request::Read(ReadRequest::new(1, 2, 3));
    assert_eq!(
        WriteRequest::try_from(request.clone()),
        Err(TryIntoError::TryIntoRequestFailed)
    );
    assert_eq!(
        InvalidRequest::try_from(request.clone()),
        Err(TryIntoError::TryIntoRequestFailed)
    );
    assert_eq!(
        ReadRequest::try_from(request),
        Ok(ReadRequest::new(1, 2, 3))
    );
    assert_eq!(
        ReadWriteRequest::try_from(Request::Invalid(InvalidRequest::new())),
        Err(TryIntoError::TryIntoRequestFailed)
    );
    assert_eq!(
        WriteControlRequest::try_from(Request::ReadState(ReadStateRequest::new())),
        Err(TryIntoError::TryIntoRequestFailed)
    );
    let response = Response::Write(WriteResponse::new(AdsError::ErrNoError));
    assert_eq!(
        ReadResponse::try_from(response.clone()),
        Err(TryIntoError::TryIntoResponseFailed)
    );
    assert_eq!(
        AdsNotificationStream::try_from(response.clone()),
        Err(TryIntoError::TryIntoResponseFailed)
    );
    assert_eq!(
        InvalidResponse::try_from(response.clone()),
        Err(TryIntoError::TryIntoResponseFailed)
    );
    assert_eq!(
        WriteResponse::try_from(response),
        Ok(WriteResponse::new(AdsError::ErrNoError))
    );
    assert_eq!(
        InvalidResponse::try_from(Response::Invalid(InvalidResponse::default())),
        Ok(InvalidResponse::new())
    );
}

#[test]
fn payloads_without_fields_are_empty() {
    for request in [
        Request::Invalid(InvalidRequest::default()),
        Request::ReadDeviceInfo(ReadDeviceInfoRequest::default()),
        Request::ReadState(ReadStateRequest::default()),
        Request::DeviceNotification(DeviceNotificationRequest::default()),
    ] {
        let mut bytes: Vec<u8> = vec![1];
        request.write_to(&mut bytes).unwrap();
        assert_eq!(bytes, [1]);
    }
    let mut bytes: Vec<u8> = vec![1];
    Response::Invalid(InvalidResponse::new())
        .write_to(&mut bytes)
        .unwrap();
    assert_eq!(bytes, [1]);
}

#[test]
fn writing_appends() {
    let mut bytes: Vec<u8> = vec![0xee];
    ReadRequest::new(1, 2, 3).write_to(&mut bytes).unwrap();
    DeleteDeviceNotificationRequest::new(0x0a0b0c0d)
        .write_to(&mut bytes)
        .unwrap();
    assert_eq!(
        bytes,
        [0xee, 1, 0, 0, 0, 2, 0, 0, 0, 3, 0, 0, 0, 0x0d, 0x0c, 0x0b, 0x0a]
    );
}

#[test]
fn little_endian_integers() {
    let mut bytes: Vec<u8> = Vec::new();
    AdsStampHeader::new(0x0102030405060708, 0x0a0b0c0d, vec![])
        .write_to(&mut bytes)
        .unwrap();
    assert_eq!(bytes, [8, 7, 6, 5, 4, 3, 2, 1, 0x0d, 0x0c, 0x0b, 0x0a]);
    let stamp = AdsStampHeader::read_from(&mut [8, 7, 6, 5, 4, 3, 2, 1, 0, 0, 0, 0].as_slice())
        .unwrap();
    assert_eq!(stamp.time_stamp, 0x0102030405060708);
    let state = ReadStateResponse::read_from(&mut [0, 0, 0, 0, 5, 0, 0x34, 0x12].as_slice())
        .unwrap();
    assert_eq!(state.device_state, 0x1234);
    assert_eq!(state.ads_state, AdsState::AdsStateRun);
}

#[test]
fn device_name_stops_at_the_zeros_at_its_end() {
    let mut name = [0u8; 16];
    name[..11].copy_from_slice(b"Hello World");
    let response = ReadDeviceInfoResponse::new(AdsError::ErrNoError, 1, 2, 3, name);
    assert_eq!(response.get_device_name().unwrap(), "Hello World");

    let full = ReadDeviceInfoResponse::new(AdsError::ErrNoError, 1, 2, 3, *b"0123456789abcdef");
    assert_eq!(full.get_device_name().unwrap(), "0123456789abcdef");

    let empty = ReadDeviceInfoResponse::new(AdsError::ErrNoError, 1, 2, 3, [0; 16]);
    assert_eq!(empty.get_device_name().unwrap(), "");

    // A zero within the name belongs to the name.
    let mut inner = [0u8; 16];
    inner[..3].copy_from_slice(b"a\0b");
    let response = ReadDeviceInfoResponse::new(AdsError::ErrNoError, 1, 2, 3, inner);
    assert_eq!(response.get_device_name().unwrap(), "a\0b");
}

#[test]
fn device_name_that_is_no_text_is_refused() {
    let mut name = [0u8; 16];
    name[0] = 0xff;
    name[1] = 0xfe;
    let response = ReadDeviceInfoResponse::new(AdsError::ErrNoError, 1, 2, 3, name);
    assert!(response.get_device_name().is_err());
    // Half of a two-byte character.
    let mut name = [0u8; 16];
    name[0] = 0xc3;
    let response = ReadDeviceInfoResponse::new(AdsError::ErrNoError, 1, 2, 3, name);
    assert!(response.get_device_name().is_err());
    name[1] = 0xa4;
    let response = ReadDeviceInfoResponse::new(AdsError::ErrNoError, 1, 2, 3, name);
    assert_eq!(response.get_device_name().unwrap(), "ä");
}

#[test]
fn device_name_buffer() {
    assert_eq!(ReadDeviceInfoResponse::create_device_name_buf(""), [0; 16]);
    assert_eq!(
        ReadDeviceInfoResponse::create_device_name_buf("Device"),
        [68, 101, 118, 105, 99, 101, 0, 0, 0, 0, 0, 0, 0, 0, 0, 0]
    );
    assert_eq!(
        &ReadDeviceInfoResponse::create_device_name_buf("0123456789abcdefXYZ"),
        b"0123456789abcdef"
    );
    assert_eq!(
        &ReadDeviceInfoResponse::create_device_name_buf("0123456789abcdef"),
        b"0123456789abcdef"
    );
}

#[test]
fn state_flags_bits() {
    let flags = StateFlags::new(true, false, NetProto::Udp);
    assert_eq!(flags.value(), 65);
    assert!(flags.is_response());
    assert!(!flags.is_ads_command());
    assert!(!flags.is_tcp());
    let flags = StateFlags::req_default();
    assert!(!flags.is_response());
    assert!(flags.is_ads_command());
    assert!(flags.is_tcp());
    let flags = StateFlags::resp_default();
    assert!(flags.is_response());
    assert!(flags.is_ads_command());
    assert!(flags.is_tcp());
    assert_eq!(StateFlags::from_value(0xffff).value(), 0xffff);
}

#[test]
fn address_texts() {
    assert_eq!(
        AmsAddress::from_str("192.168.1.2.1.1:851").unwrap(),
        AmsAddress::new(AmsNetId::new(192, 168, 1, 2, 1, 1), 851)
    );
    assert_eq!(
        AmsAddress::from_str("10.0.0.7:0").unwrap(),
        AmsAddress::new(AmsNetId::new(10, 0, 0, 7, 1, 1), 0)
    );
    assert_eq!(
        AmsAddress::from_str("255.255.255.255.255.255:65535").unwrap(),
        AmsAddress::new(AmsNetId::new(255, 255, 255, 255, 255, 255), 65535)
    );
    assert_eq!(
        AmsNetId::from_str("+1.02.003.4").unwrap(),
        AmsNetId::new(1, 2, 3, 4, 1, 1)
    );
    assert_eq!(
        AmsNetId::from_text("1.2.3.4.5.6").unwrap().net_id(),
        [1, 2, 3, 4, 5, 6]
    );
    assert_eq!(
        AmsAddress::from_text("1.2.3.4.5.6:7").unwrap(),
        AmsAddress::new(AmsNetId::new(1, 2, 3, 4, 5, 6), 7)
    );
}

#[test]
fn address_texts_with_a_wrong_number_of_parts() {
    for (text, length) in [
        ("", 1),
        ("1", 1),
        ("1.2.3", 3),
        ("1.2.3.4.5", 5),
        ("1.2.3.4.5.6.7", 7),
        ("....", 5),
        ("1.2.3.4.5.6.", 7),
    ] {
        assert_eq!(
            AmsNetId::from_str(text),
            Err(AmsAddressError::InvalidAddressLength { length }),
            "{:?}",
            text
        );
    }
    for (text, length) in [
        ("", 1),
        ("1.2.3.4", 1),
        ("1.2.3.4:5:6", 3),
        ("::", 3),
    ] {
        assert_eq!(
            AmsAddress::from_str(text),
            Err(AmsAddressError::SplitError { length }),
            "{:?}",
            text
        );
    }
    assert_eq!(
        AmsAddress::from_str("1.2.3:4"),
        Err(AmsAddressError::InvalidAddressLength { length: 3 })
    );
    assert_eq!(
        AmsAddress::from_str(":4"),
        Err(AmsAddressError::InvalidAddressLength { length: 1 })
    );
}

#[test]
fn address_texts_with_a_part_that_is_no_number() {
    for text in [
        "1.2.3.x",
        "1.2.3.256",
        "1.2.3.-4",
        "1.2..4",
        "1.2.3.4.5. 6",
        "...",
        "1.2.3.+",
        "1.2.3.4_",
    ] {
        assert!(
            matches!(
                AmsNetId::from_str(text),
                Err(AmsAddressError::ParseError { .. })
            ),
            "{:?}",
            text
        );
    }
    for text in [
        "1.2.3.4:",
        "1.2.3.4:65536",
        "1.2.3.4:a",
        "1.2.3.4: 5",
        "1.2.3.4.5.300:5",
    ] {
        assert!(
            matches!(
                AmsAddress::from_str(text),
                Err(AmsAddressError::ParseError { .. })
            ),
            "{:?}",
            text
        );
    }
}

#[test]
fn update_from_socket_addr_takes_a_text_or_leaves_the_address() {
    let mut address = AmsAddress::new(AmsNetId::new(1, 1, 1, 1, 1, 1), 1);
    address.update_from_socket_addr("5.6.7.8:9").unwrap();
    assert_eq!(address, AmsAddress::new(AmsNetId::new(5, 6, 7, 8, 1, 1), 9));
    assert_eq!(
        address.update_from_socket_addr("5.6.7:9"),
        Err(AmsAddressError::InvalidAddressLength { length: 3 })
    );
    assert!(address.update_from_socket_addr("5.6.7.8:x").is_err());
    assert_eq!(address, AmsAddress::new(AmsNetId::new(5, 6, 7, 8, 1, 1), 9));
}

#[test]
fn system_services() {
    assert_eq!(get_symhandle_by_name().index_group, 0xf003);
    assert_eq!(get_symhandle_by_name().index_offset_start, 0);
    assert_eq!(get_symhandle_by_name().index_offset_end, 0);
    assert_eq!(read_write_symval_by_handle().index_group, 0xf005);
    assert_eq!(read_write_symval_by_handle().index_offset_end, u32::MAX);
    assert_eq!(adsigrp_sumup_write().index_group, 0xf081);
    assert_eq!(adsigrp_sumup_readwrite().index_group, 0xf082);
    assert_eq!(adsigrp_sumup_readex().index_group, 0xf083);
    assert_eq!(adsigrp_sumup_readex().index_offset_start, 0);
    assert_eq!(adsigrp_sumup_readex().index_offset_end, u32::MAX);
}

#[test]
fn constructors_set_lengths_and_commands() {
    let write = WriteRequest::new(1, 2, vec![1, 2, 3]);
    assert_eq!(write.length, 3);
    assert_eq!(write.command_id, CommandID::Write);
    let read_write = ReadWriteRequest::new(1, 2, 9, vec![1, 2]);
    assert_eq!(read_write.write_length, 2);
    assert_eq!(read_write.read_length, 9);
    assert_eq!(read_write.command_id, CommandID::ReadWrite);
    let control = WriteControlRequest::new(AdsState::AdsStateRun, 1, 77, vec![1]);
    assert_eq!(control.length, 77);
    assert_eq!(control.command_id, CommandID::WriteControl);
    let add = AddDeviceNotificationRequest::new(1, 2, 3, AdsTransMode::OnChange, 4, 5);
    assert_eq!(add.reserved, [0; 16]);
    assert_eq!(add.command_id, CommandID::AddDeviceNotification);
    let read = ReadResponse::new(AdsError::ErrNoError, vec![1, 2, 3, 4]);
    assert_eq!(read.length, 4);
    assert_eq!(read.command_id, CommandID::Read);
    let read_write = ReadWriteResponse::new(AdsError::ErrNoError, vec![]);
    assert_eq!(read_write.length, 0);
    assert_eq!(read_write.command_id, CommandID::ReadWrite);
    assert_eq!(InvalidRequest::new().command_id, CommandID::Invalid);
    assert_eq!(InvalidResponse::new().command_id, CommandID::Invalid);
    assert_eq!(
        AddDeviceNotificationResponse::new(AdsError::ErrNoError, 1).command_id,
        CommandID::AddDeviceNotification
    );
    assert_eq!(
        WriteControlResponse::new(AdsError::ErrNoError).command_id,
        CommandID::WriteControl
    );
    assert_eq!(
        DeleteDeviceNotificationResponse::new(AdsError::ErrNoError).command_id,
        CommandID::DeleteDeviceNotification
    );
    assert_eq!(
        SumupReadWriteRequest::new(vec![]).command_id,
        CommandID::ReadWrite
    );
    assert_eq!(SumupReadRequest::new(vec![]).command_id, CommandID::Read);
    assert_eq!(SumupWriteRequest::new(vec![]).command_id, CommandID::Write);
}

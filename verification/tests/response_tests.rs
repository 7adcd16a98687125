use ads_proto::error::AdsError;
use ads_proto::proto::ads_state::AdsState;
use ads_proto::proto::command_id::CommandID;
use ads_proto::proto::proto_traits::{Command, ReadFrom, WriteTo};
use ads_proto::proto::response::{
    AddDeviceNotificationResponse, AdsNotificationSample, AdsNotificationStream, AdsStampHeader,
    DeleteDeviceNotificationResponse, ReadDeviceInfoResponse, ReadResponse, ReadStateResponse,
    ReadWriteResponse, Response, WriteControlResponse, WriteResponse,
};
use std::convert::TryInto;

#[test]
fn response_from_read_device_info() {
    let read_device_info_response =
        ReadDeviceInfoResponse::new(AdsError::ErrNoError, 1, 2, 33, [1; 16]);

    assert_eq!(
        Response::ReadDeviceInfo(read_device_info_response.clone()),
        Response::from(read_device_info_response)
    );
}

#[test]
fn response_try_into_read_device_info() {
    let read_device_info_response =
        ReadDeviceInfoResponse::new(AdsError::ErrNoError, 1, 2, 33, [1; 16]);

    let response = Response::ReadDeviceInfo(read_device_info_response.clone());
    assert_eq!(CommandID::ReadDeviceInfo, response.command_id());

    let test = response.try_into().unwrap();
    assert_eq!(read_device_info_response, test);
}

#[test]
fn response_from_read() {
    let read_response = ReadResponse::new(AdsError::ErrNoError, vec![66]);

    assert_eq!(
        Response::Read(read_response.clone()),
        Response::from(read_response)
    );
}

#[test]
fn response_try_into_read() {
    let read_response = ReadResponse::new(AdsError::ErrNoError, vec![66]);

    let response = Response::Read(read_response.clone());
    assert_eq!(CommandID::Read, response.command_id());

    let test = response.try_into().unwrap();
    assert_eq!(read_response, test);
}

#[test]
fn response_from_write() {
    let write_response = WriteResponse::new(AdsError::ErrNoError);

    assert_eq!(
        Response::Write(write_response.clone()),
        Response::from(write_response)
    );
}

#[test]
fn response_try_into_write() {
    let write_response = WriteResponse::new(AdsError::ErrNoError);

    let response = Response::Write(write_response.clone());
    assert_eq!(CommandID::Write, response.command_id());

    let test = response.try_into().unwrap();
    assert_eq!(write_response, test);
}

#[test]
fn response_from_read_state() {
    let read_state_response =
        ReadStateResponse::new(AdsError::ErrNoError, AdsState::AdsStateConfig, 123);

    assert_eq!(
        Response::ReadState(read_state_response.clone()),
        Response::from(read_state_response)
    );
}

#[test]
fn response_try_into_read_state() {
    let read_state_response =
        ReadStateResponse::new(AdsError::ErrNoError, AdsState::AdsStateConfig, 123);

    let response = Response::ReadState(read_state_response.clone());
    assert_eq!(CommandID::ReadState, response.command_id());

    let test = response.try_into().unwrap();
    assert_eq!(read_state_response, test);
}

#[test]
fn response_from_write_control() {
    let write_control_response = WriteControlResponse::new(AdsError::ErrNoError);

    assert_eq!(
        Response::WriteControl(write_control_response.clone()),
        Response::from(write_control_response)
    );
}

#[test]
fn response_try_into_write_control() {
    let write_control_response = WriteControlResponse::new(AdsError::ErrNoError);

    let response = Response::WriteControl(write_control_response.clone());
    assert_eq!(CommandID::WriteControl, response.command_id());

    let test = response.try_into().unwrap();
    assert_eq!(write_control_response, test);
}

#[test]
fn response_from_add_device_notification() {
    let add_device_notification_response =
        AddDeviceNotificationResponse::new(AdsError::ErrNoError, 1);

    assert_eq!(
        CommandID::AddDeviceNotification,
        Response::AddDeviceNotification(add_device_notification_response.clone()).command_id()
    );

    assert_eq!(
        Response::AddDeviceNotification(add_device_notification_response.clone()),
        Response::from(add_device_notification_response)
    );
}

#[test]
fn response_try_into_add_device_notification() {
    let add_device_notification_response =
        AddDeviceNotificationResponse::new(AdsError::ErrNoError, 1);

    let response = Response::AddDeviceNotification(add_device_notification_response.clone());
    assert_eq!(CommandID::AddDeviceNotification, response.command_id());

    let test = response.try_into().unwrap();
    assert_eq!(add_device_notification_response, test);
}

#[test]
fn response_from_delete_device_notification() {
    let delete_device_notification_response =
        DeleteDeviceNotificationResponse::new(AdsError::ErrNoError);

    assert_eq!(
        Response::DeleteDeviceNotification(delete_device_notification_response.clone()),
        Response::from(delete_device_notification_response)
    );
}

#[test]
fn response_try_into_delete_device_notification() {
    let delete_device_notification_response =
        DeleteDeviceNotificationResponse::new(AdsError::ErrNoError);

    let response =
        Response::DeleteDeviceNotification(delete_device_notification_response.clone());
    assert_eq!(CommandID::DeleteDeviceNotification, response.command_id());

    let test = response.try_into().unwrap();
    assert_eq!(delete_device_notification_response, test);
}

#[test]
fn response_from_device_notification() {
    let notification_sample1: Vec<u8> = vec![4, 0, 0, 0, 2, 0, 0, 0, 6, 0];
    let notification_sample2: Vec<u8> = vec![4, 0, 0, 0, 4, 0, 0, 0, 9, 0, 0, 0];

    let mut stamp_header: Vec<u8> = vec![255, 0, 0, 0, 0, 0, 0, 0, 2, 0, 0, 0];
    stamp_header.extend(notification_sample1);
    stamp_header.extend(notification_sample2);

    let mut notification_stream: Vec<u8> = vec![72, 0, 0, 0, 2, 0, 0, 0];
    notification_stream.extend(stamp_header.clone());
    notification_stream.extend(stamp_header);

    let device_notification_response =
        AdsNotificationStream::read_from(&mut notification_stream.as_slice()).unwrap();

    assert_eq!(
        Response::DeviceNotification(device_notification_response.clone()),
        Response::from(device_notification_response)
    );
}

#[test]
fn response_try_into_device_notification() {
    let notification_sample1: Vec<u8> = vec![4, 0, 0, 0, 2, 0, 0, 0, 6, 0];
    let notification_sample2: Vec<u8> = vec![4, 0, 0, 0, 4, 0, 0, 0, 9, 0, 0, 0];

    let mut stamp_header: Vec<u8> = vec![255, 0, 0, 0, 0, 0, 0, 0, 2, 0, 0, 0];
    stamp_header.extend(notification_sample1);
    stamp_header.extend(notification_sample2);

    let mut notification_stream: Vec<u8> = vec![72, 0, 0, 0, 2, 0, 0, 0];
    notification_stream.extend(stamp_header.clone());
    notification_stream.extend(stamp_header);

    let device_notification_response =
        AdsNotificationStream::read_from(&mut notification_stream.as_slice()).unwrap();

    let response = Response::DeviceNotification(device_notification_response.clone());
    assert_eq!(CommandID::DeviceNotification, response.command_id());

    let test = response.try_into().unwrap();
    assert_eq!(device_notification_response, test);
}

#[test]
fn response_from_read_write() {
    let read_write_response = ReadWriteResponse::new(AdsError::ErrNoError, vec![66]);

    assert_eq!(
        CommandID::ReadWrite,
        Response::ReadWrite(read_write_response.clone()).command_id()
    );

    assert_eq!(
        Response::ReadWrite(read_write_response.clone()),
        Response::from(read_write_response)
    );
}

#[test]
fn response_try_into_read_write() {
    let read_write_response = ReadWriteResponse::new(AdsError::ErrNoError, vec![66]);

    let response = Response::ReadWrite(read_write_response.clone());
    assert_eq!(CommandID::ReadWrite, response.command_id());

    let test = response.try_into().unwrap();
    assert_eq!(read_write_response, test);
}

#[test]
fn read_device_info_response_write_to_test() {
    let mut buffer: Vec<u8> = Vec::new();
    let mut device_name: [u8; 16] = [0; 16];

    for (n, b) in "Device".as_bytes().iter().enumerate() {
        device_name[n] = *b;
    }

    let device_info_response =
        ReadDeviceInfoResponse::new(AdsError::ErrAccessDenied, 1, 2, 10, device_name);

    let response_data: Vec<u8> = vec![
        30, 0, 0, 0, 1, 2, 10, 0, 68, 101, 118, 105, 99, 101, 0, 0, 0, 0, 0, 0, 0, 0, 0, 0,
    ];

    device_info_response.write_to(&mut buffer).unwrap();

    assert_eq!(buffer, response_data);
}

#[test]
fn read_device_info_response_test() {
    let response_data: Vec<u8> = vec![
        30, 0, 0, 0, 2, 14, 1, 1, 72, 101, 108, 108, 111, 32, 87, 111, 114, 108, 100, 0, 0, 0,
        0, 0,
    ];

    let read_device_info_response =
        ReadDeviceInfoResponse::read_from(&mut response_data.as_slice()).unwrap();

    assert_eq!(read_device_info_response.result, AdsError::ErrAccessDenied);
    assert_eq!(read_device_info_response.major_version, 2);
    assert_eq!(read_device_info_response.minor_version, 14);
    assert_eq!(read_device_info_response.version_build, 257);

    let expected_device_name: [u8; 16] = [
        72, 101, 108, 108, 111, 32, 87, 111, 114, 108, 100, 0, 0, 0, 0, 0,
    ]; //Hello World
    assert_eq!(read_device_info_response.device_name, expected_device_name);
    let expected_device_name = "Hello World".to_string();
    assert_eq!(
        read_device_info_response.get_device_name().unwrap(),
        expected_device_name,
        "Parsing device name failed"
    );
}

#[test]
fn read_device_info_device_name_buf_test() {
    let device_name: [u8; 16] = ReadDeviceInfoResponse::create_device_name_buf("Device");

    let device_info_response =
        ReadDeviceInfoResponse::new(AdsError::ErrAccessDenied, 1, 2, 10, device_name);

    assert_eq!(device_info_response.get_device_name().unwrap(), "Device");
}

#[test]
fn read_device_info_device_name_buf_test2() {
    let device_name: [u8; 16] =
        ReadDeviceInfoResponse::create_device_name_buf("OverflowtestOverflowtest");

    let device_info_response =
        ReadDeviceInfoResponse::new(AdsError::ErrAccessDenied, 1, 2, 10, device_name);

    assert_eq!(
        device_info_response.get_device_name().unwrap(),
        "OverflowtestOver"
    );
}

#[test]
fn read_response_test() {
    let response_data: Vec<u8> = vec![4, 0, 0, 0, 2, 0, 0, 0, 255, 2];

    let read_response = ReadResponse::read_from(&mut response_data.as_slice()).unwrap();

    assert_eq!(read_response.result, AdsError::ErrInsertMailBox);
    assert_eq!(read_response.length, 2);
    assert_eq!(read_response.data, vec![255, 2]);
}

#[test]
fn read_response_write_to_test() {
    let mut buffer: Vec<u8> = Vec::new();
    let data: u32 = 90000;
    let read_response =
        ReadResponse::new(AdsError::ErrAccessDenied, data.to_le_bytes().to_vec());
    read_response.write_to(&mut buffer).unwrap();
    assert_eq!(buffer, [30, 0, 0, 0, 4, 0, 0, 0, 144, 95, 1, 0]);
}

#[test]
fn write_response_test() {
    let response_data: Vec<u8> = vec![4, 0, 0, 0];

    let write_response = WriteResponse::read_from(&mut response_data.as_slice()).unwrap();

    assert_eq!(write_response.result, AdsError::from(4));
}

#[test]
fn write_response_write_to_test() {
    let mut buffer: Vec<u8> = Vec::new();
    let write_response = WriteResponse::new(AdsError::ErrAccessDenied);
    write_response.write_to(&mut buffer).unwrap();
    assert_eq!(buffer, [30, 0, 0, 0]);
}

#[test]
fn read_state_response_test() {
    let response_data: Vec<u8> = vec![4, 0, 0, 0, 9, 0, 1, 1];

    let read_state_response =
        ReadStateResponse::read_from(&mut response_data.as_slice()).unwrap();

    assert_eq!(read_state_response.result, AdsError::ErrInsertMailBox);
    assert_eq!(
        read_state_response.ads_state,
        AdsState::AdsStatePowerFailure
    );
    assert_eq!(read_state_response.device_state, 257);
}

#[test]
fn read_state_response_write_to_test() {
    let mut buffer: Vec<u8> = Vec::new();
    let read_state_response =
        ReadStateResponse::new(AdsError::ErrAccessDenied, AdsState::AdsStateConfig, 4);
    read_state_response.write_to(&mut buffer).unwrap();
    assert_eq!(buffer, [30, 0, 0, 0, 15, 0, 4, 0]);
}

#[test]
fn write_control_response_test() {
    let response_data: Vec<u8> = vec![30, 0, 0, 0];

    let write_control_response =
        WriteControlResponse::read_from(&mut response_data.as_slice()).unwrap();

    assert_eq!(write_control_response.result, AdsError::ErrAccessDenied);
}

#[test]
fn write_control_response_write_to_test() {
    let mut buffer: Vec<u8> = Vec::new();
    let write_control_response = WriteControlResponse::new(AdsError::ErrAccessDenied);
    write_control_response.write_to(&mut buffer).unwrap();
    assert_eq!(buffer, [30, 0, 0, 0]);
}

#[test]
fn add_device_notification_response_test() {
    let response_data: Vec<u8> = vec![4, 0, 0, 0, 10, 0, 0, 0];

    let add_device_notification_response =
        AddDeviceNotificationResponse::read_from(&mut response_data.as_slice()).unwrap();

    assert_eq!(
        add_device_notification_response.result,
        AdsError::ErrInsertMailBox
    );
    assert_eq!(add_device_notification_response.notification_handle, 10);
}

#[test]
fn add_device_notification_response_write_to_test() {
    let mut buffer: Vec<u8> = Vec::new();
    let add_device_notification_response =
        AddDeviceNotificationResponse::new(AdsError::ErrInsertMailBox, 10);
    add_device_notification_response
        .write_to(&mut buffer)
        .unwrap();
    assert_eq!(buffer, [4, 0, 0, 0, 10, 0, 0, 0]);
}

#[test]
fn delete_device_notification_response_test() {
    let response_data: Vec<u8> = vec![4, 0, 0, 0];

    let delete_device_notification_response =
        DeleteDeviceNotificationResponse::read_from(&mut response_data.as_slice()).unwrap();

    assert_eq!(
        delete_device_notification_response.result,
        AdsError::ErrInsertMailBox
    );
}

#[test]
fn delete_device_notification_response_write_to_test() {
    let mut buffer: Vec<u8> = Vec::new();
    let delete_device_notification_response =
        DeleteDeviceNotificationResponse::new(AdsError::ErrAccessDenied);
    delete_device_notification_response
        .write_to(&mut buffer)
        .unwrap();
    assert_eq!(buffer, [30, 0, 0, 0]);
}

#[test]
fn ads_notification_stream_test() {
    let notification_sample1: Vec<u8> = vec![4, 0, 0, 0, 2, 0, 0, 0, 6, 0];
    let notification_sample2: Vec<u8> = vec![4, 0, 0, 0, 4, 0, 0, 0, 9, 0, 0, 0];

    let mut stamp_header: Vec<u8> = vec![255, 0, 0, 0, 0, 0, 0, 0, 2, 0, 0, 0];
    stamp_header.extend(notification_sample1);
    stamp_header.extend(notification_sample2);

    let mut notification_stream: Vec<u8> = vec![72, 0, 0, 0, 2, 0, 0, 0];
    notification_stream.extend(stamp_header.clone());
    notification_stream.extend(stamp_header);

    let notification_data =
        AdsNotificationStream::read_from(&mut notification_stream.as_slice()).unwrap();

    assert_eq!(notification_data.length, 72, "Wrong data stream length");
    assert_eq!(notification_data.stamps, 2, "Wrong data stream stamp count");
    assert_eq!(
        notification_data.ads_stamp_headers.len(),
        2,
        "Wrong stamp header vec length"
    );
    assert_eq!(
        notification_data.ads_stamp_headers[0]
            .notification_samples
            .len(),
        2,
        "Wrong notification sample vec len [0]"
    );
    assert_eq!(
        notification_data.ads_stamp_headers[0].samples, 2,
        "Wrong notification samples count [0]"
    );
    assert_eq!(
        notification_data.ads_stamp_headers[0].time_stamp, 255,
        "Wrong time stamp [0]"
    );
    assert_eq!(
        notification_data.ads_stamp_headers[0].notification_samples[0].notification_handle, 4,
        "Wrong notification handle [0][0]"
    );
    assert_eq!(
        notification_data.ads_stamp_headers[0].notification_samples[0].sample_size, 2,
        "Wrong sample size [0][0]"
    );
    assert_eq!(
        notification_data.ads_stamp_headers[0].notification_samples[0].data,
        vec![6, 0],
        "Wrong data [0][0]"
    );
    assert_eq!(
        notification_data.ads_stamp_headers[0].notification_samples[1].notification_handle, 4,
        "Wrong notification handle [0][1]"
    );
    assert_eq!(
        notification_data.ads_stamp_headers[0].notification_samples[1].sample_size, 4,
        "Wrong sample size [0][1]"
    );
    assert_eq!(
        notification_data.ads_stamp_headers[0].notification_samples[1].data,
        vec![9, 0, 0, 0],
        "Wrong data [0][1]"
    );

    assert_eq!(
        notification_data.ads_stamp_headers[1]
            .notification_samples
            .len(),
        2,
        "Wrong notification sample vec len [1]"
    );
    assert_eq!(
        notification_data.ads_stamp_headers[1].samples, 2,
        "Wrong notification samples count [1]"
    );
    assert_eq!(
        notification_data.ads_stamp_headers[1].time_stamp, 255,
        "Wrong time stamp [1]"
    );
    assert_eq!(
        notification_data.ads_stamp_headers[1].notification_samples[0].notification_handle, 4,
        "Wrong notification handle [1][0]"
    );
    assert_eq!(
        notification_data.ads_stamp_headers[1].notification_samples[0].sample_size, 2,
        "Wrong sample size [1][0]"
    );
    assert_eq!(
        notification_data.ads_stamp_headers[1].notification_samples[0].data,
        vec![6, 0],
        "Wrong data [1][0]"
    );
    assert_eq!(
        notification_data.ads_stamp_headers[1].notification_samples[1].notification_handle, 4,
        "Wrong notification handle [1][1]"
    );
    assert_eq!(
        notification_data.ads_stamp_headers[1].notification_samples[1].sample_size, 4,
        "Wrong sample size [1][1]"
    );
    assert_eq!(
        notification_data.ads_stamp_headers[1].notification_samples[1].data,
        vec![9, 0, 0, 0],
        "Wrong data [1][1]"
    );
}

#[test]
fn ads_notification_stream_write_to_test() {
    //4+4+4=12byte
    let sample_data1: u32 = 1000;
    let notification_sample1 = AdsNotificationSample {
        notification_handle: 10,
        sample_size: 4,
        data: sample_data1.to_le_bytes().to_vec(),
    };

    //4+4+2=10byte
    let sample_data2: u16 = 2000;
    let notification_sample2 = AdsNotificationSample {
        notification_handle: 20,
        sample_size: 2,
        data: sample_data2.to_le_bytes().to_vec(),
    };

    //4+4+8=16byte
    let sample_data3: u64 = 3000;
    let notification_sample3 = AdsNotificationSample {
        notification_handle: 30,
        sample_size: 8,
        data: sample_data3.to_le_bytes().to_vec(),
    };

    //8+4+12+10=34byte
    let mut notification_samples = Vec::new();
    notification_samples.push(notification_sample1);
    notification_samples.push(notification_sample2);
    let stamp_header1 = AdsStampHeader::new(1234567890, 2, notification_samples);

    //8+4+16=28byte
    let mut notification_samples = Vec::new();
    notification_samples.push(notification_sample3);
    let stamp_header2 = AdsStampHeader::new(1234567890, 1, notification_samples);

    let mut stamp_headers = Vec::new();
    stamp_headers.push(stamp_header1);
    stamp_headers.push(stamp_header2);

    let mut len: usize = 0;
    for header in &stamp_headers {
        len += header.stamp_len();
    }
    len += 4; //4 byte for the u32 stamps var after length

    let expected_len: usize = 66;
    assert_eq!(&len, &expected_len, "Wrong number of bytes");

    //4+4+34+28=70byte
    let ads_notification_stream =
        AdsNotificationStream::new(len as u32, stamp_headers.len() as u32, stamp_headers);

    let expected_len: usize = 70;
    assert_eq!(
        &ads_notification_stream.stream_len(),
        &expected_len,
        "Wrong number of bytes"
    );

    let mut buffer: Vec<u8> = Vec::new();

    ads_notification_stream.write_to(&mut buffer).unwrap();

    let expected_data = [
        //Notification stream Length
        66, 0, 0, 0,
        ////Notification stream number of stamps
        2, 0, 0, 0,
        //Stamp header1 time_stamp
        210, 2, 150, 73, 0, 0, 0, 0,
        //Stamp header1 number of samples
        2, 0, 0, 0,
        //Notification sample 1 notification handle
        10, 0, 0, 0,
        //Notification sample 1 sample size
        4, 0, 0, 0,
        //Notification sample 1 data
        232, 3, 0, 0,
        //Notification sample 2 notification handle
        20, 0, 0, 0,
        //Notification sample 2 sample size
        2, 0, 0, 0,
        //Notification sample 2 data
        208, 7,
        //Stamp header2 time_stamp
        210, 2, 150, 73, 0, 0, 0, 0,
        //Stamp header2 number of samples
        1, 0, 0, 0,
        //Notification sample 3 notification handle
        30, 0, 0, 0,
        //Notification sample 3 sample size
        8, 0, 0, 0,
        //Notification sample 3 data
        184, 11, 0, 0, 0, 0, 0, 0,
    ];

    assert_eq!(buffer, expected_data, "Data in buffer is not as expected");
}

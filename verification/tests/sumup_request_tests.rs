use ads_proto::proto::command_id::CommandID;
use ads_proto::proto::proto_traits::{ReadFrom, WriteTo};
use ads_proto::proto::request::{ReadRequest, ReadWriteRequest, WriteRequest};
use ads_proto::proto::sumup::sumup_request::{
    SumupReadRequest, SumupReadWriteRequest, SumupWriteRequest,
};

#[test]
fn sumup_read_write_request_write_to_test() {
    let mut rw_vec: Vec<ReadWriteRequest> = Vec::new();
    let data: u32 = 111111;
    let data: Vec<u8> = data.to_le_bytes().to_vec();
    let rw_1 = ReadWriteRequest::new(259, 33, 4, data);
    rw_vec.push(rw_1);

    let data: u64 = 222222;
    let data: Vec<u8> = data.to_le_bytes().to_vec();
    let rw_2 = ReadWriteRequest::new(260, 22, 4, data);
    rw_vec.push(rw_2);

    let mut buffer: Vec<u8> = Vec::new();
    SumupReadWriteRequest::new(rw_vec)
        .write_to(&mut buffer)
        .unwrap();

    let compare = vec![
        3, 1, 0, 0, 33, 0, 0, 0, 4, 0, 0, 0, 4, 0, 0, 0, 4, 1, 0, 0, 22, 0, 0, 0, 4, 0, 0, 0,
        8, 0, 0, 0, 7, 178, 1, 0, 14, 100, 3, 0, 0, 0, 0, 0,
    ];
    assert_eq!(buffer, compare);
}

#[test]
fn sumup_read_write_request_read_from_test() {
    let read_data = vec![
        3, 1, 0, 0, 33, 0, 0, 0, 4, 0, 0, 0, 4, 0, 0, 0, 4, 1, 0, 0, 22, 0, 0, 0, 4, 0, 0, 0,
        8, 0, 0, 0, 7, 178, 1, 0, 14, 100, 3, 0, 0, 0, 0, 0,
    ];

    let sum_read_write_request =
        SumupReadWriteRequest::read_from(&mut read_data.as_slice()).unwrap();

    let mut rw_vec: Vec<ReadWriteRequest> = Vec::new();
    let data: u32 = 111111;
    let data: Vec<u8> = data.to_le_bytes().to_vec();
    let rw_1 = ReadWriteRequest::new(259, 33, 4, data);
    rw_vec.push(rw_1);

    let data: u64 = 222222;
    let data: Vec<u8> = data.to_le_bytes().to_vec();
    let rw_2 = ReadWriteRequest::new(260, 22, 4, data);
    rw_vec.push(rw_2);

    let compare = SumupReadWriteRequest::new(rw_vec);

    assert_eq!(
        sum_read_write_request, compare,
        "comparing sum_read_write_request failed"
    );
}

#[test]
fn sumup_read_request_write_to_test() {
    let mut r_vec: Vec<ReadRequest> = Vec::new();
    let r_1 = ReadRequest::new(259, 33, 4);
    r_vec.push(r_1);

    let r_2 = ReadRequest::new(260, 22, 4);
    r_vec.push(r_2);

    let mut buffer: Vec<u8> = Vec::new();
    SumupReadRequest::new(r_vec).write_to(&mut buffer).unwrap();

    let compare = vec![
        3, 1, 0, 0, 33, 0, 0, 0, 4, 0, 0, 0, 4, 1, 0, 0, 22, 0, 0, 0, 4, 0, 0, 0,
    ];
    assert_eq!(buffer, compare);
}

#[test]
fn sumup_read_request_read_from_test() {
    let read_data = vec![
        3, 1, 0, 0, 33, 0, 0, 0, 4, 0, 0, 0, 4, 1, 0, 0, 22, 0, 0, 0, 4, 0, 0, 0,
    ];

    let sum_read_request = SumupReadRequest::read_from(&mut read_data.as_slice()).unwrap();

    let mut r_vec: Vec<ReadRequest> = Vec::new();
    let rw_1 = ReadRequest::new(259, 33, 4);
    r_vec.push(rw_1);

    let rw_2 = ReadRequest::new(260, 22, 4);
    r_vec.push(rw_2);

    let compare = SumupReadRequest::new(r_vec);

    assert_eq!(
        sum_read_request, compare,
        "comparing sum_read_write_request failed"
    );

    assert_eq!(
        sum_read_request.command_id,
        CommandID::Read,
        "Wrong command ID"
    );

    for request in &sum_read_request.read_requests {
        assert_eq!(request.command_id, CommandID::Read, "wrong command id");
        assert_eq!(request.length, 4, "Wrong length");
    }
    assert_eq!(
        sum_read_request.read_requests[0].index_group, 259,
        "Wrong index group"
    );
    assert_eq!(
        sum_read_request.read_requests[0].index_offset, 33,
        "Wrong index offset"
    );
    assert_eq!(
        sum_read_request.read_requests[1].index_group, 260,
        "Wrong index group"
    );
    assert_eq!(
        sum_read_request.read_requests[1].index_offset, 22,
        "Wrong index offset"
    );
}

#[test]
fn sumup_write_request_write_to_test() {
    let mut rw_vec: Vec<WriteRequest> = Vec::new();
    let data: u32 = 111111;
    let data: Vec<u8> = data.to_le_bytes().to_vec();
    let rw_1 = WriteRequest::new(259, 33, data);
    rw_vec.push(rw_1);

    let data: u64 = 222222;
    let data: Vec<u8> = data.to_le_bytes().to_vec();
    let rw_2 = WriteRequest::new(260, 22, data);
    rw_vec.push(rw_2);

    let mut buffer: Vec<u8> = Vec::new();
    SumupWriteRequest::new(rw_vec)
        .write_to(&mut buffer)
        .unwrap();

    let compare = vec![
        3, 1, 0, 0, 33, 0, 0, 0, 4, 0, 0, 0, 4, 1, 0, 0, 22, 0, 0, 0, 8, 0, 0, 0, 7, 178, 1, 0,
        14, 100, 3, 0, 0, 0, 0, 0,
    ];
    assert_eq!(buffer, compare);
}

#[test]
fn sumup_write_request_read_from_test() {
    let read_data = vec![
        3, 1, 0, 0, 33, 0, 0, 0, 4, 0, 0, 0, 4, 1, 0, 0, 22, 0, 0, 0, 8, 0, 0, 0, 7, 178, 1, 0,
        14, 100, 3, 0, 0, 0, 0, 0,
    ];

    let sum_write_request = SumupWriteRequest::read_from(&mut read_data.as_slice()).unwrap();

    let mut rw_vec: Vec<WriteRequest> = Vec::new();
    let data: u32 = 111111;
    let data: Vec<u8> = data.to_le_bytes().to_vec();
    let rw_1 = WriteRequest::new(259, 33, data);
    rw_vec.push(rw_1);

    let data: u64 = 222222;
    let data: Vec<u8> = data.to_le_bytes().to_vec();
    let rw_2 = WriteRequest::new(260, 22, data);
    rw_vec.push(rw_2);

    let compare = SumupWriteRequest::new(rw_vec);

    assert_eq!(
        sum_write_request, compare,
        "comparing sum_read_write_request failed"
    );
}

use ads_proto::error::AdsError;
use ads_proto::proto::ams_address::{AmsAddress, AmsNetId};
use ads_proto::proto::ams_header::{AmsHeader, AmsTcpHeader};
use ads_proto::proto::command_id::CommandID;
use ads_proto::proto::proto_traits::{ReadFrom, WriteTo};
use ads_proto::proto::request::{ReadRequest, Request};
use ads_proto::proto::state_flags::StateFlags;
use std::str::FromStr;

#[test]
fn ams_header_write_to_test() {
    let mut buffer: Vec<u8> = Vec::new();

    let port = 30000;

    let ams_header = AmsHeader::new(
        AmsAddress::new(AmsNetId::from_str("192.168.1.1.1.1").unwrap(), port),
        AmsAddress::new(AmsNetId::new(192, 168, 1, 1, 1, 2), port),
        StateFlags::resp_default(),
        111,
        Request::Read(ReadRequest::new(259, 259, 4)),
    );

    ams_header.write_to(&mut buffer).unwrap();

    let compare: Vec<u8> = vec![
        //target AmsAddress -> NetId/port (192.168.1.1.1.1, 30000)
        192, 168, 1, 1, 1, 1, 48, 117,      
        //Source AmsAddress -> NetId/port (192.168.1.1.1.2, 30000)
        192, 168, 1, 1, 1, 2, 48, 117,      
        //CommandID -> Read 
        2, 0,                               
        //state flag -> Request, Ads command, TCP (4)
        5, 0,                               
        //Lennth of data for read request (12 byte)
        12, 0, 0, 0,                        
        //Error code -> No error 
        0, 0, 0, 0,                         
        //Invoke ID -> 111 
        111, 0, 0, 0,                       
        //Data from read request -> see request.rs
        3, 1, 0, 0, 3, 1, 0, 0, 4, 0, 0, 0  
    ];
    assert_eq!(compare, buffer);
}

#[test]
fn ams_header_read_from_test() {
    let data: Vec<u8> = vec![
        //target AmsAddress -> NetId/port (192.168.1.1.1.1, 30000)
        192, 168, 1, 1, 1, 1, 48, 117,      
        //Source AmsAddress -> NetId/port (192.168.1.1.1.2, 30000)
        192, 168, 1, 1, 1, 2, 48, 117,      
        //CommandID -> Read 
        2, 0,                               
        //state flag -> Request, Ads command, TCP (4)
        4, 0,                               
        //Lennth of data for read request (12 byte)
        12, 0, 0, 0,                        
        //Error code -> No error 
        0, 0, 0, 0,                         
        //Invoke ID -> 111 
        111, 0, 0, 0,                       
        //Data from read request -> see request.rs
        3, 1, 0, 0, 3, 1, 0, 0, 4, 0, 0, 0  
    ];

    let ams_header = AmsHeader::read_from(&mut data.as_slice()).unwrap();
    assert_eq!(
        ams_header.ams_address_targed().ams_net_id.net_id(),
        [192, 168, 1, 1, 1, 1]
    );
    assert_eq!(
        ams_header.ams_address_source().ams_net_id.net_id(),
        [192, 168, 1, 1, 1, 2]
    );
    assert_eq!(ams_header.ams_address_targed().port, 30000);
    assert_eq!(ams_header.ams_address_source().port, 30000);
    assert_eq!(ams_header.command_id(), CommandID::Read);
    assert_eq!(ams_header.state_flags().value(), 4);
    assert_eq!(ams_header.data_len(), 12, "Wrong data length");
    assert_eq!(*ams_header.ads_error(), AdsError::ErrNoError);
    assert_eq!(ams_header.invoke_id(), 111);
    assert_eq!(ams_header.raw_response_data(), [3, 1, 0, 0, 3, 1, 0, 0, 4, 0, 0, 0]);
}

#[test]
fn ams_header_len_test() {
    let port = 30000;
    let ams_header = AmsHeader::new(
        AmsAddress::new(AmsNetId::from_str("192.168.1.1.1.1").unwrap(), port),
        AmsAddress::new(AmsNetId::new(192, 168, 1, 1, 1, 2), port),
        StateFlags::req_default(),
        111,
        Request::Read(ReadRequest::new(259, 259, 4)),
    );

    assert_eq!(ams_header.header_len(), 44);
}

#[test]
fn ams_tcp_header_write_to_test() {
    let mut buffer: Vec<u8> = Vec::new();

    let port = 30000;

    let ams_header = AmsHeader::new(
        AmsAddress::new(AmsNetId::from_str("192.168.1.1.1.1").unwrap(), port),
        AmsAddress::new(AmsNetId::new(192, 168, 1, 1, 1, 2), port),
        StateFlags::req_default(),
        111,
        Request::Read(ReadRequest::new(259, 259, 4)),
    );

    let ams_tcp_header = AmsTcpHeader::from(ams_header);
    ams_tcp_header.write_to(&mut buffer).unwrap();

    let compare: Vec<u8> = vec![
        //Reserved has to be 0
        0,0,
        //Length in bytes of AmsHeader
        44, 0, 0, 0,
        //target AmsAddress -> NetId/port (192.168.1.1.1.1, 30000)
        192, 168, 1, 1, 1, 1, 48, 117,      
        //Source AmsAddress -> NetId/port (192.168.1.1.1.2, 30000)
        192, 168, 1, 1, 1, 2, 48, 117,      
        //CommandID -> Read 
        2, 0,                               
        //state flag -> Request, Ads command, TCP (4)
        4, 0,                               
        //Lennth of data for read request (12 byte)
        12, 0, 0, 0,                        
        //Error code -> No error 
        0, 0, 0, 0,                         
        //Invoke ID -> 111 
        111, 0, 0, 0,                       
        //Data from read request -> see request.rs
        3, 1, 0, 0, 3, 1, 0, 0, 4, 0, 0, 0  
    ];
    assert_eq!(compare, buffer);
}

#[test]
fn ams_tcp_header_read_from_test() {
    let data: Vec<u8> = vec![
      //Reserved has to be 0
      0,0,
      //Length in bytes of AmsHeader
      44, 0, 0, 0,
      //target AmsAddress -> NetId/port (192.168.1.1.1.1, 30000)
      192, 168, 1, 1, 1, 1, 48, 117,      
      //Source AmsAddress -> NetId/port (192.168.1.1.1.2, 30000)
      192, 168, 1, 1, 1, 2, 48, 117,      
      //CommandID -> Read 
      2, 0,                               
      //state flag -> Request, Ads command, TCP (4)
      4, 0,                               
      //Lennth of data for read request (12 byte)
      12, 0, 0, 0,                        
      //Error code -> No error 
      0, 0, 0, 0,                         
      //Invoke ID -> 111 
      111, 0, 0, 0,                       
      //Data from read request -> see request.rs
      3, 1, 0, 0, 3, 1, 0, 0, 4, 0, 0, 0  
    ];

    let ams_tcp_header = AmsTcpHeader::read_from(&mut data.as_slice()).unwrap();
    assert_eq!(ams_tcp_header.reserved, [0, 0]);
    assert_eq!(ams_tcp_header.length, 44);
    assert_eq!(
        ams_tcp_header
            .ams_header.ams_address_targed()
            .ams_net_id
            .net_id(),
        [192, 168, 1, 1, 1, 1]
    );
    assert_eq!(
        ams_tcp_header
            .ams_header.ams_address_source()
            .ams_net_id
            .net_id(),
        [192, 168, 1, 1, 1, 2]
    );
    assert_eq!(ams_tcp_header.ams_header.ams_address_targed().port, 30000);
    assert_eq!(ams_tcp_header.ams_header.ams_address_source().port, 30000);
    assert_eq!(ams_tcp_header.ams_header.command_id(), CommandID::Read);
    assert_eq!(ams_tcp_header.ams_header.state_flags().value(), 4);
    assert_eq!(ams_tcp_header.ams_header.data_len(), 12);
    assert_eq!(
        *ams_tcp_header.ams_header.ads_error(),
        AdsError::ErrNoError
    );
    assert_eq!(ams_tcp_header.ams_header.invoke_id(), 111);
    assert_eq!(
        ams_tcp_header.ams_header.raw_response_data(),
        [3, 1, 0, 0, 3, 1, 0, 0, 4, 0, 0, 0]
    );
}

#[test]
fn ams_tcp_header_command_id() {
    let data: Vec<u8> = vec![
        //Reserved has to be 0
        0, 0, //Length in bytes of AmsHeader
        44, 0, 0, 0, //target AmsAddress -> NetId/port (192.168.1.1.1.1, 30000)
        192, 168, 1, 1, 1, 1, 48, 117,
        //Source AmsAddress -> NetId/port (192.168.1.1.1.2, 30000)
        192, 168, 1, 1, 1, 2, 48, 117, //CommandID -> Read
        2, 0, //state flag -> Request, Ads command, TCP (4)
        4, 0, //Lennth of data for read request (12 byte)
        12, 0, 0, 0, //Error code -> No error
        0, 0, 0, 0, //Invoke ID -> 111
        111, 0, 0, 0, //Data from read request -> see request.rs
        3, 1, 0, 0, 3, 1, 0, 0, 4, 0, 0, 0,
    ];

    let ams_tcp_header = AmsTcpHeader::read_from(&mut data.as_slice()).unwrap();
    assert_eq!(CommandID::Read, ams_tcp_header.ams_header.command_id());
}

#[test]
fn ams_tcp_header_response_data_length() {
    let data: Vec<u8> = vec![
        //Reserved has to be 0
        0, 0, //Length in bytes of AmsHeader
        44, 0, 0, 0, //target AmsAddress -> NetId/port (192.168.1.1.1.1, 30000)
        192, 168, 1, 1, 1, 1, 48, 117,
        //Source AmsAddress -> NetId/port (192.168.1.1.1.2, 30000)
        192, 168, 1, 1, 1, 2, 48, 117, //CommandID -> Read
        2, 0, //state flag -> Request, Ads command, TCP (4)
        4, 0, //Lennth of data for read request (12 byte)
        12, 0, 0, 0, //Error code -> No error
        0, 0, 0, 0, //Invoke ID -> 111
        111, 0, 0, 0, //Data from read request -> see request.rs
        3, 1, 0, 0, 3, 1, 0, 0, 4, 0, 0, 0,
    ];

    let ams_tcp_header = AmsTcpHeader::read_from(&mut data.as_slice()).unwrap();
    let len = ams_tcp_header.ams_header.response_data_len();
    assert_eq!(12, len);
}

#[test]
fn ams_tcp_header_update_response_data() {
    let data: Vec<u8> = vec![
        //Reserved has to be 0
        0, 0, //Length in bytes of AmsHeader
        44, 0, 0, 0, //target AmsAddress -> NetId/port (192.168.1.1.1.1, 30000)
        192, 168, 1, 1, 1, 1, 48, 117,
        //Source AmsAddress -> NetId/port (192.168.1.1.1.2, 30000)
        192, 168, 1, 1, 1, 2, 48, 117, //CommandID -> Read
        2, 0, //state flag -> Request, Ads command, TCP (4)
        4, 0, //Lennth of data for read request (12 byte)
        12, 0, 0, 0, //Error code -> No error
        0, 0, 0, 0, //Invoke ID -> 111
        111, 0, 0, 0, //Data from read request -> see request.rs
        3, 1, 0, 0, 3, 1, 0, 0, 4, 0, 0, 0,
    ];

    let mut ams_tcp_header = AmsTcpHeader::read_from(&mut data.as_slice()).unwrap();
    let new_data: Vec<u8> = vec![3, 1, 0, 0, 3, 1, 0, 0, 16, 0, 0, 0];
    ams_tcp_header
        .ams_header
        .update_response_data(new_data.clone());
    assert_eq!(new_data, ams_tcp_header.ams_header.raw_response_data());
}

#[test]
fn ams_tcp_header_invoke_id() {
    let data: Vec<u8> = vec![
        //Reserved has to be 0
        0, 0, //Length in bytes of AmsHeader
        44, 0, 0, 0, //target AmsAddress -> NetId/port (192.168.1.1.1.1, 30000)
        192, 168, 1, 1, 1, 1, 48, 117,
        //Source AmsAddress -> NetId/port (192.168.1.1.1.2, 30000)
        192, 168, 1, 1, 1, 2, 48, 117, //CommandID -> Read
        2, 0, //state flag -> Request, Ads command, TCP (4)
        4, 0, //Lennth of data for read request (12 byte)
        12, 0, 0, 0, //Error code -> No error
        0, 0, 0, 0, //Invoke ID -> 111
        111, 0, 0, 0, //Data from read request -> see request.rs
        3, 1, 0, 0, 3, 1, 0, 0, 4, 0, 0, 0,
    ];

    let ams_tcp_header = AmsTcpHeader::read_from(&mut data.as_slice()).unwrap();
    assert_eq!(111, ams_tcp_header.ams_header.invoke_id());
}

#[test]
fn ams_tcp_header_ads_error() {
    let data: Vec<u8> = vec![
        //Reserved has to be 0
        0, 0, //Length in bytes of AmsHeader
        44, 0, 0, 0, //target AmsAddress -> NetId/port (192.168.1.1.1.1, 30000)
        192, 168, 1, 1, 1, 1, 48, 117,
        //Source AmsAddress -> NetId/port (192.168.1.1.1.2, 30000)
        192, 168, 1, 1, 1, 2, 48, 117, //CommandID -> Read
        2, 0, //state flag -> Request, Ads command, TCP (4)
        4, 0, //Lennth of data for read request (12 byte)
        12, 0, 0, 0, //Error code -> No error
        0, 0, 0, 0, //Invoke ID -> 111
        111, 0, 0, 0, //Data from read request -> see request.rs
        3, 1, 0, 0, 3, 1, 0, 0, 4, 0, 0, 0,
    ];

    let ams_tcp_header = AmsTcpHeader::read_from(&mut data.as_slice()).unwrap();
    assert_eq!(&AdsError::ErrNoError, ams_tcp_header.ams_header.ads_error());
}

#[test]
fn ams_tcp_header_raw_response_data() {
    let data: Vec<u8> = vec![
        //Reserved has to be 0
        0, 0, //Length in bytes of AmsHeader
        44, 0, 0, 0, //target AmsAddress -> NetId/port (192.168.1.1.1.1, 30000)
        192, 168, 1, 1, 1, 1, 48, 117,
        //Source AmsAddress -> NetId/port (192.168.1.1.1.2, 30000)
        192, 168, 1, 1, 1, 2, 48, 117, //CommandID -> Read
        2, 0, //state flag -> Request, Ads command, TCP (4)
        4, 0, //Lennth of data for read request (12 byte)
        12, 0, 0, 0, //Error code -> No error
        0, 0, 0, 0, //Invoke ID -> 111
        111, 0, 0, 0, //Data from read request -> see request.rs
        3, 1, 0, 0, 3, 1, 0, 0, 4, 0, 0, 0,
    ];

    let ams_tcp_header = AmsTcpHeader::read_from(&mut data.as_slice()).unwrap();
    assert_eq!(
        &[3, 1, 0, 0, 3, 1, 0, 0, 4, 0, 0, 0],
        ams_tcp_header.ams_header.raw_response_data()
    );
}

#[test]
fn ams_tcp_header_responser_result() {
    let data: Vec<u8> = vec![
        //Reserved has to be 0
        0, 0, //Length in bytes of AmsHeader
        44, 0, 0, 0, //target AmsAddress -> NetId/port (192.168.1.1.1.1, 30000)
        192, 168, 1, 1, 1, 1, 48, 117,
        //Source AmsAddress -> NetId/port (192.168.1.1.1.2, 30000)
        192, 168, 1, 1, 1, 2, 48, 117, //CommandID -> Read
        2, 0, //state flag -> Request, Ads command, TCP (4)
        4, 0, //Lennth of data for read request (12 byte)
        12, 0, 0, 0, //Error code -> No error
        1, 0, 0, 0, //Invoke ID -> 111
        111, 0, 0, 0, //Data from read request -> see request.rs
        3, 1, 0, 0, 3, 1, 0, 0, 4, 0, 0, 0,
    ];

    let ams_tcp_header = AmsTcpHeader::read_from(&mut data.as_slice()).unwrap();
    assert_eq!(
        Some(AdsError::ErrUnknowAdsError { error_code: 259 }),
        ams_tcp_header.ams_header.response_result()
    );
}

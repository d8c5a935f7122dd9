use std::collections::HashMap;
use uds_isotp::uds::code::Code;
use uds_isotp::uds::response::message::Response;
use uds_isotp::uds::response::response_on_event::ResponseOnEvent;
use uds_isotp::uds::service::Service;

#[test]
fn response_on_event_test_response() {
    let cfg: HashMap<u16, usize> = HashMap::new();

    let source = hex::decode("C60005").unwrap();
    let response = Response::try_from_bytes(&source, &cfg).unwrap();
    let data = ResponseOnEvent::try_with_config(&response, &cfg).unwrap();
    assert_eq!(data, ResponseOnEvent { data: vec![0x00, 0x05] });

    let source = hex::decode("C64402001022").unwrap();
    let response = Response::try_from_bytes(&source, &cfg).unwrap();
    let data = ResponseOnEvent::try_with_config(&response, &cfg).unwrap();
    assert_eq!(data, ResponseOnEvent { data: vec![0x44, 0x02, 0x00, 0x10, 0x22] });
}

#[test]
fn response_on_event_test_nrc() {
    let cfg: HashMap<u16, usize> = HashMap::new();

    let source = hex::decode("7F8612").unwrap();
    let response = Response::try_from_bytes(&source, &cfg).unwrap();
    assert_eq!(response.service(), Service::ResponseOnEvent);
    assert_eq!(response.sub_function(), None);
    assert!(response.is_negative());
    assert_eq!(response.nrc_code().unwrap(), Code::SubFunctionNotSupported);

    let response = Response::new(Service::NRC, None, &[0x86, 0x12], &cfg).unwrap();
    assert_eq!(response.service(), Service::ResponseOnEvent);
    assert_eq!(response.sub_function(), None);
    assert!(response.is_negative());
    assert_eq!(response.nrc_code().unwrap(), Code::SubFunctionNotSupported);
}

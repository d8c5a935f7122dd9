use std::collections::HashMap;
use uds_isotp::uds::code::Code;
use uds_isotp::uds::response::message::Response;
use uds_isotp::uds::service::Service;

#[test]
fn clear_diagnostic_info_test_response() {
    let cfg: HashMap<u16, usize> = HashMap::new();

    let source = hex::decode("54").unwrap();
    let response = Response::try_from_bytes(&source, &cfg).unwrap();
    let sub_func = response.sub_function();
    assert_eq!(sub_func, None);
}

#[test]
fn clear_diagnostic_info_test_nrc() {
    let cfg: HashMap<u16, usize> = HashMap::new();

    let source = hex::decode("7F1412").unwrap();
    let response = Response::try_from_bytes(&source, &cfg).unwrap();
    assert_eq!(response.service(), Service::ClearDiagnosticInfo);
    assert_eq!(response.sub_function(), None);
    assert!(response.is_negative());
    assert_eq!(response.nrc_code().unwrap(), Code::SubFunctionNotSupported);

    let response = Response::new(Service::NRC, None, &[0x14, 0x12], &cfg).unwrap();
    assert_eq!(response.service(), Service::ClearDiagnosticInfo);
    assert_eq!(response.sub_function(), None);
    assert!(response.is_negative());
    assert_eq!(response.nrc_code().unwrap(), Code::SubFunctionNotSupported);
}

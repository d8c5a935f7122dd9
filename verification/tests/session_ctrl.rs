use std::collections::HashMap;
use uds_isotp::isotp::constants::P2_STAR_MAX;
use uds_isotp::uds::code::Code;
use uds_isotp::uds::response::message::Response;
use uds_isotp::uds::response::session_ctrl::SessionCtrl;
use uds_isotp::uds::service::Service;
use uds_isotp::uds::types::SessionType;

#[test]
fn session_ctrl_test_response() {
    let cfg: HashMap<u16, usize> = HashMap::new();

    let source = hex::decode("5003003201f4").unwrap();
    let response = Response::try_from_bytes(&source, &cfg).unwrap();
    let sub_func = response.sub_function().unwrap();
    assert_eq!(SessionType::try_from(sub_func.function_byte()).unwrap(), SessionType::Extended);
    assert!(!response.is_negative());

    let session = SessionCtrl::try_from(&response, &cfg).unwrap();
    assert_eq!(session.0.p2, 50);
    assert_eq!(session.0.p2_star, P2_STAR_MAX);

    let res = response.to_bytes();
    assert_eq!(res, source);
}

#[test]
fn session_ctrl_test_nrc() {
    let cfg: HashMap<u16, usize> = HashMap::new();

    let source = hex::decode("7F1012").unwrap();
    let response = Response::try_from_bytes(&source, &cfg).unwrap();
    assert_eq!(response.service(), Service::SessionCtrl);
    assert_eq!(response.sub_function(), None);
    assert!(response.is_negative());
    assert_eq!(response.nrc_code().unwrap(), Code::SubFunctionNotSupported);

    let response = Response::new(Service::NRC, None, &[0x10, 0x12], &cfg).unwrap();
    assert_eq!(response.service(), Service::SessionCtrl);
    assert_eq!(response.sub_function(), None);
    assert!(response.is_negative());
    assert_eq!(response.nrc_code().unwrap(), Code::SubFunctionNotSupported);

    let res = response.to_bytes();
    assert_eq!(res, source);
}

use std::collections::HashMap;
use uds_isotp::uds::code::Code;
use uds_isotp::uds::response::ctrl_dtc_setting::CtrlDTCSetting;
use uds_isotp::uds::response::message::Response;
use uds_isotp::uds::service::Service;
use uds_isotp::uds::types::DTCSettingType;

#[test]
fn ctrl_dtc_setting_test_response() {
    let cfg: HashMap<u16, usize> = HashMap::new();

    let source = hex::decode("C501").unwrap();
    let response = Response::try_from_bytes(&source, &cfg).unwrap();
    let sub_func = response.sub_function().unwrap();
    assert_eq!(DTCSettingType::try_from(sub_func.function_byte()).unwrap(), DTCSettingType::On);
    let data = CtrlDTCSetting::try_from(&response, &cfg).unwrap();
    assert_eq!(data, CtrlDTCSetting { data: vec![] });

    let source = hex::decode("C502").unwrap();
    let response = Response::try_from_bytes(&source, &cfg).unwrap();
    let sub_func = response.sub_function().unwrap();
    assert_eq!(DTCSettingType::try_from(sub_func.function_byte()).unwrap(), DTCSettingType::Off);
    let data = CtrlDTCSetting::try_from(&response, &cfg).unwrap();
    assert_eq!(data, CtrlDTCSetting { data: vec![] });

    let invalid_sub_func = hex::decode("C540").unwrap();
    assert!(Response::try_from_bytes(&invalid_sub_func, &cfg).is_err());

    let invalid_payload = hex::decode("C50100").unwrap();
    assert!(Response::try_from_bytes(&invalid_payload, &cfg).is_err());

    assert!(Response::new(Service::CtrlDTCSetting, Some(0x40), &[], &cfg).is_err());
}

#[test]
fn ctrl_dtc_setting_test_nrc() {
    let cfg: HashMap<u16, usize> = HashMap::new();

    let source = hex::decode("7F8512").unwrap();
    let response = Response::try_from_bytes(&source, &cfg).unwrap();
    assert_eq!(response.service(), Service::CtrlDTCSetting);
    assert_eq!(response.sub_function(), None);
    assert!(response.is_negative());
    assert_eq!(response.nrc_code().unwrap(), Code::SubFunctionNotSupported);

    let response = Response::new(Service::NRC, None, &[0x85, 0x12], &cfg).unwrap();
    assert_eq!(response.service(), Service::CtrlDTCSetting);
    assert_eq!(response.sub_function(), None);
    assert!(response.is_negative());
    assert_eq!(response.nrc_code().unwrap(), Code::SubFunctionNotSupported);
}

use std::collections::HashMap;
use uds_isotp::uds::code::Code;
use uds_isotp::uds::response::access_timing_param::AccessTimingParameter;
use uds_isotp::uds::response::message::Response;
use uds_isotp::uds::service::Service;
use uds_isotp::uds::types::TimingParameterAccessType;

#[test]
fn access_timing_param_test_response() {
    let cfg: HashMap<u16, usize> = HashMap::new();

    let source = hex::decode("C30100").unwrap();
    let response = Response::try_from_bytes(&source, &cfg).unwrap();
    let sub_func = response.sub_function().unwrap();
    assert_eq!(
        TimingParameterAccessType::try_from(sub_func.function_byte()).unwrap(),
        TimingParameterAccessType::ReadExtendedTimingParameterSet
    );
    let data = AccessTimingParameter::try_from(&response, &cfg).unwrap();
    assert_eq!(data, AccessTimingParameter { data: vec![0x00] });

    let source = hex::decode("C302").unwrap();
    let response = Response::try_from_bytes(&source, &cfg).unwrap();
    let sub_func = response.sub_function().unwrap();
    assert_eq!(
        TimingParameterAccessType::try_from(sub_func.function_byte()).unwrap(),
        TimingParameterAccessType::SetTimingParametersToDefaultValues
    );

    let source = hex::decode("C303").unwrap();
    let response = Response::try_from_bytes(&source, &cfg).unwrap();
    let sub_func = response.sub_function().unwrap();
    assert_eq!(
        TimingParameterAccessType::try_from(sub_func.function_byte()).unwrap(),
        TimingParameterAccessType::ReadCurrentlyActiveTimingParameters
    );

    let source = hex::decode("C304").unwrap();
    let response = Response::try_from_bytes(&source, &cfg).unwrap();
    let sub_func = response.sub_function().unwrap();
    assert_eq!(
        TimingParameterAccessType::try_from(sub_func.function_byte()).unwrap(),
        TimingParameterAccessType::SetTimingParametersToGivenValues
    );
}

#[test]
fn access_timing_param_test_nrc() {
    let cfg: HashMap<u16, usize> = HashMap::new();

    let source = hex::decode("7F8312").unwrap();
    let response = Response::try_from_bytes(&source, &cfg).unwrap();
    assert_eq!(response.service(), Service::AccessTimingParam);
    assert_eq!(response.sub_function(), None);
    assert!(response.is_negative());
    assert_eq!(response.nrc_code().unwrap(), Code::SubFunctionNotSupported);

    let response = Response::new(Service::NRC, None, &[0x83, 0x12], &cfg).unwrap();
    assert_eq!(response.service(), Service::AccessTimingParam);
    assert_eq!(response.sub_function(), None);
    assert!(response.is_negative());
    assert_eq!(response.nrc_code().unwrap(), Code::SubFunctionNotSupported);
}

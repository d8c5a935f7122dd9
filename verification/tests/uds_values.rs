use uds_isotp::uds::code::Code;
use uds_isotp::uds::response::negatives::negatives;
use uds_isotp::uds::error::Iso14229Error;
use uds_isotp::uds::params::{DynamicallyDID, NotNullableData, NullableData};
use uds_isotp::uds::service::{Service, SubFunction};
use uds_isotp::uds::utils::{
    data_length_check, length_of_u_type, peel_suppress_positive, slice_to_u128, u128_to_vec, u128_to_vec_fix, U24,
};

#[test]
fn service_identifiers_roundtrip() {
    for v in 0u8..=255 {
        if let Some(service) = Service::from_u8(v) {
            assert_eq!(service.to_u8(), v);
        }
    }
    assert_eq!(Service::from_u8(0x22), Some(Service::ReadDID));
    assert_eq!(Service::from_u8(0x40), None);
    assert!(Service::SessionCtrl.has_sub_function());
    assert!(!Service::ReadDID.has_sub_function());
}

#[test]
fn response_codes_roundtrip() {
    for v in 0u8..=255 {
        assert_eq!(Code::from_u8(v).to_u8(), v);
    }
    assert_eq!(Code::from_u8(0x12), Code::SubFunctionNotSupported);
    assert_eq!(Code::SubFunctionNotSupported.to_u8(), 0x12);
}

#[test]
fn sub_function_bits() {
    let sub = SubFunction::new(0x81);
    assert_eq!(sub.function_byte(), 0x01);
    assert!(sub.is_suppress_positive());
    assert_eq!(peel_suppress_positive(0x83), (true, 0x03));
    assert_eq!(peel_suppress_positive(0x03), (false, 0x03));
}

#[test]
fn u24_values() {
    let v = U24::from_be_bytes([0x12, 0x34, 0x56]);
    assert_eq!(v.to_u32(), 0x123456);
    assert_eq!(v.to_bytes(), vec![0x12, 0x34, 0x56]);
    assert_eq!(U24::new(0xFF_123456).to_u32(), 0x123456);
    assert_eq!(U24::try_from(&[0xAB, 0xCD, 0xEF]).unwrap().to_u32(), 0xABCDEF);
    assert!(matches!(U24::try_from(&[0x01]), Err(Iso14229Error::InvalidDataLength { expect: 3, actual: 1 })));
}

#[test]
fn integer_bytes() {
    assert_eq!(length_of_u_type(0), 0);
    assert_eq!(length_of_u_type(0xFF), 1);
    assert_eq!(length_of_u_type(0x100), 2);
    assert_eq!(length_of_u_type(u128::MAX), 16);
    assert_eq!(u128_to_vec(0x0102, 4), vec![0, 0, 1, 2]);
    assert_eq!(u128_to_vec(0x010203, 2), vec![2, 3]);
    assert_eq!(u128_to_vec_fix(0x0102), vec![1, 2]);
    assert_eq!(slice_to_u128(&[1, 2, 3]), 0x010203);
    assert_eq!(slice_to_u128(&[]), 0);
    assert!(data_length_check(3, 2, false).is_ok());
    assert!(matches!(data_length_check(3, 2, true), Err(Iso14229Error::InvalidDataLength { expect: 2, actual: 3 })));
    assert!(matches!(data_length_check(1, 2, false), Err(Iso14229Error::InvalidDataLength { expect: 2, actual: 1 })));
}

#[test]
fn parameter_values() {
    assert_eq!(DynamicallyDID::try_from(0xF200).unwrap().to_u16(), 0xF200);
    assert!(matches!(DynamicallyDID::try_from(0xF400), Err(Iso14229Error::InvalidDynamicallyDefinedDID(0xF400))));
    assert_eq!(NotNullableData::new(vec![1, 2]).unwrap().to_bytes(), vec![0, 2, 1, 2]);
    assert!(matches!(NotNullableData::new(vec![]), Err(Iso14229Error::InvalidParam(_))));
    assert_eq!(NullableData::new(vec![]).unwrap().to_bytes(), vec![0, 0]);
    assert!(matches!(NullableData::new(vec![0; 0x1_0000]), Err(Iso14229Error::InvalidParam(_))));
}

#[test]
fn negative_codes_of_services() {
    assert_eq!(
        negatives(Service::SessionCtrl),
        vec![Code::SubFunctionNotSupported, Code::IncorrectMessageLengthOrInvalidFormat, Code::ConditionsNotCorrect]
    );
    assert_eq!(negatives(Service::TesterPresent).len(), 2);
    assert!(negatives(Service::ReadDID).contains(&Code::ResponseTooLong));
    assert!(negatives(Service::ReadDTCInfo).is_empty());
}

use std::collections::HashMap;
use uds_isotp::uds::error::Iso14229Error;
use uds_isotp::uds::params::{AdministrativeParameter, DataIdentifier, DIDData, MemoryLocation};
use uds_isotp::uds::response::authentication::{AuthReturnValue, Authentication};
use uds_isotp::uds::response::message::Response;
use uds_isotp::uds::response::read_did::ReadDID;
use uds_isotp::uds::response::request_upload::RequestUpload;
use uds_isotp::uds::response::secured_data_trans::{SecuredDataTrans, SecuredDataTransNegative, SecuredDataTransPositive};
use uds_isotp::uds::response::session_ctrl::{SessionCtrl, SessionTiming};
use uds_isotp::uds::response::write_mem_by_addr::WriteMemByAddr;
use uds_isotp::uds::service::Service;
use uds_isotp::uds::types::SignatureEncryptionCalculation;

fn no_dids() -> HashMap<u16, usize> {
    HashMap::new()
}

#[test]
fn response_bytes_roundtrip_for_many_services() {
    let cfg = no_dids();
    for source in [
        "5003003201f4", "5101", "5104FF", "54", "6702", "670112", "6E0102", "7101FF00AA", "7E00", "C501",
        "C701", "7600", "750F", "7701", "6A0102", "7F3512",
    ] {
        let bytes = hex::decode(source).unwrap();
        let response = Response::try_from_bytes(&bytes, &cfg).unwrap();
        assert_eq!(response.to_bytes(), bytes, "{}", source);
    }
}

#[test]
fn response_errors() {
    let cfg = no_dids();
    assert!(matches!(
        Response::try_from_bytes(&[], &cfg),
        Err(Iso14229Error::InvalidDataLength { expect: 1, actual: 0 })
    ));
    assert!(matches!(Response::try_from_bytes(&[0x30], &cfg), Err(Iso14229Error::ReservedError(0x30))));
    assert!(matches!(Response::try_from_bytes(&[0x41], &cfg), Err(Iso14229Error::ReservedError(0x41))));
    assert!(matches!(
        Response::try_from_bytes(&[0x50], &cfg),
        Err(Iso14229Error::InvalidDataLength { expect: 2, actual: 1 })
    ));
    assert!(matches!(
        Response::try_from_bytes(&[0x7F, 0x10], &cfg),
        Err(Iso14229Error::InvalidDataLength { expect: 2, actual: 1 })
    ));
    assert!(matches!(Response::try_from_bytes(&[0x7F, 0x01, 0x12], &cfg), Err(Iso14229Error::ReservedError(0x01))));
    assert!(matches!(Response::try_from_bytes(&[0x59, 0x01], &cfg), Err(Iso14229Error::NotImplement)));
    assert!(matches!(
        Response::new(Service::ReadMemByAddr, Some(1), &[], &cfg),
        Err(Iso14229Error::SubFunctionError(Service::ReadMemByAddr))
    ));
    assert!(matches!(
        Response::try_from_bytes(&[0x67, 0x01], &cfg),
        Err(Iso14229Error::InvalidParam(_))
    ));
    match Response::try_from_bytes(&hex::decode("C30201").unwrap(), &cfg) {
        Err(Iso14229Error::InvalidData(text)) => assert_eq!(text, "01"),
        other => panic!("unexpected result: {:?}", other),
    }
}

#[test]
fn service_data_mismatch_is_a_service_error() {
    let cfg = no_dids();
    let response = Response::try_from_bytes(&hex::decode("5003003201f4").unwrap(), &cfg).unwrap();
    assert!(matches!(ReadDID::try_from(&response, &cfg), Err(Iso14229Error::ServiceError(Service::SessionCtrl))));
    assert!(matches!(
        Authentication::try_from(&response, &cfg),
        Err(Iso14229Error::ServiceError(Service::SessionCtrl))
    ));
}

#[test]
fn session_timing_values() {
    let cfg = no_dids();
    let response = Response::try_from_bytes(&hex::decode("5001001E0064").unwrap(), &cfg).unwrap();
    let session = SessionCtrl::try_from(&response, &cfg).unwrap();
    assert_eq!(session.0.p2_ms(), 30);
    assert_eq!(session.0.p2_star_ms(), 1000);
    assert_eq!(session.to_bytes(), vec![0x00, 0x1E, 0x00, 0x64]);
    let timing = SessionTiming::new(70, 1234);
    assert_eq!(timing.p2, 50);
    assert_eq!(timing.p2_star, 123);
    assert_eq!(SessionTiming::try_from(&[0xFF, 0xFF, 0xFF, 0xFF]).unwrap().p2_star, 500);
    assert!(matches!(
        SessionTiming::try_from(&[0x00]),
        Err(Iso14229Error::InvalidDataLength { expect: 4, actual: 1 })
    ));
}

#[test]
fn read_did_records_roundtrip() {
    let mut cfg = no_dids();
    cfg.insert(0xF190, 3);
    cfg.insert(0xF187, 1);
    let bytes = hex::decode("62F190414243F18701").unwrap();
    let response = Response::try_from_bytes(&bytes, &cfg).unwrap();
    let data = ReadDID::try_from(&response, &cfg).unwrap();
    assert_eq!(data.data, DIDData { did: DataIdentifier(0xF190), data: vec![0x41, 0x42, 0x43] });
    assert_eq!(data.others, vec![DIDData { did: DataIdentifier(0xF187), data: vec![0x01] }]);
    assert_eq!(data.to_bytes(), bytes[1..].to_vec());

    assert!(matches!(
        Response::try_from_bytes(&hex::decode("62F19141").unwrap(), &cfg),
        Err(Iso14229Error::DidNotSupported(0xF191))
    ));
    assert!(matches!(
        Response::try_from_bytes(&hex::decode("62F1904142").unwrap(), &cfg),
        Err(Iso14229Error::InvalidDataLength { expect: 5, actual: 4 })
    ));
    let mut other_cfg = no_dids();
    other_cfg.insert(0xF190, 3);
    assert!(matches!(ReadDID::try_from(&response, &other_cfg), Err(Iso14229Error::DidNotSupported(0xF187))));
}

#[test]
fn authentication_parse_and_write() {
    let cfg = no_dids();
    // VerifyCertificateUnidirectional: return value, challenge, ephemeral key.
    let bytes = hex::decode("690111000201020000").unwrap();
    let response = Response::try_from_bytes(&bytes, &cfg).unwrap();
    let auth = Authentication::try_from(&response, &cfg).unwrap();
    match &auth {
        Authentication::VerifyCertificateUnidirectional { value, .. } => {
            assert_eq!(*value, AuthReturnValue::CertificateVerifiedOrOwnershipVerificationNecessary)
        }
        other => panic!("unexpected data: {:?}", other),
    }
    assert_eq!(auth.to_bytes(), bytes[2..].to_vec());

    // An empty challenge is refused.
    let response = Response::try_from_bytes(&hex::decode("69011100000000").unwrap(), &cfg).unwrap();
    match Authentication::try_from(&response, &cfg) {
        Err(Iso14229Error::InvalidParam(msg)) => assert_eq!(msg, "length of data is out of range"),
        other => panic!("unexpected result: {:?}", other),
    }

    // The de-authentication value 0x10 is written back as 0x10.
    let response = Response::try_from_bytes(&[0x69, 0x00, 0x10], &cfg).unwrap();
    let auth = Authentication::try_from(&response, &cfg).unwrap();
    assert!(matches!(auth, Authentication::DeAuthenticate(AuthReturnValue::DeAuthenticationSuccessful)));
    assert_eq!(auth.to_bytes(), vec![0x10]);

    // A truncated session key information is reported with the data in hexadecimal.
    let mut bytes = vec![0x69, 0x06, 0x12];
    bytes.extend_from_slice(&[0xAB; 16]);
    bytes.extend_from_slice(&[0x00, 0x05, 0x01]);
    let response = Response::try_from_bytes(&bytes, &cfg).unwrap();
    match Authentication::try_from(&response, &cfg) {
        Err(Iso14229Error::InvalidData(text)) => assert_eq!(text, hex::encode(&bytes[2..])),
        other => panic!("unexpected result: {:?}", other),
    }

    assert!(matches!(
        Response::try_from_bytes(&[0x69, 0x09, 0x00], &cfg),
        Err(Iso14229Error::ReservedError(0x09))
    ));
    assert!(matches!(
        Response::try_from_bytes(&[0x69, 0x01, 0x00], &cfg),
        Err(Iso14229Error::InvalidDataLength { expect: 4, actual: 1 })
    ));
}

#[test]
fn auth_return_values() {
    for v in 0u8..=255 {
        assert_eq!(AuthReturnValue::from_u8(v).to_u8(), v);
    }
    assert_eq!(AuthReturnValue::DeAuthenticationSuccessful.to_u8(), 0x10);
    assert_eq!(AuthReturnValue::from_u8(0xB0), AuthReturnValue::VehicleManufacturerSpecific(0xB0));
    assert_eq!(AuthReturnValue::from_u8(0xD5), AuthReturnValue::SystemSupplierSpecific(0xD5));
    assert_eq!(AuthReturnValue::from_u8(0xFF), AuthReturnValue::Reserved(0xFF));
}

#[test]
fn secured_data_transmission() {
    let cfg = no_dids();
    // apar 0x0010, signature algorithm 0x01, signature length 2, counter 0x1234,
    // internal response 0x62, parameters F1 90, signature AA BB.
    let bytes = hex::decode("C40010010002123462F190AABB").unwrap();
    let response = Response::try_from_bytes(&bytes, &cfg).unwrap();
    let sdt = SecuredDataTrans::try_without_config(&response).unwrap();
    match &sdt {
        SecuredDataTrans::Successful(p) => {
            assert_eq!(p.apar.to_u16(), 0x0010);
            assert_eq!(p.signature, SignatureEncryptionCalculation::VehicleManufacturerSpecific(1));
            assert_eq!(p.anti_replay_cnt, 0x1234);
            assert_eq!(p.response, 0x62);
            assert_eq!(p.response_params, vec![0xF1, 0x90]);
            assert_eq!(p.signature_data, vec![0xAA, 0xBB]);
        }
        other => panic!("unexpected data: {:?}", other),
    }
    assert_eq!(sdt.to_bytes(), bytes[1..].to_vec());

    let negative = hex::decode("C4001001000012347F2231CC").unwrap();
    let response = Response::try_from_bytes(&negative, &cfg).unwrap();
    match SecuredDataTrans::try_without_config(&response).unwrap() {
        SecuredDataTrans::Unsuccessful(n) => {
            assert_eq!(n.service, 0x22);
            assert_eq!(n.response, 0x31);
            assert_eq!(n.signature_data, vec![0xCC]);
        }
        other => panic!("unexpected data: {:?}", other),
    }

    let request_bit = hex::decode("C4001101000012340A").unwrap();
    let response = Response::try_from_bytes(&request_bit, &cfg).unwrap();
    match SecuredDataTrans::try_without_config(&response) {
        Err(Iso14229Error::InvalidData(text)) => assert_eq!(text, "001101000012340a"),
        other => panic!("unexpected result: {:?}", other),
    }
    let reserved = hex::decode("C4001090000012340A").unwrap();
    let response = Response::try_from_bytes(&reserved, &cfg).unwrap();
    assert!(matches!(SecuredDataTrans::try_without_config(&response), Err(Iso14229Error::ReservedError(0x90))));

    let positive = SecuredDataTransPositive::new(
        AdministrativeParameter::from_u16(0x0011),
        SignatureEncryptionCalculation::SystemSupplierSpecific(0x80),
        1,
        0x50,
        vec![],
        vec![0x01],
    )
    .unwrap();
    assert_eq!(positive.apar.to_u16(), 0x0010);
    assert!(!positive.apar.is_request());
    match SecuredDataTransPositive::new(
        AdministrativeParameter::from_u16(0),
        SignatureEncryptionCalculation::SystemSupplierSpecific(0x80),
        1,
        0x50,
        vec![],
        vec![0; 0x1_0000],
    ) {
        Err(Iso14229Error::InvalidParam(msg)) => assert_eq!(msg, "length of `Signature/MAC Byte` is out of range"),
        other => panic!("unexpected result: {:?}", other),
    }
}

#[test]
fn secured_data_trans_value_roundtrip_both_variants() {
    let cfg = no_dids();
    let positive = SecuredDataTransPositive::new(
        AdministrativeParameter::from_u16(0x0021),
        SignatureEncryptionCalculation::SystemSupplierSpecific(0x8F),
        0xBEEF,
        0x6E,
        vec![0xF1, 0x90, 0x01],
        vec![0x11, 0x22, 0x33],
    )
    .unwrap();
    let mut bytes = vec![0xC4];
    bytes.extend_from_slice(&SecuredDataTrans::Successful(positive).to_bytes());
    assert_eq!(bytes, hex::decode("C400208F0003BEEF6EF19001112233").unwrap());
    let response = Response::try_from_bytes(&bytes, &cfg).unwrap();
    match SecuredDataTrans::try_without_config(&response).unwrap() {
        SecuredDataTrans::Successful(p) => {
            assert_eq!(p.apar.to_u16(), 0x0020);
            assert_eq!(p.signature, SignatureEncryptionCalculation::SystemSupplierSpecific(0x8F));
            assert_eq!(p.anti_replay_cnt, 0xBEEF);
            assert_eq!(p.response, 0x6E);
            assert_eq!(p.response_params, vec![0xF1, 0x90, 0x01]);
            assert_eq!(p.signature_data, vec![0x11, 0x22, 0x33]);
        }
        other => panic!("unexpected data: {:?}", other),
    }

    let negative = SecuredDataTransNegative::new(
        AdministrativeParameter::from_u16(0x0002),
        SignatureEncryptionCalculation::VehicleManufacturerSpecific(0x05),
        7,
        0x2E,
        0x33,
        vec![0x44, 0x55],
    )
    .unwrap();
    let mut bytes = vec![0xC4];
    bytes.extend_from_slice(&SecuredDataTrans::Unsuccessful(negative).to_bytes());
    assert_eq!(bytes, hex::decode("C4000205000200077F2E334455").unwrap());
    let response = Response::try_from_bytes(&bytes, &cfg).unwrap();
    match SecuredDataTrans::try_without_config(&response).unwrap() {
        SecuredDataTrans::Unsuccessful(n) => {
            assert_eq!(n.apar.to_u16(), 0x0002);
            assert_eq!(n.signature, SignatureEncryptionCalculation::VehicleManufacturerSpecific(0x05));
            assert_eq!(n.anti_replay_cnt, 7);
            assert_eq!(n.service, 0x2E);
            assert_eq!(n.response, 0x33);
            assert_eq!(n.signature_data, vec![0x44, 0x55]);
        }
        other => panic!("unexpected data: {:?}", other),
    }
}

#[test]
fn request_upload_roundtrip() {
    let cfg = no_dids();
    let upload = RequestUpload::new(0x0102).unwrap();
    let bytes = upload.to_bytes();
    assert_eq!(bytes, vec![0x20, 0x01, 0x02]);
    let mut source = vec![0x75];
    source.extend_from_slice(&bytes);
    let response = Response::try_from_bytes(&source, &cfg).unwrap();
    let read = RequestUpload::try_from(&response, &cfg).unwrap();
    assert_eq!(read.max_num_of_block_len, 0x0102);
    assert_eq!(read.lfi.to_u8(), 0x20);
    match RequestUpload::new(0) {
        Err(Iso14229Error::InvalidParam(msg)) => assert_eq!(msg, "`maxNumberOfBlockLength` must be rather than 0"),
        other => panic!("unexpected result: {:?}", other),
    }
    let response = Response::try_from_bytes(&[0x75, 0x21, 0x01], &cfg).unwrap();
    assert!(matches!(RequestUpload::try_from(&response, &cfg), Err(Iso14229Error::ReservedError(0x21))));
}

#[test]
fn memory_location_roundtrip() {
    let bytes = hex::decode("2412345678ABCD").unwrap();
    let location = MemoryLocation::from_slice(&bytes).unwrap();
    assert_eq!(location.mem_addr, 0x12345678);
    assert_eq!(location.mem_size, 0xABCD);
    assert_eq!(location.to_bytes(), bytes);
    assert!(matches!(MemoryLocation::from_slice(&[0x20]), Err(Iso14229Error::ReservedError(0x20))));
    assert!(matches!(
        MemoryLocation::from_slice(&[0x11, 0x01]),
        Err(Iso14229Error::InvalidDataLength { expect: 3, actual: 2 })
    ));

    let cfg = no_dids();
    let source = hex::decode("7D2412345678ABCD").unwrap();
    let response = Response::try_from_bytes(&source, &cfg).unwrap();
    let written = WriteMemByAddr::try_from(&response, &cfg).unwrap();
    assert_eq!(written.to_bytes(), bytes);
}

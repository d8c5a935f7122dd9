use vstd::prelude::*;
use std::collections::HashMap;
use crate::uds::error::{Iso14229Error, Iso14229ErrorView};
use crate::uds::service::Service;
use crate::uds::types::AuthenticationTask;
use crate::uds::utils::{data_length_check, spec_length_check};
use crate::uds::params::{
    AlgorithmIndicator, NotNullableData, NullableData, ALGORITHM_INDICATOR_LENGTH, spec_parse_field, parse_nullable,
    parse_not_nullable, parse_algo_indicator, u16_bytes,
};
use crate::uds::hex_text::{hex_encode, hex_text};
use crate::uds::response::message::{Response, ResponseView, response_result_view, spec_positive};
use crate::isotp::bytes_util::append_slice;

verus! {

/// Authentication return parameter of service 0x29.
#[derive(Debug, Copy, Clone, PartialEq, Eq, Structural)]
pub enum AuthReturnValue {
    RequestAccepted,
    GeneralReject,
    AuthenticationConfigurationAPCE,
    AuthenticationConfigurationACRWithAsymmetricCryptography,
    AuthenticationConfigurationACRWithSymmetricCryptography,
    DeAuthenticationSuccessful,
    CertificateVerifiedOrOwnershipVerificationNecessary,
    OwnershipVerifiedOrAuthenticationComplete,
    CertificateVerified,
    VehicleManufacturerSpecific(u8),
    SystemSupplierSpecific(u8),
    Reserved(u8),
}

impl AuthReturnValue {
    /// The value a byte stands for: 0xA0..=0xCF are vehicle manufacturer
    /// specific, 0xD0..=0xFE system supplier specific, other unnamed bytes reserved.
    pub open spec fn spec_from_u8(v: u8) -> AuthReturnValue {
        if v == 0x00 {
            AuthReturnValue::RequestAccepted
        } else if v == 0x01 {
            AuthReturnValue::GeneralReject
        } else if v == 0x02 {
            AuthReturnValue::AuthenticationConfigurationAPCE
        } else if v == 0x03 {
            AuthReturnValue::AuthenticationConfigurationACRWithAsymmetricCryptography
        } else if v == 0x04 {
            AuthReturnValue::AuthenticationConfigurationACRWithSymmetricCryptography
        } else if v == 0x10 {
            AuthReturnValue::DeAuthenticationSuccessful
        } else if v == 0x11 {
            AuthReturnValue::CertificateVerifiedOrOwnershipVerificationNecessary
        } else if v == 0x12 {
            AuthReturnValue::OwnershipVerifiedOrAuthenticationComplete
        } else if v == 0x13 {
            AuthReturnValue::CertificateVerified
        } else if 0xA0 <= v <= 0xCF {
            AuthReturnValue::VehicleManufacturerSpecific(v)
        } else if 0xD0 <= v <= 0xFE {
            AuthReturnValue::SystemSupplierSpecific(v)
        } else {
            AuthReturnValue::Reserved(v)
        }
    }

    /// The byte written for a value (Table B.5).
    pub open spec fn spec_to_u8(self) -> u8 {
        match self {
            AuthReturnValue::RequestAccepted => 0x00,
            AuthReturnValue::GeneralReject => 0x01,
            AuthReturnValue::AuthenticationConfigurationAPCE => 0x02,
            AuthReturnValue::AuthenticationConfigurationACRWithAsymmetricCryptography => 0x03,
            AuthReturnValue::AuthenticationConfigurationACRWithSymmetricCryptography => 0x04,
            AuthReturnValue::DeAuthenticationSuccessful => 0x10,
            AuthReturnValue::CertificateVerifiedOrOwnershipVerificationNecessary => 0x11,
            AuthReturnValue::OwnershipVerifiedOrAuthenticationComplete => 0x12,
            AuthReturnValue::CertificateVerified => 0x13,
            AuthReturnValue::VehicleManufacturerSpecific(v) => v,
            AuthReturnValue::SystemSupplierSpecific(v) => v,
            AuthReturnValue::Reserved(v) => v,
        }
    }

    pub fn from_u8(v: u8) -> (r: AuthReturnValue)
        ensures
            r == AuthReturnValue::spec_from_u8(v),
    {
        match v {
            0x00 => AuthReturnValue::RequestAccepted,
            0x01 => AuthReturnValue::GeneralReject,
            0x02 => AuthReturnValue::AuthenticationConfigurationAPCE,
            0x03 => AuthReturnValue::AuthenticationConfigurationACRWithAsymmetricCryptography,
            0x04 => AuthReturnValue::AuthenticationConfigurationACRWithSymmetricCryptography,
            0x10 => AuthReturnValue::DeAuthenticationSuccessful,
            0x11 => AuthReturnValue::CertificateVerifiedOrOwnershipVerificationNecessary,
            0x12 => AuthReturnValue::OwnershipVerifiedOrAuthenticationComplete,
            0x13 => AuthReturnValue::CertificateVerified,
            0xA0..=0xCF => AuthReturnValue::VehicleManufacturerSpecific(v),
            0xD0..=0xFE => AuthReturnValue::SystemSupplierSpecific(v),
            _ => AuthReturnValue::Reserved(v),
        }
    }

    pub fn to_u8(self) -> (r: u8)
        ensures
            r == self.spec_to_u8(),
    {
        match self {
            AuthReturnValue::RequestAccepted => 0x00,
            AuthReturnValue::GeneralReject => 0x01,
            AuthReturnValue::AuthenticationConfigurationAPCE => 0x02,
            AuthReturnValue::AuthenticationConfigurationACRWithAsymmetricCryptography => 0x03,
            AuthReturnValue::AuthenticationConfigurationACRWithSymmetricCryptography => 0x04,
            AuthReturnValue::DeAuthenticationSuccessful => 0x10,
            AuthReturnValue::CertificateVerifiedOrOwnershipVerificationNecessary => 0x11,
            AuthReturnValue::OwnershipVerifiedOrAuthenticationComplete => 0x12,
            AuthReturnValue::CertificateVerified => 0x13,
            AuthReturnValue::VehicleManufacturerSpecific(v) => v,
            AuthReturnValue::SystemSupplierSpecific(v) => v,
            AuthReturnValue::Reserved(v) => v,
        }
    }
}

/// Every byte is written back as it was read.
pub proof fn auth_return_byte_roundtrip(v: u8)
    ensures
        AuthReturnValue::spec_from_u8(v).spec_to_u8() == v,
{
}

/// The authentication return values of Table B.5 and their bytes, read and
/// written: 0x10 is a successful de-authentication, 0x11 a verified
/// certificate that still needs the proof of ownership.
pub proof fn auth_return_value_table(v: u8)
    ensures
        AuthReturnValue::spec_from_u8(0x00) == AuthReturnValue::RequestAccepted,
        AuthReturnValue::spec_from_u8(0x01) == AuthReturnValue::GeneralReject,
        AuthReturnValue::spec_from_u8(0x02) == AuthReturnValue::AuthenticationConfigurationAPCE,
        AuthReturnValue::spec_from_u8(0x03) == AuthReturnValue::AuthenticationConfigurationACRWithAsymmetricCryptography,
        AuthReturnValue::spec_from_u8(0x04) == AuthReturnValue::AuthenticationConfigurationACRWithSymmetricCryptography,
        AuthReturnValue::spec_from_u8(0x10) == AuthReturnValue::DeAuthenticationSuccessful,
        AuthReturnValue::spec_from_u8(0x11) == AuthReturnValue::CertificateVerifiedOrOwnershipVerificationNecessary,
        AuthReturnValue::spec_from_u8(0x12) == AuthReturnValue::OwnershipVerifiedOrAuthenticationComplete,
        AuthReturnValue::spec_from_u8(0x13) == AuthReturnValue::CertificateVerified,
        AuthReturnValue::RequestAccepted.spec_to_u8() == 0x00,
        AuthReturnValue::GeneralReject.spec_to_u8() == 0x01,
        AuthReturnValue::AuthenticationConfigurationAPCE.spec_to_u8() == 0x02,
        AuthReturnValue::AuthenticationConfigurationACRWithAsymmetricCryptography.spec_to_u8() == 0x03,
        AuthReturnValue::AuthenticationConfigurationACRWithSymmetricCryptography.spec_to_u8() == 0x04,
        AuthReturnValue::DeAuthenticationSuccessful.spec_to_u8() == 0x10,
        AuthReturnValue::CertificateVerifiedOrOwnershipVerificationNecessary.spec_to_u8() == 0x11,
        AuthReturnValue::OwnershipVerifiedOrAuthenticationComplete.spec_to_u8() == 0x12,
        AuthReturnValue::CertificateVerified.spec_to_u8() == 0x13,
        0xA0 <= v <= 0xCF ==> AuthReturnValue::spec_from_u8(v) == AuthReturnValue::VehicleManufacturerSpecific(v),
        0xD0 <= v <= 0xFE ==> AuthReturnValue::spec_from_u8(v) == AuthReturnValue::SystemSupplierSpecific(v),
        !(v == 0x00 || v == 0x01 || v == 0x02 || v == 0x03 || v == 0x04 || v == 0x10 || v == 0x11 || v == 0x12 || v == 0x13) && !(0xA0 <= v <= 0xFE) ==> AuthReturnValue::spec_from_u8(v) == AuthReturnValue::Reserved(v),
{
}

/// Response data of service 0x29, one form per authentication task.
#[derive(Debug, Clone)]
pub enum Authentication {
    DeAuthenticate(AuthReturnValue),
    VerifyCertificateUnidirectional {
        value: AuthReturnValue,
        challenge: NotNullableData,
        ephemeral_public_key: NullableData,
    },
    VerifyCertificateBidirectional {
        value: AuthReturnValue,
        challenge: NotNullableData,
        certificate: NotNullableData,
        proof_of_ownership: NotNullableData,
        ephemeral_public_key: NullableData,
    },
    ProofOfOwnership {
        value: AuthReturnValue,
        session_keyinfo: NullableData,
    },
    TransmitCertificate(AuthReturnValue),
    RequestChallengeForAuthentication {
        value: AuthReturnValue,
        algo_indicator: AlgorithmIndicator,
        challenge: NotNullableData,
        additional: NullableData,
    },
    VerifyProofOfOwnershipUnidirectional {
        value: AuthReturnValue,
        algo_indicator: AlgorithmIndicator,
        session_keyinfo: NullableData,
    },
    VerifyProofOfOwnershipBidirectional {
        value: AuthReturnValue,
        algo_indicator: AlgorithmIndicator,
        proof_of_ownership: NotNullableData,
        session_keyinfo: NullableData,
    },
    AuthenticationConfiguration(AuthReturnValue),
}

/// The content of an [`Authentication`], each field as its bytes.
pub enum AuthenticationView {
    DeAuthenticate(AuthReturnValue),
    VerifyCertificateUnidirectional { value: AuthReturnValue, challenge: Seq<u8>, ephemeral_public_key: Seq<u8> },
    VerifyCertificateBidirectional {
        value: AuthReturnValue,
        challenge: Seq<u8>,
        certificate: Seq<u8>,
        proof_of_ownership: Seq<u8>,
        ephemeral_public_key: Seq<u8>,
    },
    ProofOfOwnership { value: AuthReturnValue, session_keyinfo: Seq<u8> },
    TransmitCertificate(AuthReturnValue),
    RequestChallengeForAuthentication { value: AuthReturnValue, algo_indicator: Seq<u8>, challenge: Seq<u8>, additional: Seq<u8> },
    VerifyProofOfOwnershipUnidirectional { value: AuthReturnValue, algo_indicator: Seq<u8>, session_keyinfo: Seq<u8> },
    VerifyProofOfOwnershipBidirectional {
        value: AuthReturnValue,
        algo_indicator: Seq<u8>,
        proof_of_ownership: Seq<u8>,
        session_keyinfo: Seq<u8>,
    },
    AuthenticationConfiguration(AuthReturnValue),
}

impl View for Authentication {
    type V = AuthenticationView;

    open spec fn view(&self) -> AuthenticationView {
        match *self {
            Authentication::DeAuthenticate(v) => AuthenticationView::DeAuthenticate(v),
            Authentication::VerifyCertificateUnidirectional { value, challenge, ephemeral_public_key } =>
                AuthenticationView::VerifyCertificateUnidirectional {
                    value,
                    challenge: challenge.spec_bytes(),
                    ephemeral_public_key: ephemeral_public_key.spec_bytes(),
                },
            Authentication::VerifyCertificateBidirectional {
                value,
                challenge,
                certificate,
                proof_of_ownership,
                ephemeral_public_key,
            } => AuthenticationView::VerifyCertificateBidirectional {
                value,
                challenge: challenge.spec_bytes(),
                certificate: certificate.spec_bytes(),
                proof_of_ownership: proof_of_ownership.spec_bytes(),
                ephemeral_public_key: ephemeral_public_key.spec_bytes(),
            },
            Authentication::ProofOfOwnership { value, session_keyinfo } =>
                AuthenticationView::ProofOfOwnership { value, session_keyinfo: session_keyinfo.spec_bytes() },
            Authentication::TransmitCertificate(v) => AuthenticationView::TransmitCertificate(v),
            Authentication::RequestChallengeForAuthentication { value, algo_indicator, challenge, additional } =>
                AuthenticationView::RequestChallengeForAuthentication {
                    value,
                    algo_indicator: algo_indicator.spec_bytes(),
                    challenge: challenge.spec_bytes(),
                    additional: additional.spec_bytes(),
                },
            Authentication::VerifyProofOfOwnershipUnidirectional { value, algo_indicator, session_keyinfo } =>
                AuthenticationView::VerifyProofOfOwnershipUnidirectional {
                    value,
                    algo_indicator: algo_indicator.spec_bytes(),
                    session_keyinfo: session_keyinfo.spec_bytes(),
                },
            Authentication::VerifyProofOfOwnershipBidirectional { value, algo_indicator, proof_of_ownership, session_keyinfo } =>
                AuthenticationView::VerifyProofOfOwnershipBidirectional {
                    value,
                    algo_indicator: algo_indicator.spec_bytes(),
                    proof_of_ownership: proof_of_ownership.spec_bytes(),
                    session_keyinfo: session_keyinfo.spec_bytes(),
                },
            Authentication::AuthenticationConfiguration(v) => AuthenticationView::AuthenticationConfiguration(v),
        }
    }
}

/// The smallest data length of each task, and whether it is the only one allowed.
pub open spec fn spec_task_length(t: AuthenticationTask) -> (usize, bool) {
    match t {
        AuthenticationTask::DeAuthenticate => (1, true),
        AuthenticationTask::VerifyCertificateUnidirectional => (4, false),
        AuthenticationTask::VerifyCertificateBidirectional => (6, false),
        AuthenticationTask::ProofOfOwnership => (2, false),
        AuthenticationTask::TransmitCertificate => (1, true),
        AuthenticationTask::RequestChallengeForAuthentication => (20, false),
        AuthenticationTask::VerifyProofOfOwnershipUnidirectional => (20, false),
        AuthenticationTask::VerifyProofOfOwnershipBidirectional => (22, false),
        AuthenticationTask::AuthenticationConfiguration => (1, true),
    }
}

/// The checks on the data of a positive response: a known task and the data
/// length that task asks for.
pub open spec fn spec_check(data: Seq<u8>, sub_func: Option<u8>) -> Result<(), Iso14229ErrorView> {
    match sub_func {
        Some(s) => match AuthenticationTask::spec_from_u8(s) {
            None => Err(Iso14229ErrorView::ReservedError(s)),
            Some(t) => spec_length_check(data.len() as usize, spec_task_length(t).0, spec_task_length(t).1),
        },
        None => Err(Iso14229ErrorView::SubFunctionError(Service::Authentication)),
    }
}

/// The message of an empty field that must not be empty.
pub open spec fn out_of_range_message() -> Seq<char> {
    "length of data is out of range"@
}

/// Outcome of reading, at `offset`, a length-prefixed field that must not be empty.
pub open spec fn spec_not_null_field(data: Seq<u8>, offset: int) -> Result<(Seq<u8>, int), Iso14229ErrorView> {
    match spec_parse_field(data, offset) {
        Ok((bytes, next)) => if bytes.len() == 0 {
            Err(Iso14229ErrorView::InvalidParam(out_of_range_message()))
        } else {
            Ok((bytes, next))
        },
        Err(e) => Err(e),
    }
}

/// Outcome of reading the data of a response of task `t`: the return value,
/// then the fields of the task in order (the algorithm indicator is the 16
/// bytes after the return value).
pub open spec fn spec_parse(data: Seq<u8>, t: AuthenticationTask) -> Result<AuthenticationView, Iso14229ErrorView> {
    let value = AuthReturnValue::spec_from_u8(data[0]);
    let algo = data.subrange(1, 17);
    match t {
        AuthenticationTask::DeAuthenticate => Ok(AuthenticationView::DeAuthenticate(value)),
        AuthenticationTask::VerifyCertificateUnidirectional => match spec_not_null_field(data, 1) {
            Err(e) => Err(e),
            Ok((challenge, o1)) => match spec_parse_field(data, o1) {
                Err(e) => Err(e),
                Ok((key, _)) => Ok(AuthenticationView::VerifyCertificateUnidirectional {
                    value,
                    challenge,
                    ephemeral_public_key: key,
                }),
            },
        },
        AuthenticationTask::VerifyCertificateBidirectional => match spec_not_null_field(data, 1) {
            Err(e) => Err(e),
            Ok((challenge, o1)) => match spec_not_null_field(data, o1) {
                Err(e) => Err(e),
                Ok((certificate, o2)) => match spec_not_null_field(data, o2) {
                    Err(e) => Err(e),
                    Ok((proof, o3)) => match spec_parse_field(data, o3) {
                        Err(e) => Err(e),
                        Ok((key, _)) => Ok(AuthenticationView::VerifyCertificateBidirectional {
                            value,
                            challenge,
                            certificate,
                            proof_of_ownership: proof,
                            ephemeral_public_key: key,
                        }),
                    },
                },
            },
        },
        AuthenticationTask::ProofOfOwnership => match spec_parse_field(data, 1) {
            Err(e) => Err(e),
            Ok((info, _)) => Ok(AuthenticationView::ProofOfOwnership { value, session_keyinfo: info }),
        },
        AuthenticationTask::TransmitCertificate => Ok(AuthenticationView::TransmitCertificate(value)),
        AuthenticationTask::RequestChallengeForAuthentication => match spec_not_null_field(data, 17) {
            Err(e) => Err(e),
            Ok((challenge, o1)) => match spec_parse_field(data, o1) {
                Err(e) => Err(e),
                Ok((additional, _)) => Ok(AuthenticationView::RequestChallengeForAuthentication {
                    value,
                    algo_indicator: algo,
                    challenge,
                    additional,
                }),
            },
        },
        AuthenticationTask::VerifyProofOfOwnershipUnidirectional => match spec_parse_field(data, 17) {
            Err(_) => Err(Iso14229ErrorView::InvalidData(hex_text(data))),
            Ok((info, _)) => Ok(AuthenticationView::VerifyProofOfOwnershipUnidirectional {
                value,
                algo_indicator: algo,
                session_keyinfo: info,
            }),
        },
        AuthenticationTask::VerifyProofOfOwnershipBidirectional => match spec_not_null_field(data, 17) {
            Err(e) => Err(e),
            Ok((proof, o1)) => match spec_parse_field(data, o1) {
                Err(e) => Err(e),
                Ok((info, _)) => Ok(AuthenticationView::VerifyProofOfOwnershipBidirectional {
                    value,
                    algo_indicator: algo,
                    proof_of_ownership: proof,
                    session_keyinfo: info,
                }),
            },
        },
        AuthenticationTask::AuthenticationConfiguration => match spec_length_check(data.len() as usize, 1, true) {
            Err(e) => Err(e),
            Ok(()) => Ok(AuthenticationView::AuthenticationConfiguration(value)),
        },
    }
}

/// A field as written: its length (two bytes, big-endian), then its bytes.
pub open spec fn field_bytes(b: Seq<u8>) -> Seq<u8> {
    u16_bytes(b.len() as u16) + b
}

/// The bytes written for a response: the return value, then the fields. The
/// bidirectional certificate verification writes the ephemeral public key
/// right after the challenge, before certificate and proof of ownership.
pub open spec fn spec_auth_bytes(v: AuthenticationView) -> Seq<u8> {
    match v {
        AuthenticationView::DeAuthenticate(x) => seq![x.spec_to_u8()],
        AuthenticationView::VerifyCertificateUnidirectional { value, challenge, ephemeral_public_key } =>
            seq![value.spec_to_u8()] + field_bytes(challenge) + field_bytes(ephemeral_public_key),
        AuthenticationView::VerifyCertificateBidirectional {
            value,
            challenge,
            certificate,
            proof_of_ownership,
            ephemeral_public_key,
        } => seq![value.spec_to_u8()] + field_bytes(challenge) + field_bytes(ephemeral_public_key)
            + field_bytes(certificate) + field_bytes(proof_of_ownership),
        AuthenticationView::ProofOfOwnership { value, session_keyinfo } =>
            seq![value.spec_to_u8()] + field_bytes(session_keyinfo),
        AuthenticationView::TransmitCertificate(x) => seq![x.spec_to_u8()],
        AuthenticationView::RequestChallengeForAuthentication { value, algo_indicator, challenge, additional } =>
            seq![value.spec_to_u8()] + algo_indicator + field_bytes(challenge) + field_bytes(additional),
        AuthenticationView::VerifyProofOfOwnershipUnidirectional { value, algo_indicator, session_keyinfo } =>
            seq![value.spec_to_u8()] + algo_indicator + field_bytes(session_keyinfo),
        AuthenticationView::VerifyProofOfOwnershipBidirectional { value, algo_indicator, proof_of_ownership, session_keyinfo } =>
            seq![value.spec_to_u8()] + algo_indicator + field_bytes(proof_of_ownership) + field_bytes(session_keyinfo),
        AuthenticationView::AuthenticationConfiguration(x) => seq![x.spec_to_u8()],
    }
}

proof fn field_at(data: Seq<u8>, offset: int)
    requires
        0 <= offset,
        spec_parse_field(data, offset) is Ok,
    ensures
        ({
            let (b, next) = spec_parse_field(data, offset)->Ok_0;
            &&& next == offset + field_bytes(b).len()
            &&& next <= data.len()
            &&& data.subrange(offset, next) == field_bytes(b)
        }),
{
    let (b, next) = spec_parse_field(data, offset)->Ok_0;
    assert(b.len() <= 0xFFFF);
    assert(data.subrange(offset, next) =~= field_bytes(b));
}

/// The data up to the end of two fields read one after the other from `start`.
proof fn two_fields_prefix(data: Seq<u8>, start: int)
    requires
        1 <= start <= data.len(),
        spec_parse_field(data, start) is Ok,
        spec_parse_field(data, spec_parse_field(data, start)->Ok_0.1) is Ok,
    ensures
        ({
            let (b1, o1) = spec_parse_field(data, start)->Ok_0;
            let (b2, o2) = spec_parse_field(data, o1)->Ok_0;
            &&& o2 <= data.len()
            &&& data.subrange(0, o2) == data.subrange(0, start) + field_bytes(b1) + field_bytes(b2)
        }),
{
    field_at(data, start);
    let o1 = spec_parse_field(data, start)->Ok_0.1;
    field_at(data, o1);
    let o2 = spec_parse_field(data, o1)->Ok_0.1;
    assert(data.subrange(0, o2) =~= data.subrange(0, start) + data.subrange(start, o1) + data.subrange(o1, o2));
}

/// The data up to the end of the field read at `start`.
proof fn one_field_prefix(data: Seq<u8>, start: int)
    requires
        1 <= start <= data.len(),
        spec_parse_field(data, start) is Ok,
    ensures
        ({
            let (b1, o1) = spec_parse_field(data, start)->Ok_0;
            &&& o1 <= data.len()
            &&& data.subrange(0, o1) == data.subrange(0, start) + field_bytes(b1)
        }),
{
    field_at(data, start);
    let o1 = spec_parse_field(data, start)->Ok_0.1;
    assert(data.subrange(0, o1) =~= data.subrange(0, start) + data.subrange(start, o1));
}

/// Writing what was read from the data of a response gives back the data
/// read, a prefix of the response's data; bytes after the last field are
/// not read. This holds for every task but the bidirectional certificate
/// verification, whose ephemeral public key is written before the
/// certificate.
pub proof fn authentication_bytes_roundtrip(data: Seq<u8>, t: AuthenticationTask)
    requires
        spec_length_check(data.len() as usize, spec_task_length(t).0, spec_task_length(t).1) is Ok,
        spec_parse(data, t) is Ok,
        t != AuthenticationTask::VerifyCertificateBidirectional,
    ensures
        spec_auth_bytes(spec_parse(data, t)->Ok_0).is_prefix_of(data),
{
    let v = spec_parse(data, t)->Ok_0;
    let w = spec_auth_bytes(v);
    let head = seq![AuthReturnValue::spec_from_u8(data[0]).spec_to_u8()];
    auth_return_byte_roundtrip(data[0]);
    assert(data.subrange(0, 1) =~= head);
    if t == AuthenticationTask::VerifyCertificateUnidirectional {
        two_fields_prefix(data, 1);
        assert(w =~= data.subrange(0, spec_parse_field(data, spec_parse_field(data, 1)->Ok_0.1)->Ok_0.1));
    } else if t == AuthenticationTask::ProofOfOwnership {
        one_field_prefix(data, 1);
        assert(w =~= data.subrange(0, spec_parse_field(data, 1)->Ok_0.1));
    } else if t == AuthenticationTask::RequestChallengeForAuthentication
        || t == AuthenticationTask::VerifyProofOfOwnershipBidirectional {
        assert(data.subrange(0, 17) =~= head + data.subrange(1, 17));
        two_fields_prefix(data, 17);
        assert(w =~= data.subrange(0, spec_parse_field(data, spec_parse_field(data, 17)->Ok_0.1)->Ok_0.1));
    } else if t == AuthenticationTask::VerifyProofOfOwnershipUnidirectional {
        assert(data.subrange(0, 17) =~= head + data.subrange(1, 17));
        one_field_prefix(data, 17);
        assert(w =~= data.subrange(0, spec_parse_field(data, 17)->Ok_0.1));
    } else {
        assert(w =~= data.subrange(0, 1));
    }
}

/// The bidirectional certificate verification reads, after the return
/// value, four length-prefixed fields in this order: the challenge, the
/// certificate, the proof of ownership and the ephemeral public key; the
/// first three are not empty. Writing them back in that order gives the
/// data read, a prefix of the response's data.
pub proof fn bidirectional_certificate_fields_in_order(data: Seq<u8>)
    requires
        data.len() >= 1,
        spec_parse(data, AuthenticationTask::VerifyCertificateBidirectional) is Ok,
    ensures
        spec_parse(data, AuthenticationTask::VerifyCertificateBidirectional)->Ok_0 matches
            AuthenticationView::VerifyCertificateBidirectional { value, challenge, certificate, proof_of_ownership, ephemeral_public_key }
            && value == AuthReturnValue::spec_from_u8(data[0])
            && challenge.len() > 0 && certificate.len() > 0 && proof_of_ownership.len() > 0
            && (seq![data[0]] + field_bytes(challenge) + field_bytes(certificate)
                + field_bytes(proof_of_ownership) + field_bytes(ephemeral_public_key)).is_prefix_of(data),
{
    field_at(data, 1);
    let (b1, o1) = spec_parse_field(data, 1)->Ok_0;
    field_at(data, o1);
    let (b2, o2) = spec_parse_field(data, o1)->Ok_0;
    field_at(data, o2);
    let (b3, o3) = spec_parse_field(data, o2)->Ok_0;
    field_at(data, o3);
    let (b4, o4) = spec_parse_field(data, o3)->Ok_0;
    assert(data.subrange(0, o4) =~= seq![data[0]] + data.subrange(1, o1) + data.subrange(o1, o2)
        + data.subrange(o2, o3) + data.subrange(o3, o4));
    assert((seq![data[0]] + field_bytes(b1) + field_bytes(b2) + field_bytes(b3) + field_bytes(b4)) =~= data.subrange(0, o4));
}

/// What each task reads from the data after the return value, in order:
/// the challenge then the ephemeral public key (unidirectional certificate
/// verification); the session key information (proof of ownership); the 16
/// bytes of the algorithm indicator, then the challenge and the additional
/// parameter (challenge request), the session key information
/// (unidirectional proof verification), or the proof of ownership and the
/// session key information (bidirectional proof verification). Each field is
/// its length, two bytes big-endian, then its bytes; the data starts with
/// the fields in that order.
pub proof fn authentication_fields_in_order(data: Seq<u8>, t: AuthenticationTask)
    requires
        spec_length_check(data.len() as usize, spec_task_length(t).0, spec_task_length(t).1) is Ok,
        spec_parse(data, t) is Ok,
    ensures
        match spec_parse(data, t)->Ok_0 {
            AuthenticationView::VerifyCertificateUnidirectional { value, challenge, ephemeral_public_key } =>
                t == AuthenticationTask::VerifyCertificateUnidirectional
                && value == AuthReturnValue::spec_from_u8(data[0]) && challenge.len() > 0
                && (seq![data[0]] + field_bytes(challenge) + field_bytes(ephemeral_public_key)).is_prefix_of(data),
            AuthenticationView::ProofOfOwnership { value, session_keyinfo } =>
                t == AuthenticationTask::ProofOfOwnership
                && value == AuthReturnValue::spec_from_u8(data[0])
                && (seq![data[0]] + field_bytes(session_keyinfo)).is_prefix_of(data),
            AuthenticationView::RequestChallengeForAuthentication { value, algo_indicator, challenge, additional } =>
                t == AuthenticationTask::RequestChallengeForAuthentication
                && value == AuthReturnValue::spec_from_u8(data[0]) && algo_indicator.len() == 16 && challenge.len() > 0
                && (seq![data[0]] + algo_indicator + field_bytes(challenge) + field_bytes(additional)).is_prefix_of(data),
            AuthenticationView::VerifyProofOfOwnershipUnidirectional { value, algo_indicator, session_keyinfo } =>
                t == AuthenticationTask::VerifyProofOfOwnershipUnidirectional
                && value == AuthReturnValue::spec_from_u8(data[0]) && algo_indicator.len() == 16
                && (seq![data[0]] + algo_indicator + field_bytes(session_keyinfo)).is_prefix_of(data),
            AuthenticationView::VerifyProofOfOwnershipBidirectional { value, algo_indicator, proof_of_ownership, session_keyinfo } =>
                t == AuthenticationTask::VerifyProofOfOwnershipBidirectional
                && value == AuthReturnValue::spec_from_u8(data[0]) && algo_indicator.len() == 16 && proof_of_ownership.len() > 0
                && (seq![data[0]] + algo_indicator + field_bytes(proof_of_ownership) + field_bytes(session_keyinfo)).is_prefix_of(data),
            AuthenticationView::DeAuthenticate(value) =>
                t == AuthenticationTask::DeAuthenticate && value == AuthReturnValue::spec_from_u8(data[0]),
            AuthenticationView::TransmitCertificate(value) =>
                t == AuthenticationTask::TransmitCertificate && value == AuthReturnValue::spec_from_u8(data[0]),
            AuthenticationView::AuthenticationConfiguration(value) =>
                t == AuthenticationTask::AuthenticationConfiguration && value == AuthReturnValue::spec_from_u8(data[0]),
            AuthenticationView::VerifyCertificateBidirectional { .. } =>
                t == AuthenticationTask::VerifyCertificateBidirectional,
        },
{
    let algo = data.subrange(1, 17);
    if t == AuthenticationTask::VerifyCertificateUnidirectional {
        two_fields_prefix(data, 1);
        let (b1, o1) = spec_parse_field(data, 1)->Ok_0;
        let (b2, o2) = spec_parse_field(data, o1)->Ok_0;
        assert(data.subrange(0, 1) =~= seq![data[0]]);
        assert(data.subrange(0, o2).is_prefix_of(data));
        assert((seq![data[0]] + field_bytes(b1) + field_bytes(b2)) =~= data.subrange(0, o2));
    } else if t == AuthenticationTask::ProofOfOwnership {
        one_field_prefix(data, 1);
        let (b1, o1) = spec_parse_field(data, 1)->Ok_0;
        assert(data.subrange(0, 1) =~= seq![data[0]]);
        assert((seq![data[0]] + field_bytes(b1)) =~= data.subrange(0, o1));
    } else if t == AuthenticationTask::RequestChallengeForAuthentication
        || t == AuthenticationTask::VerifyProofOfOwnershipBidirectional {
        two_fields_prefix(data, 17);
        let (b1, o1) = spec_parse_field(data, 17)->Ok_0;
        let (b2, o2) = spec_parse_field(data, o1)->Ok_0;
        assert(data.subrange(0, 17) =~= seq![data[0]] + algo);
        assert((seq![data[0]] + algo + field_bytes(b1) + field_bytes(b2)) =~= data.subrange(0, o2));
    } else if t == AuthenticationTask::VerifyProofOfOwnershipUnidirectional {
        one_field_prefix(data, 17);
        let (b1, o1) = spec_parse_field(data, 17)->Ok_0;
        assert(data.subrange(0, 17) =~= seq![data[0]] + algo);
        assert((seq![data[0]] + algo + field_bytes(b1)) =~= data.subrange(0, o1));
    }
}

fn task_length(t: AuthenticationTask) -> (r: (usize, bool))
    ensures
        r == spec_task_length(t),
{
    match t {
        AuthenticationTask::DeAuthenticate => (1, true),
        AuthenticationTask::VerifyCertificateUnidirectional => (4, false),
        AuthenticationTask::VerifyCertificateBidirectional => (6, false),
        AuthenticationTask::ProofOfOwnership => (2, false),
        AuthenticationTask::TransmitCertificate => (1, true),
        AuthenticationTask::RequestChallengeForAuthentication => (ALGORITHM_INDICATOR_LENGTH + 4, false),
        AuthenticationTask::VerifyProofOfOwnershipUnidirectional => (ALGORITHM_INDICATOR_LENGTH + 4, false),
        AuthenticationTask::VerifyProofOfOwnershipBidirectional => (ALGORITHM_INDICATOR_LENGTH + 6, false),
        AuthenticationTask::AuthenticationConfiguration => (1, true),
    }
}

impl Authentication {
    /// Builds the positive response that carries `data`.
    pub fn new_response(data: &[u8], sub_func: Option<u8>, _cfg: &HashMap<u16, usize>) -> (r: Result<Response, Iso14229Error>)
        ensures
            response_result_view(r) == spec_positive(Service::Authentication, sub_func, data@, spec_check(data@, sub_func)),
    {
        match sub_func {
            Some(s) => {
                let task = AuthenticationTask::try_from(s)?;
                let (expect, equal) = task_length(task);
                data_length_check(data.len(), expect, equal)?;
            },
            None => return Err(Iso14229Error::SubFunctionError(Service::Authentication)),
        }
        Ok(Response::from_parts(Service::Authentication, false, sub_func, data))
    }

    /// Reads the return value and the fields of a response of this service.
    pub fn try_from(resp: &Response, _cfg: &HashMap<u16, usize>) -> (r: Result<Authentication, Iso14229Error>)
        requires
            resp@.data.len() <= isize::MAX,
        ensures
            resp@.service != Service::Authentication || resp@.sub_func is None
                ==> (r matches Err(e) && e@ == Iso14229ErrorView::ServiceError(resp@.service)),
            !(resp@.service != Service::Authentication || resp@.sub_func is None)
                ==> match AuthenticationTask::spec_from_u8(resp@.sub_func->0) {
                    Some(t) => match spec_parse(resp@.data, t) {
                        Ok(v) => r matches Ok(x) && x@ == v,
                        Err(e) => r matches Err(x) && x@ == e,
                    },
                    None => r is Err,
                },
    {
        resp.assert_ok();
        let service = resp.service();
        let sub = match resp.sub_function() {
            Some(s) => s,
            None => return Err(Iso14229Error::ServiceError(service)),
        };
        if service != Service::Authentication {
            return Err(Iso14229Error::ServiceError(service));
        }
        let task = AuthenticationTask::try_from(sub.function_byte())?;
        let data = resp.raw_data().as_slice();
        let data_len = data.len();
        let mut offset: usize = 0;
        let value = AuthReturnValue::from_u8(data[offset]);
        offset = offset + 1;
        match task {
            AuthenticationTask::DeAuthenticate => Ok(Authentication::DeAuthenticate(value)),
            AuthenticationTask::VerifyCertificateUnidirectional => {
                let challenge = parse_not_nullable(data, data_len, &mut offset)?;
                let ephemeral_public_key = parse_nullable(data, data_len, &mut offset)?;
                Ok(Authentication::VerifyCertificateUnidirectional { value, challenge, ephemeral_public_key })
            },
            AuthenticationTask::VerifyCertificateBidirectional => {
                let challenge = parse_not_nullable(data, data_len, &mut offset)?;
                let certificate = parse_not_nullable(data, data_len, &mut offset)?;
                let proof_of_ownership = parse_not_nullable(data, data_len, &mut offset)?;
                let ephemeral_public_key = parse_nullable(data, data_len, &mut offset)?;
                Ok(Authentication::VerifyCertificateBidirectional {
                    value,
                    challenge,
                    certificate,
                    proof_of_ownership,
                    ephemeral_public_key,
                })
            },
            AuthenticationTask::ProofOfOwnership => {
                let session_keyinfo = parse_nullable(data, data_len, &mut offset)?;
                Ok(Authentication::ProofOfOwnership { value, session_keyinfo })
            },
            AuthenticationTask::TransmitCertificate => Ok(Authentication::TransmitCertificate(value)),
            AuthenticationTask::RequestChallengeForAuthentication => {
                let algo_indicator = parse_algo_indicator(data, &mut offset);
                let challenge = parse_not_nullable(data, data_len, &mut offset)?;
                let additional = parse_nullable(data, data_len, &mut offset)?;
                Ok(Authentication::RequestChallengeForAuthentication { value, algo_indicator, challenge, additional })
            },
            AuthenticationTask::VerifyProofOfOwnershipUnidirectional => {
                let algo_indicator = parse_algo_indicator(data, &mut offset);
                let session_keyinfo = match parse_nullable(data, data_len, &mut offset) {
                    Ok(v) => v,
                    Err(_) => return Err(Iso14229Error::InvalidData(hex_encode(data))),
                };
                Ok(Authentication::VerifyProofOfOwnershipUnidirectional { value, algo_indicator, session_keyinfo })
            },
            AuthenticationTask::VerifyProofOfOwnershipBidirectional => {
                let algo_indicator = parse_algo_indicator(data, &mut offset);
                let proof_of_ownership = parse_not_nullable(data, data_len, &mut offset)?;
                let session_keyinfo = parse_nullable(data, data_len, &mut offset)?;
                Ok(Authentication::VerifyProofOfOwnershipBidirectional {
                    value,
                    algo_indicator,
                    proof_of_ownership,
                    session_keyinfo,
                })
            },
            AuthenticationTask::AuthenticationConfiguration => {
                data_length_check(data_len, 1, true)?;
                Ok(Authentication::AuthenticationConfiguration(value))
            },
        }
    }

    /// The return value, then the fields, each with its length first.
    pub fn to_bytes(self) -> (r: Vec<u8>)
        ensures
            r@ == spec_auth_bytes(self@),
    {
        let ghost v = self@;
        let mut result: Vec<u8> = Vec::new();
        match self {
            Authentication::DeAuthenticate(x) => result.push(x.to_u8()),
            Authentication::VerifyCertificateUnidirectional { value, challenge, ephemeral_public_key } => {
                result.push(value.to_u8());
                append_slice(&mut result, challenge.to_bytes().as_slice());
                append_slice(&mut result, ephemeral_public_key.to_bytes().as_slice());
            },
            Authentication::VerifyCertificateBidirectional {
                value,
                challenge,
                certificate,
                proof_of_ownership,
                ephemeral_public_key,
            } => {
                result.push(value.to_u8());
                append_slice(&mut result, challenge.to_bytes().as_slice());
                append_slice(&mut result, ephemeral_public_key.to_bytes().as_slice());
                append_slice(&mut result, certificate.to_bytes().as_slice());
                append_slice(&mut result, proof_of_ownership.to_bytes().as_slice());
            },
            Authentication::ProofOfOwnership { value, session_keyinfo } => {
                result.push(value.to_u8());
                append_slice(&mut result, session_keyinfo.to_bytes().as_slice());
            },
            Authentication::TransmitCertificate(x) => result.push(x.to_u8()),
            Authentication::RequestChallengeForAuthentication { value, algo_indicator, challenge, additional } => {
                result.push(value.to_u8());
                append_slice(&mut result, algo_indicator.to_bytes().as_slice());
                append_slice(&mut result, challenge.to_bytes().as_slice());
                append_slice(&mut result, additional.to_bytes().as_slice());
            },
            Authentication::VerifyProofOfOwnershipUnidirectional { value, algo_indicator, session_keyinfo } => {
                result.push(value.to_u8());
                append_slice(&mut result, algo_indicator.to_bytes().as_slice());
                append_slice(&mut result, session_keyinfo.to_bytes().as_slice());
            },
            Authentication::VerifyProofOfOwnershipBidirectional { value, algo_indicator, proof_of_ownership, session_keyinfo } => {
                result.push(value.to_u8());
                append_slice(&mut result, algo_indicator.to_bytes().as_slice());
                append_slice(&mut result, proof_of_ownership.to_bytes().as_slice());
                append_slice(&mut result, session_keyinfo.to_bytes().as_slice());
            },
            Authentication::AuthenticationConfiguration(x) => result.push(x.to_u8()),
        }
        assert(result@ =~= spec_auth_bytes(v));
        result
    }
}

} // verus!

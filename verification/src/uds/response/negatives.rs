//! The response codes that a negative response of each service may carry.

use vstd::prelude::*;
use crate::uds::code::Code;
use crate::uds::service::Service;

verus! {

/// The response codes that a negative response of `service` may carry
/// (ISO 14229-1:2020); none for a service whose responses this library does
/// not read.
pub open spec fn spec_negatives(service: Service) -> Seq<Code> {
    match service {
        Service::AccessTimingParam => seq![Code::SubFunctionNotSupported, Code::IncorrectMessageLengthOrInvalidFormat, Code::ConditionsNotCorrect, Code::RequestOutOfRange],
        Service::Authentication => seq![Code::SubFunctionNotSupported, Code::IncorrectMessageLengthOrInvalidFormat, Code::ConditionsNotCorrect, Code::RequestSequenceError, Code::CertificateVerificationFailedInvalidTimePeriod, Code::CertificateVerificationFailedInvalidSignature, Code::CertificateVerificationFailedInvalidChainOfTrust, Code::CertificateVerificationFailedInvalidType, Code::CertificateVerificationFailedInvalidFormat, Code::CertificateVerificationFailedInvalidContent, Code::CertificateVerificationFailedInvalidScope, Code::CertificateVerificationFailedInvalidCertificate, Code::OwnershipVerificationFailed, Code::ChallengeCalculationFailed, Code::SettingAccessRightsFailed, Code::SessionKeyCreationDerivationFailed, Code::ConfigurationDataUsageFailed, Code::DeAuthenticationFailed],
        Service::ClearDiagnosticInfo => seq![Code::IncorrectMessageLengthOrInvalidFormat, Code::ConditionsNotCorrect, Code::RequestOutOfRange, Code::GeneralProgrammingFailure],
        Service::CtrlDTCSetting => seq![Code::SubFunctionNotSupported, Code::IncorrectMessageLengthOrInvalidFormat, Code::ConditionsNotCorrect, Code::RequestOutOfRange],
        Service::DynamicalDefineDID => seq![Code::SubFunctionNotSupported, Code::IncorrectMessageLengthOrInvalidFormat, Code::ConditionsNotCorrect, Code::RequestOutOfRange, Code::SecurityAccessDenied],
        Service::ECUReset => seq![Code::SubFunctionNotSupported, Code::IncorrectMessageLengthOrInvalidFormat, Code::ConditionsNotCorrect, Code::RequestOutOfRange, Code::AuthenticationRequired],
        Service::IOCtrl => seq![Code::IncorrectMessageLengthOrInvalidFormat, Code::ConditionsNotCorrect, Code::RequestOutOfRange, Code::SecurityAccessDenied, Code::AuthenticationRequired],
        Service::LinkCtrl => seq![Code::SubFunctionNotSupported, Code::IncorrectMessageLengthOrInvalidFormat, Code::ConditionsNotCorrect, Code::RequestSequenceError, Code::RequestOutOfRange],
        Service::ReadDataByPeriodId => seq![Code::IncorrectMessageLengthOrInvalidFormat, Code::ConditionsNotCorrect, Code::RequestOutOfRange, Code::SecurityAccessDenied],
        Service::ReadDID => seq![Code::IncorrectMessageLengthOrInvalidFormat, Code::ResponseTooLong, Code::ConditionsNotCorrect, Code::RequestOutOfRange, Code::SecurityAccessDenied],
        Service::ReadMemByAddr => seq![Code::IncorrectMessageLengthOrInvalidFormat, Code::ResponseTooLong, Code::ConditionsNotCorrect, Code::RequestOutOfRange, Code::SecurityAccessDenied],
        Service::RequestTransferExit => seq![Code::IncorrectMessageLengthOrInvalidFormat, Code::RequestSequenceError, Code::RequestOutOfRange, Code::GeneralProgrammingFailure],
        Service::RequestUpload => seq![Code::IncorrectMessageLengthOrInvalidFormat, Code::ConditionsNotCorrect, Code::RequestOutOfRange, Code::SecurityAccessDenied, Code::AuthenticationRequired, Code::UploadDownloadNotAccepted],
        Service::ResponseOnEvent => seq![Code::SubFunctionNotSupported, Code::IncorrectMessageLengthOrInvalidFormat, Code::ConditionsNotCorrect, Code::RequestOutOfRange],
        Service::RoutineCtrl => seq![Code::SubFunctionNotSupported, Code::IncorrectMessageLengthOrInvalidFormat, Code::ConditionsNotCorrect, Code::RequestSequenceError, Code::RequestOutOfRange, Code::SecurityAccessDenied, Code::GeneralProgrammingFailure],
        Service::SecuredDataTrans => seq![Code::IncorrectMessageLengthOrInvalidFormat, Code::SecureDataVerificationFailed],
        Service::SecurityAccess => seq![Code::SubFunctionNotSupported, Code::IncorrectMessageLengthOrInvalidFormat, Code::ConditionsNotCorrect, Code::RequestSequenceError, Code::RequestOutOfRange, Code::InvalidKey, Code::ExceedNumberOfAttempts, Code::RequiredTimeDelayNotExpired],
        Service::SessionCtrl => seq![Code::SubFunctionNotSupported, Code::IncorrectMessageLengthOrInvalidFormat, Code::ConditionsNotCorrect],
        Service::TesterPresent => seq![Code::SubFunctionNotSupported, Code::IncorrectMessageLengthOrInvalidFormat],
        Service::TransferData => seq![Code::IncorrectMessageLengthOrInvalidFormat, Code::RequestSequenceError, Code::RequestOutOfRange, Code::TransferDataSuspended, Code::GeneralProgrammingFailure, Code::WrongBlockSequenceCounter, Code::VoltageTooHigh, Code::VoltageTooLow],
        Service::WriteDID => seq![Code::IncorrectMessageLengthOrInvalidFormat, Code::ConditionsNotCorrect, Code::RequestOutOfRange, Code::SecurityAccessDenied, Code::GeneralProgrammingFailure],
        Service::WriteMemByAddr => seq![Code::IncorrectMessageLengthOrInvalidFormat, Code::ConditionsNotCorrect, Code::RequestOutOfRange, Code::SecurityAccessDenied, Code::AuthenticationRequired, Code::GeneralProgrammingFailure],
        _ => Seq::empty(),
    }
}

/// The response codes that a negative response of `service` may carry.
pub fn negatives(service: Service) -> (r: Vec<Code>)
    ensures
        r@ == spec_negatives(service),
{
    match service {
        Service::AccessTimingParam => vec![Code::SubFunctionNotSupported, Code::IncorrectMessageLengthOrInvalidFormat, Code::ConditionsNotCorrect, Code::RequestOutOfRange],
        Service::Authentication => vec![Code::SubFunctionNotSupported, Code::IncorrectMessageLengthOrInvalidFormat, Code::ConditionsNotCorrect, Code::RequestSequenceError, Code::CertificateVerificationFailedInvalidTimePeriod, Code::CertificateVerificationFailedInvalidSignature, Code::CertificateVerificationFailedInvalidChainOfTrust, Code::CertificateVerificationFailedInvalidType, Code::CertificateVerificationFailedInvalidFormat, Code::CertificateVerificationFailedInvalidContent, Code::CertificateVerificationFailedInvalidScope, Code::CertificateVerificationFailedInvalidCertificate, Code::OwnershipVerificationFailed, Code::ChallengeCalculationFailed, Code::SettingAccessRightsFailed, Code::SessionKeyCreationDerivationFailed, Code::ConfigurationDataUsageFailed, Code::DeAuthenticationFailed],
        Service::ClearDiagnosticInfo => vec![Code::IncorrectMessageLengthOrInvalidFormat, Code::ConditionsNotCorrect, Code::RequestOutOfRange, Code::GeneralProgrammingFailure],
        Service::CtrlDTCSetting => vec![Code::SubFunctionNotSupported, Code::IncorrectMessageLengthOrInvalidFormat, Code::ConditionsNotCorrect, Code::RequestOutOfRange],
        Service::DynamicalDefineDID => vec![Code::SubFunctionNotSupported, Code::IncorrectMessageLengthOrInvalidFormat, Code::ConditionsNotCorrect, Code::RequestOutOfRange, Code::SecurityAccessDenied],
        Service::ECUReset => vec![Code::SubFunctionNotSupported, Code::IncorrectMessageLengthOrInvalidFormat, Code::ConditionsNotCorrect, Code::RequestOutOfRange, Code::AuthenticationRequired],
        Service::IOCtrl => vec![Code::IncorrectMessageLengthOrInvalidFormat, Code::ConditionsNotCorrect, Code::RequestOutOfRange, Code::SecurityAccessDenied, Code::AuthenticationRequired],
        Service::LinkCtrl => vec![Code::SubFunctionNotSupported, Code::IncorrectMessageLengthOrInvalidFormat, Code::ConditionsNotCorrect, Code::RequestSequenceError, Code::RequestOutOfRange],
        Service::ReadDataByPeriodId => vec![Code::IncorrectMessageLengthOrInvalidFormat, Code::ConditionsNotCorrect, Code::RequestOutOfRange, Code::SecurityAccessDenied],
        Service::ReadDID => vec![Code::IncorrectMessageLengthOrInvalidFormat, Code::ResponseTooLong, Code::ConditionsNotCorrect, Code::RequestOutOfRange, Code::SecurityAccessDenied],
        Service::ReadMemByAddr => vec![Code::IncorrectMessageLengthOrInvalidFormat, Code::ResponseTooLong, Code::ConditionsNotCorrect, Code::RequestOutOfRange, Code::SecurityAccessDenied],
        Service::RequestTransferExit => vec![Code::IncorrectMessageLengthOrInvalidFormat, Code::RequestSequenceError, Code::RequestOutOfRange, Code::GeneralProgrammingFailure],
        Service::RequestUpload => vec![Code::IncorrectMessageLengthOrInvalidFormat, Code::ConditionsNotCorrect, Code::RequestOutOfRange, Code::SecurityAccessDenied, Code::AuthenticationRequired, Code::UploadDownloadNotAccepted],
        Service::ResponseOnEvent => vec![Code::SubFunctionNotSupported, Code::IncorrectMessageLengthOrInvalidFormat, Code::ConditionsNotCorrect, Code::RequestOutOfRange],
        Service::RoutineCtrl => vec![Code::SubFunctionNotSupported, Code::IncorrectMessageLengthOrInvalidFormat, Code::ConditionsNotCorrect, Code::RequestSequenceError, Code::RequestOutOfRange, Code::SecurityAccessDenied, Code::GeneralProgrammingFailure],
        Service::SecuredDataTrans => vec![Code::IncorrectMessageLengthOrInvalidFormat, Code::SecureDataVerificationFailed],
        Service::SecurityAccess => vec![Code::SubFunctionNotSupported, Code::IncorrectMessageLengthOrInvalidFormat, Code::ConditionsNotCorrect, Code::RequestSequenceError, Code::RequestOutOfRange, Code::InvalidKey, Code::ExceedNumberOfAttempts, Code::RequiredTimeDelayNotExpired],
        Service::SessionCtrl => vec![Code::SubFunctionNotSupported, Code::IncorrectMessageLengthOrInvalidFormat, Code::ConditionsNotCorrect],
        Service::TesterPresent => vec![Code::SubFunctionNotSupported, Code::IncorrectMessageLengthOrInvalidFormat],
        Service::TransferData => vec![Code::IncorrectMessageLengthOrInvalidFormat, Code::RequestSequenceError, Code::RequestOutOfRange, Code::TransferDataSuspended, Code::GeneralProgrammingFailure, Code::WrongBlockSequenceCounter, Code::VoltageTooHigh, Code::VoltageTooLow],
        Service::WriteDID => vec![Code::IncorrectMessageLengthOrInvalidFormat, Code::ConditionsNotCorrect, Code::RequestOutOfRange, Code::SecurityAccessDenied, Code::GeneralProgrammingFailure],
        Service::WriteMemByAddr => vec![Code::IncorrectMessageLengthOrInvalidFormat, Code::ConditionsNotCorrect, Code::RequestOutOfRange, Code::SecurityAccessDenied, Code::AuthenticationRequired, Code::GeneralProgrammingFailure],
        _ => Vec::new(),
    }
}

} // verus!

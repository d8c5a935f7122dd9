//! Response codes of negative responses.

use vstd::prelude::*;

verus! {

/// Response code of a negative response (0x00 stands for positive).
#[derive(Debug, Copy, Clone, PartialEq, Eq, Structural)]
pub enum Code {
    Positive,
    GeneralReject,
    ServiceNotSupported,
    SubFunctionNotSupported,
    IncorrectMessageLengthOrInvalidFormat,
    ResponseTooLong,
    BusyRepeatRequest,
    ConditionsNotCorrect,
    RequestSequenceError,
    NoResponseFromSubnetComponent,
    FailurePreventsExecutionOfRequestedAction,
    RequestOutOfRange,
    SecurityAccessDenied,
    AuthenticationRequired,
    InvalidKey,
    ExceedNumberOfAttempts,
    RequiredTimeDelayNotExpired,
    SecureDataTransmissionRequired,
    SecureDataTransmissionNotAllowed,
    SecureDataVerificationFailed,
    CertificateVerificationFailedInvalidTimePeriod,
    CertificateVerificationFailedInvalidSignature,
    CertificateVerificationFailedInvalidChainOfTrust,
    CertificateVerificationFailedInvalidType,
    CertificateVerificationFailedInvalidFormat,
    CertificateVerificationFailedInvalidContent,
    CertificateVerificationFailedInvalidScope,
    CertificateVerificationFailedInvalidCertificate,
    OwnershipVerificationFailed,
    ChallengeCalculationFailed,
    SettingAccessRightsFailed,
    SessionKeyCreationDerivationFailed,
    ConfigurationDataUsageFailed,
    DeAuthenticationFailed,
    UploadDownloadNotAccepted,
    TransferDataSuspended,
    GeneralProgrammingFailure,
    WrongBlockSequenceCounter,
    RequestCorrectlyReceivedResponsePending,
    SubFunctionNotSupportedInActiveSession,
    ServiceNotSupportedInActiveSession,
    RpmTooHigh,
    RpmTooLow,
    EngineIsRunning,
    EngineIsNotRunning,
    EngineRunTimeTooLow,
    TemperatureTooHigh,
    TemperatureTooLow,
    VehicleSpeedTooHigh,
    VehicleSpeedTooLow,
    ThrottlePedalTooHigh,
    ThrottlePedalTooLow,
    TransmissionRangeNotInNeutral,
    TransmissionRangeNotInGear,
    BrakeSwitchNotClosed,
    ShifterLeverNotInPark,
    TorqueConverterClutchLocked,
    VoltageTooHigh,
    VoltageTooLow,
    ResourceTemporarilyNotAvailable,
    /// 0xF0 to 0xFE.
    VehicleManufacturerSpecific(u8),
    Reserved(u8),
}

impl Code {
    /// The code byte.
    pub open spec fn spec_to_u8(self) -> u8 {
        match self {
            Code::Positive => 0x00,
            Code::GeneralReject => 0x10,
            Code::ServiceNotSupported => 0x11,
            Code::SubFunctionNotSupported => 0x12,
            Code::IncorrectMessageLengthOrInvalidFormat => 0x13,
            Code::ResponseTooLong => 0x14,
            Code::BusyRepeatRequest => 0x21,
            Code::ConditionsNotCorrect => 0x22,
            Code::RequestSequenceError => 0x24,
            Code::NoResponseFromSubnetComponent => 0x25,
            Code::FailurePreventsExecutionOfRequestedAction => 0x26,
            Code::RequestOutOfRange => 0x31,
            Code::SecurityAccessDenied => 0x33,
            Code::AuthenticationRequired => 0x34,
            Code::InvalidKey => 0x35,
            Code::ExceedNumberOfAttempts => 0x36,
            Code::RequiredTimeDelayNotExpired => 0x37,
            Code::SecureDataTransmissionRequired => 0x38,
            Code::SecureDataTransmissionNotAllowed => 0x39,
            Code::SecureDataVerificationFailed => 0x3A,
            Code::CertificateVerificationFailedInvalidTimePeriod => 0x50,
            Code::CertificateVerificationFailedInvalidSignature => 0x51,
            Code::CertificateVerificationFailedInvalidChainOfTrust => 0x52,
            Code::CertificateVerificationFailedInvalidType => 0x53,
            Code::CertificateVerificationFailedInvalidFormat => 0x54,
            Code::CertificateVerificationFailedInvalidContent => 0x55,
            Code::CertificateVerificationFailedInvalidScope => 0x56,
            Code::CertificateVerificationFailedInvalidCertificate => 0x57,
            Code::OwnershipVerificationFailed => 0x58,
            Code::ChallengeCalculationFailed => 0x59,
            Code::SettingAccessRightsFailed => 0x5A,
            Code::SessionKeyCreationDerivationFailed => 0x5B,
            Code::ConfigurationDataUsageFailed => 0x5C,
            Code::DeAuthenticationFailed => 0x5D,
            Code::UploadDownloadNotAccepted => 0x70,
            Code::TransferDataSuspended => 0x71,
            Code::GeneralProgrammingFailure => 0x72,
            Code::WrongBlockSequenceCounter => 0x73,
            Code::RequestCorrectlyReceivedResponsePending => 0x78,
            Code::SubFunctionNotSupportedInActiveSession => 0x7E,
            Code::ServiceNotSupportedInActiveSession => 0x7F,
            Code::RpmTooHigh => 0x81,
            Code::RpmTooLow => 0x82,
            Code::EngineIsRunning => 0x83,
            Code::EngineIsNotRunning => 0x84,
            Code::EngineRunTimeTooLow => 0x85,
            Code::TemperatureTooHigh => 0x86,
            Code::TemperatureTooLow => 0x87,
            Code::VehicleSpeedTooHigh => 0x88,
            Code::VehicleSpeedTooLow => 0x89,
            Code::ThrottlePedalTooHigh => 0x8A,
            Code::ThrottlePedalTooLow => 0x8B,
            Code::TransmissionRangeNotInNeutral => 0x8C,
            Code::TransmissionRangeNotInGear => 0x8D,
            Code::BrakeSwitchNotClosed => 0x8F,
            Code::ShifterLeverNotInPark => 0x90,
            Code::TorqueConverterClutchLocked => 0x91,
            Code::VoltageTooHigh => 0x92,
            Code::VoltageTooLow => 0x93,
            Code::ResourceTemporarilyNotAvailable => 0x94,
            Code::VehicleManufacturerSpecific(v) => v,
            Code::Reserved(v) => v,
        }
    }

    /// The code a byte stands for.
    pub open spec fn spec_from_u8(v: u8) -> Code {
        if v == 0x00 { Code::Positive } else
        if v == 0x10 { Code::GeneralReject } else
        if v == 0x11 { Code::ServiceNotSupported } else
        if v == 0x12 { Code::SubFunctionNotSupported } else
        if v == 0x13 { Code::IncorrectMessageLengthOrInvalidFormat } else
        if v == 0x14 { Code::ResponseTooLong } else
        if v == 0x21 { Code::BusyRepeatRequest } else
        if v == 0x22 { Code::ConditionsNotCorrect } else
        if v == 0x24 { Code::RequestSequenceError } else
        if v == 0x25 { Code::NoResponseFromSubnetComponent } else
        if v == 0x26 { Code::FailurePreventsExecutionOfRequestedAction } else
        if v == 0x31 { Code::RequestOutOfRange } else
        if v == 0x33 { Code::SecurityAccessDenied } else
        if v == 0x34 { Code::AuthenticationRequired } else
        if v == 0x35 { Code::InvalidKey } else
        if v == 0x36 { Code::ExceedNumberOfAttempts } else
        if v == 0x37 { Code::RequiredTimeDelayNotExpired } else
        if v == 0x38 { Code::SecureDataTransmissionRequired } else
        if v == 0x39 { Code::SecureDataTransmissionNotAllowed } else
        if v == 0x3A { Code::SecureDataVerificationFailed } else
        if v == 0x50 { Code::CertificateVerificationFailedInvalidTimePeriod } else
        if v == 0x51 { Code::CertificateVerificationFailedInvalidSignature } else
        if v == 0x52 { Code::CertificateVerificationFailedInvalidChainOfTrust } else
        if v == 0x53 { Code::CertificateVerificationFailedInvalidType } else
        if v == 0x54 { Code::CertificateVerificationFailedInvalidFormat } else
        if v == 0x55 { Code::CertificateVerificationFailedInvalidContent } else
        if v == 0x56 { Code::CertificateVerificationFailedInvalidScope } else
        if v == 0x57 { Code::CertificateVerificationFailedInvalidCertificate } else
        if v == 0x58 { Code::OwnershipVerificationFailed } else
        if v == 0x59 { Code::ChallengeCalculationFailed } else
        if v == 0x5A { Code::SettingAccessRightsFailed } else
        if v == 0x5B { Code::SessionKeyCreationDerivationFailed } else
        if v == 0x5C { Code::ConfigurationDataUsageFailed } else
        if v == 0x5D { Code::DeAuthenticationFailed } else
        if v == 0x70 { Code::UploadDownloadNotAccepted } else
        if v == 0x71 { Code::TransferDataSuspended } else
        if v == 0x72 { Code::GeneralProgrammingFailure } else
        if v == 0x73 { Code::WrongBlockSequenceCounter } else
        if v == 0x78 { Code::RequestCorrectlyReceivedResponsePending } else
        if v == 0x7E { Code::SubFunctionNotSupportedInActiveSession } else
        if v == 0x7F { Code::ServiceNotSupportedInActiveSession } else
        if v == 0x81 { Code::RpmTooHigh } else
        if v == 0x82 { Code::RpmTooLow } else
        if v == 0x83 { Code::EngineIsRunning } else
        if v == 0x84 { Code::EngineIsNotRunning } else
        if v == 0x85 { Code::EngineRunTimeTooLow } else
        if v == 0x86 { Code::TemperatureTooHigh } else
        if v == 0x87 { Code::TemperatureTooLow } else
        if v == 0x88 { Code::VehicleSpeedTooHigh } else
        if v == 0x89 { Code::VehicleSpeedTooLow } else
        if v == 0x8A { Code::ThrottlePedalTooHigh } else
        if v == 0x8B { Code::ThrottlePedalTooLow } else
        if v == 0x8C { Code::TransmissionRangeNotInNeutral } else
        if v == 0x8D { Code::TransmissionRangeNotInGear } else
        if v == 0x8F { Code::BrakeSwitchNotClosed } else
        if v == 0x90 { Code::ShifterLeverNotInPark } else
        if v == 0x91 { Code::TorqueConverterClutchLocked } else
        if v == 0x92 { Code::VoltageTooHigh } else
        if v == 0x93 { Code::VoltageTooLow } else
        if v == 0x94 { Code::ResourceTemporarilyNotAvailable } else if 0xF0 <= v <= 0xFE {
            Code::VehicleManufacturerSpecific(v)
        } else {
            Code::Reserved(v)
        }
    }

    /// Codes as decoding produces them: manufacturer-specific ones within
    /// 0xF0..=0xFE, reserved ones outside it and away from the named values.
    pub open spec fn wf(self) -> bool {
        match self {
            Code::VehicleManufacturerSpecific(v) => 0xF0 <= v <= 0xFE,
            Code::Reserved(v) => Code::spec_from_u8(v) == Code::Reserved(v),
            _ => true,
        }
    }

    /// Reads a code byte.
    pub fn from_u8(v: u8) -> (r: Code)
        ensures
            r == Code::spec_from_u8(v),
    {
        match v {
            0x00 => Code::Positive,
            0x10 => Code::GeneralReject,
            0x11 => Code::ServiceNotSupported,
            0x12 => Code::SubFunctionNotSupported,
            0x13 => Code::IncorrectMessageLengthOrInvalidFormat,
            0x14 => Code::ResponseTooLong,
            0x21 => Code::BusyRepeatRequest,
            0x22 => Code::ConditionsNotCorrect,
            0x24 => Code::RequestSequenceError,
            0x25 => Code::NoResponseFromSubnetComponent,
            0x26 => Code::FailurePreventsExecutionOfRequestedAction,
            0x31 => Code::RequestOutOfRange,
            0x33 => Code::SecurityAccessDenied,
            0x34 => Code::AuthenticationRequired,
            0x35 => Code::InvalidKey,
            0x36 => Code::ExceedNumberOfAttempts,
            0x37 => Code::RequiredTimeDelayNotExpired,
            0x38 => Code::SecureDataTransmissionRequired,
            0x39 => Code::SecureDataTransmissionNotAllowed,
            0x3A => Code::SecureDataVerificationFailed,
            0x50 => Code::CertificateVerificationFailedInvalidTimePeriod,
            0x51 => Code::CertificateVerificationFailedInvalidSignature,
            0x52 => Code::CertificateVerificationFailedInvalidChainOfTrust,
            0x53 => Code::CertificateVerificationFailedInvalidType,
            0x54 => Code::CertificateVerificationFailedInvalidFormat,
            0x55 => Code::CertificateVerificationFailedInvalidContent,
            0x56 => Code::CertificateVerificationFailedInvalidScope,
            0x57 => Code::CertificateVerificationFailedInvalidCertificate,
            0x58 => Code::OwnershipVerificationFailed,
            0x59 => Code::ChallengeCalculationFailed,
            0x5A => Code::SettingAccessRightsFailed,
            0x5B => Code::SessionKeyCreationDerivationFailed,
            0x5C => Code::ConfigurationDataUsageFailed,
            0x5D => Code::DeAuthenticationFailed,
            0x70 => Code::UploadDownloadNotAccepted,
            0x71 => Code::TransferDataSuspended,
            0x72 => Code::GeneralProgrammingFailure,
            0x73 => Code::WrongBlockSequenceCounter,
            0x78 => Code::RequestCorrectlyReceivedResponsePending,
            0x7E => Code::SubFunctionNotSupportedInActiveSession,
            0x7F => Code::ServiceNotSupportedInActiveSession,
            0x81 => Code::RpmTooHigh,
            0x82 => Code::RpmTooLow,
            0x83 => Code::EngineIsRunning,
            0x84 => Code::EngineIsNotRunning,
            0x85 => Code::EngineRunTimeTooLow,
            0x86 => Code::TemperatureTooHigh,
            0x87 => Code::TemperatureTooLow,
            0x88 => Code::VehicleSpeedTooHigh,
            0x89 => Code::VehicleSpeedTooLow,
            0x8A => Code::ThrottlePedalTooHigh,
            0x8B => Code::ThrottlePedalTooLow,
            0x8C => Code::TransmissionRangeNotInNeutral,
            0x8D => Code::TransmissionRangeNotInGear,
            0x8F => Code::BrakeSwitchNotClosed,
            0x90 => Code::ShifterLeverNotInPark,
            0x91 => Code::TorqueConverterClutchLocked,
            0x92 => Code::VoltageTooHigh,
            0x93 => Code::VoltageTooLow,
            0x94 => Code::ResourceTemporarilyNotAvailable,
            0xF0..=0xFE => Code::VehicleManufacturerSpecific(v),
            _ => Code::Reserved(v),
        }
    }

    /// The code byte.
    pub fn to_u8(self) -> (r: u8)
        ensures
            r == self.spec_to_u8(),
    {
        match self {
            Code::Positive => 0x00,
            Code::GeneralReject => 0x10,
            Code::ServiceNotSupported => 0x11,
            Code::SubFunctionNotSupported => 0x12,
            Code::IncorrectMessageLengthOrInvalidFormat => 0x13,
            Code::ResponseTooLong => 0x14,
            Code::BusyRepeatRequest => 0x21,
            Code::ConditionsNotCorrect => 0x22,
            Code::RequestSequenceError => 0x24,
            Code::NoResponseFromSubnetComponent => 0x25,
            Code::FailurePreventsExecutionOfRequestedAction => 0x26,
            Code::RequestOutOfRange => 0x31,
            Code::SecurityAccessDenied => 0x33,
            Code::AuthenticationRequired => 0x34,
            Code::InvalidKey => 0x35,
            Code::ExceedNumberOfAttempts => 0x36,
            Code::RequiredTimeDelayNotExpired => 0x37,
            Code::SecureDataTransmissionRequired => 0x38,
            Code::SecureDataTransmissionNotAllowed => 0x39,
            Code::SecureDataVerificationFailed => 0x3A,
            Code::CertificateVerificationFailedInvalidTimePeriod => 0x50,
            Code::CertificateVerificationFailedInvalidSignature => 0x51,
            Code::CertificateVerificationFailedInvalidChainOfTrust => 0x52,
            Code::CertificateVerificationFailedInvalidType => 0x53,
            Code::CertificateVerificationFailedInvalidFormat => 0x54,
            Code::CertificateVerificationFailedInvalidContent => 0x55,
            Code::CertificateVerificationFailedInvalidScope => 0x56,
            Code::CertificateVerificationFailedInvalidCertificate => 0x57,
            Code::OwnershipVerificationFailed => 0x58,
            Code::ChallengeCalculationFailed => 0x59,
            Code::SettingAccessRightsFailed => 0x5A,
            Code::SessionKeyCreationDerivationFailed => 0x5B,
            Code::ConfigurationDataUsageFailed => 0x5C,
            Code::DeAuthenticationFailed => 0x5D,
            Code::UploadDownloadNotAccepted => 0x70,
            Code::TransferDataSuspended => 0x71,
            Code::GeneralProgrammingFailure => 0x72,
            Code::WrongBlockSequenceCounter => 0x73,
            Code::RequestCorrectlyReceivedResponsePending => 0x78,
            Code::SubFunctionNotSupportedInActiveSession => 0x7E,
            Code::ServiceNotSupportedInActiveSession => 0x7F,
            Code::RpmTooHigh => 0x81,
            Code::RpmTooLow => 0x82,
            Code::EngineIsRunning => 0x83,
            Code::EngineIsNotRunning => 0x84,
            Code::EngineRunTimeTooLow => 0x85,
            Code::TemperatureTooHigh => 0x86,
            Code::TemperatureTooLow => 0x87,
            Code::VehicleSpeedTooHigh => 0x88,
            Code::VehicleSpeedTooLow => 0x89,
            Code::ThrottlePedalTooHigh => 0x8A,
            Code::ThrottlePedalTooLow => 0x8B,
            Code::TransmissionRangeNotInNeutral => 0x8C,
            Code::TransmissionRangeNotInGear => 0x8D,
            Code::BrakeSwitchNotClosed => 0x8F,
            Code::ShifterLeverNotInPark => 0x90,
            Code::TorqueConverterClutchLocked => 0x91,
            Code::VoltageTooHigh => 0x92,
            Code::VoltageTooLow => 0x93,
            Code::ResourceTemporarilyNotAvailable => 0x94,
            Code::VehicleManufacturerSpecific(v) => v,
            Code::Reserved(v) => v,
        }
    }
}

/// Decoding then encoding a code byte gives it back.
pub proof fn code_byte_roundtrip(v: u8)
    ensures
        Code::spec_from_u8(v).spec_to_u8() == v,
        Code::spec_from_u8(v).wf(),
{
}

/// Encoding then decoding a well-formed code gives it back.
pub proof fn code_value_roundtrip(c: Code)
    requires
        c.wf(),
    ensures
        Code::spec_from_u8(c.spec_to_u8()) == c,
{
}


/// The response codes of ISO 14229-1: each named code and the byte that
/// stands for it, read and written; 0xF0 to 0xFE are manufacturer specific
/// and every other byte is reserved.
pub proof fn code_table(v: u8)
    ensures
        Code::spec_from_u8(0x00) == Code::Positive,
        Code::spec_from_u8(0x10) == Code::GeneralReject,
        Code::spec_from_u8(0x11) == Code::ServiceNotSupported,
        Code::spec_from_u8(0x12) == Code::SubFunctionNotSupported,
        Code::spec_from_u8(0x13) == Code::IncorrectMessageLengthOrInvalidFormat,
        Code::spec_from_u8(0x14) == Code::ResponseTooLong,
        Code::spec_from_u8(0x21) == Code::BusyRepeatRequest,
        Code::spec_from_u8(0x22) == Code::ConditionsNotCorrect,
        Code::spec_from_u8(0x24) == Code::RequestSequenceError,
        Code::spec_from_u8(0x25) == Code::NoResponseFromSubnetComponent,
        Code::spec_from_u8(0x26) == Code::FailurePreventsExecutionOfRequestedAction,
        Code::spec_from_u8(0x31) == Code::RequestOutOfRange,
        Code::spec_from_u8(0x33) == Code::SecurityAccessDenied,
        Code::spec_from_u8(0x34) == Code::AuthenticationRequired,
        Code::spec_from_u8(0x35) == Code::InvalidKey,
        Code::spec_from_u8(0x36) == Code::ExceedNumberOfAttempts,
        Code::spec_from_u8(0x37) == Code::RequiredTimeDelayNotExpired,
        Code::spec_from_u8(0x38) == Code::SecureDataTransmissionRequired,
        Code::spec_from_u8(0x39) == Code::SecureDataTransmissionNotAllowed,
        Code::spec_from_u8(0x3A) == Code::SecureDataVerificationFailed,
        Code::spec_from_u8(0x50) == Code::CertificateVerificationFailedInvalidTimePeriod,
        Code::spec_from_u8(0x51) == Code::CertificateVerificationFailedInvalidSignature,
        Code::spec_from_u8(0x52) == Code::CertificateVerificationFailedInvalidChainOfTrust,
        Code::spec_from_u8(0x53) == Code::CertificateVerificationFailedInvalidType,
        Code::spec_from_u8(0x54) == Code::CertificateVerificationFailedInvalidFormat,
        Code::spec_from_u8(0x55) == Code::CertificateVerificationFailedInvalidContent,
        Code::spec_from_u8(0x56) == Code::CertificateVerificationFailedInvalidScope,
        Code::spec_from_u8(0x57) == Code::CertificateVerificationFailedInvalidCertificate,
        Code::spec_from_u8(0x58) == Code::OwnershipVerificationFailed,
        Code::spec_from_u8(0x59) == Code::ChallengeCalculationFailed,
        Code::spec_from_u8(0x5A) == Code::SettingAccessRightsFailed,
        Code::spec_from_u8(0x5B) == Code::SessionKeyCreationDerivationFailed,
        Code::spec_from_u8(0x5C) == Code::ConfigurationDataUsageFailed,
        Code::spec_from_u8(0x5D) == Code::DeAuthenticationFailed,
        Code::spec_from_u8(0x70) == Code::UploadDownloadNotAccepted,
        Code::spec_from_u8(0x71) == Code::TransferDataSuspended,
        Code::spec_from_u8(0x72) == Code::GeneralProgrammingFailure,
        Code::spec_from_u8(0x73) == Code::WrongBlockSequenceCounter,
        Code::spec_from_u8(0x78) == Code::RequestCorrectlyReceivedResponsePending,
        Code::spec_from_u8(0x7E) == Code::SubFunctionNotSupportedInActiveSession,
        Code::spec_from_u8(0x7F) == Code::ServiceNotSupportedInActiveSession,
        Code::spec_from_u8(0x81) == Code::RpmTooHigh,
        Code::spec_from_u8(0x82) == Code::RpmTooLow,
        Code::spec_from_u8(0x83) == Code::EngineIsRunning,
        Code::spec_from_u8(0x84) == Code::EngineIsNotRunning,
        Code::spec_from_u8(0x85) == Code::EngineRunTimeTooLow,
        Code::spec_from_u8(0x86) == Code::TemperatureTooHigh,
        Code::spec_from_u8(0x87) == Code::TemperatureTooLow,
        Code::spec_from_u8(0x88) == Code::VehicleSpeedTooHigh,
        Code::spec_from_u8(0x89) == Code::VehicleSpeedTooLow,
        Code::spec_from_u8(0x8A) == Code::ThrottlePedalTooHigh,
        Code::spec_from_u8(0x8B) == Code::ThrottlePedalTooLow,
        Code::spec_from_u8(0x8C) == Code::TransmissionRangeNotInNeutral,
        Code::spec_from_u8(0x8D) == Code::TransmissionRangeNotInGear,
        Code::spec_from_u8(0x8F) == Code::BrakeSwitchNotClosed,
        Code::spec_from_u8(0x90) == Code::ShifterLeverNotInPark,
        Code::spec_from_u8(0x91) == Code::TorqueConverterClutchLocked,
        Code::spec_from_u8(0x92) == Code::VoltageTooHigh,
        Code::spec_from_u8(0x93) == Code::VoltageTooLow,
        Code::spec_from_u8(0x94) == Code::ResourceTemporarilyNotAvailable,
        Code::Positive.spec_to_u8() == 0x00,
        Code::GeneralReject.spec_to_u8() == 0x10,
        Code::ServiceNotSupported.spec_to_u8() == 0x11,
        Code::SubFunctionNotSupported.spec_to_u8() == 0x12,
        Code::IncorrectMessageLengthOrInvalidFormat.spec_to_u8() == 0x13,
        Code::ResponseTooLong.spec_to_u8() == 0x14,
        Code::BusyRepeatRequest.spec_to_u8() == 0x21,
        Code::ConditionsNotCorrect.spec_to_u8() == 0x22,
        Code::RequestSequenceError.spec_to_u8() == 0x24,
        Code::NoResponseFromSubnetComponent.spec_to_u8() == 0x25,
        Code::FailurePreventsExecutionOfRequestedAction.spec_to_u8() == 0x26,
        Code::RequestOutOfRange.spec_to_u8() == 0x31,
        Code::SecurityAccessDenied.spec_to_u8() == 0x33,
        Code::AuthenticationRequired.spec_to_u8() == 0x34,
        Code::InvalidKey.spec_to_u8() == 0x35,
        Code::ExceedNumberOfAttempts.spec_to_u8() == 0x36,
        Code::RequiredTimeDelayNotExpired.spec_to_u8() == 0x37,
        Code::SecureDataTransmissionRequired.spec_to_u8() == 0x38,
        Code::SecureDataTransmissionNotAllowed.spec_to_u8() == 0x39,
        Code::SecureDataVerificationFailed.spec_to_u8() == 0x3A,
        Code::CertificateVerificationFailedInvalidTimePeriod.spec_to_u8() == 0x50,
        Code::CertificateVerificationFailedInvalidSignature.spec_to_u8() == 0x51,
        Code::CertificateVerificationFailedInvalidChainOfTrust.spec_to_u8() == 0x52,
        Code::CertificateVerificationFailedInvalidType.spec_to_u8() == 0x53,
        Code::CertificateVerificationFailedInvalidFormat.spec_to_u8() == 0x54,
        Code::CertificateVerificationFailedInvalidContent.spec_to_u8() == 0x55,
        Code::CertificateVerificationFailedInvalidScope.spec_to_u8() == 0x56,
        Code::CertificateVerificationFailedInvalidCertificate.spec_to_u8() == 0x57,
        Code::OwnershipVerificationFailed.spec_to_u8() == 0x58,
        Code::ChallengeCalculationFailed.spec_to_u8() == 0x59,
        Code::SettingAccessRightsFailed.spec_to_u8() == 0x5A,
        Code::SessionKeyCreationDerivationFailed.spec_to_u8() == 0x5B,
        Code::ConfigurationDataUsageFailed.spec_to_u8() == 0x5C,
        Code::DeAuthenticationFailed.spec_to_u8() == 0x5D,
        Code::UploadDownloadNotAccepted.spec_to_u8() == 0x70,
        Code::TransferDataSuspended.spec_to_u8() == 0x71,
        Code::GeneralProgrammingFailure.spec_to_u8() == 0x72,
        Code::WrongBlockSequenceCounter.spec_to_u8() == 0x73,
        Code::RequestCorrectlyReceivedResponsePending.spec_to_u8() == 0x78,
        Code::SubFunctionNotSupportedInActiveSession.spec_to_u8() == 0x7E,
        Code::ServiceNotSupportedInActiveSession.spec_to_u8() == 0x7F,
        Code::RpmTooHigh.spec_to_u8() == 0x81,
        Code::RpmTooLow.spec_to_u8() == 0x82,
        Code::EngineIsRunning.spec_to_u8() == 0x83,
        Code::EngineIsNotRunning.spec_to_u8() == 0x84,
        Code::EngineRunTimeTooLow.spec_to_u8() == 0x85,
        Code::TemperatureTooHigh.spec_to_u8() == 0x86,
        Code::TemperatureTooLow.spec_to_u8() == 0x87,
        Code::VehicleSpeedTooHigh.spec_to_u8() == 0x88,
        Code::VehicleSpeedTooLow.spec_to_u8() == 0x89,
        Code::ThrottlePedalTooHigh.spec_to_u8() == 0x8A,
        Code::ThrottlePedalTooLow.spec_to_u8() == 0x8B,
        Code::TransmissionRangeNotInNeutral.spec_to_u8() == 0x8C,
        Code::TransmissionRangeNotInGear.spec_to_u8() == 0x8D,
        Code::BrakeSwitchNotClosed.spec_to_u8() == 0x8F,
        Code::ShifterLeverNotInPark.spec_to_u8() == 0x90,
        Code::TorqueConverterClutchLocked.spec_to_u8() == 0x91,
        Code::VoltageTooHigh.spec_to_u8() == 0x92,
        Code::VoltageTooLow.spec_to_u8() == 0x93,
        Code::ResourceTemporarilyNotAvailable.spec_to_u8() == 0x94,
        0xF0 <= v <= 0xFE ==> Code::spec_from_u8(v) == Code::VehicleManufacturerSpecific(v),
        !(0xF0 <= v <= 0xFE) && !(v == 0x00 || v == 0x10 || v == 0x11 || v == 0x12 || v == 0x13 || v == 0x14 || v == 0x21 || v == 0x22 || v == 0x24 || v == 0x25 || v == 0x26 || v == 0x31 || v == 0x33 || v == 0x34 || v == 0x35 || v == 0x36 || v == 0x37 || v == 0x38 || v == 0x39 || v == 0x3A || v == 0x50 || v == 0x51 || v == 0x52 || v == 0x53 || v == 0x54 || v == 0x55 || v == 0x56 || v == 0x57 || v == 0x58 || v == 0x59 || v == 0x5A || v == 0x5B || v == 0x5C || v == 0x5D || v == 0x70 || v == 0x71 || v == 0x72 || v == 0x73 || v == 0x78 || v == 0x7E || v == 0x7F || v == 0x81 || v == 0x82 || v == 0x83 || v == 0x84 || v == 0x85 || v == 0x86 || v == 0x87 || v == 0x88 || v == 0x89 || v == 0x8A || v == 0x8B || v == 0x8C || v == 0x8D || v == 0x8F || v == 0x90 || v == 0x91 || v == 0x92 || v == 0x93 || v == 0x94) ==> Code::spec_from_u8(v) == Code::Reserved(v),
{
}

} // verus!

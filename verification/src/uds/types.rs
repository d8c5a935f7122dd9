//! Typed values of UDS sub-functions and parameters.

use vstd::prelude::*;
use crate::uds::error::Iso14229Error;

verus! {

/// Diagnostic session type (sub-function of service 0x10).
#[derive(Debug, Copy, Clone, PartialEq, Eq, Structural)]
pub enum SessionType {
    Default,
    Programming,
    Extended,
    SafetySystemDiagnostic,
    /// 0x40 to 0x5F.
    VehicleManufacturerSpecific(u8),
    /// 0x60 to 0x7E.
    SystemSupplierSpecific(u8),
}

impl SessionType {
    pub open spec fn spec_to_u8(self) -> u8 {
        match self {
            SessionType::Default => 0x01,
            SessionType::Programming => 0x02,
            SessionType::Extended => 0x03,
            SessionType::SafetySystemDiagnostic => 0x04,
            SessionType::VehicleManufacturerSpecific(v) => v,
            SessionType::SystemSupplierSpecific(v) => v,
        }
    }

    /// The value a byte stands for; `None` for a reserved byte.
    pub open spec fn spec_from_u8(v: u8) -> Option<SessionType> {
        if v == 0x01 { Some(SessionType::Default) } else if v == 0x02 { Some(SessionType::Programming) } else if v == 0x03 { Some(SessionType::Extended) } else if v == 0x04 { Some(SessionType::SafetySystemDiagnostic) } else if 0x40 <= v <= 0x5F { Some(SessionType::VehicleManufacturerSpecific(v)) } else if 0x60 <= v <= 0x7E { Some(SessionType::SystemSupplierSpecific(v)) } else { None }
    }

    pub fn to_u8(self) -> (r: u8)
        ensures
            r == self.spec_to_u8(),
    {
        match self {
            SessionType::Default => 0x01,
            SessionType::Programming => 0x02,
            SessionType::Extended => 0x03,
            SessionType::SafetySystemDiagnostic => 0x04,
            SessionType::VehicleManufacturerSpecific(v) => v,
            SessionType::SystemSupplierSpecific(v) => v,
        }
    }

    /// Reads a byte; a reserved one is refused with `ReservedError`.
    pub fn try_from(v: u8) -> (r: Result<SessionType, Iso14229Error>)
        ensures
            match SessionType::spec_from_u8(v) {
                Some(t) => r matches Ok(x) && x == t,
                None => r matches Err(Iso14229Error::ReservedError(b)) && b == v,
            },
    {
        match v {
            0x01 => Ok(SessionType::Default),
            0x02 => Ok(SessionType::Programming),
            0x03 => Ok(SessionType::Extended),
            0x04 => Ok(SessionType::SafetySystemDiagnostic),
            0x40..=0x5F => Ok(SessionType::VehicleManufacturerSpecific(v)),
            0x60..=0x7E => Ok(SessionType::SystemSupplierSpecific(v)),
            _ => Err(Iso14229Error::ReservedError(v)),
        }
    }
}

/// Reset type (sub-function of service 0x11).
#[derive(Debug, Copy, Clone, PartialEq, Eq, Structural)]
pub enum ECUResetType {
    HardReset,
    KeyOffOnReset,
    SoftReset,
    EnableRapidPowerShutDown,
    DisableRapidPowerShutDown,
    /// 0x40 to 0x5F.
    VehicleManufacturerSpecific(u8),
    /// 0x60 to 0x7E.
    SystemSupplierSpecific(u8),
}

impl ECUResetType {
    pub open spec fn spec_to_u8(self) -> u8 {
        match self {
            ECUResetType::HardReset => 0x01,
            ECUResetType::KeyOffOnReset => 0x02,
            ECUResetType::SoftReset => 0x03,
            ECUResetType::EnableRapidPowerShutDown => 0x04,
            ECUResetType::DisableRapidPowerShutDown => 0x05,
            ECUResetType::VehicleManufacturerSpecific(v) => v,
            ECUResetType::SystemSupplierSpecific(v) => v,
        }
    }

    /// The value a byte stands for; `None` for a reserved byte.
    pub open spec fn spec_from_u8(v: u8) -> Option<ECUResetType> {
        if v == 0x01 { Some(ECUResetType::HardReset) } else if v == 0x02 { Some(ECUResetType::KeyOffOnReset) } else if v == 0x03 { Some(ECUResetType::SoftReset) } else if v == 0x04 { Some(ECUResetType::EnableRapidPowerShutDown) } else if v == 0x05 { Some(ECUResetType::DisableRapidPowerShutDown) } else if 0x40 <= v <= 0x5F { Some(ECUResetType::VehicleManufacturerSpecific(v)) } else if 0x60 <= v <= 0x7E { Some(ECUResetType::SystemSupplierSpecific(v)) } else { None }
    }

    pub fn to_u8(self) -> (r: u8)
        ensures
            r == self.spec_to_u8(),
    {
        match self {
            ECUResetType::HardReset => 0x01,
            ECUResetType::KeyOffOnReset => 0x02,
            ECUResetType::SoftReset => 0x03,
            ECUResetType::EnableRapidPowerShutDown => 0x04,
            ECUResetType::DisableRapidPowerShutDown => 0x05,
            ECUResetType::VehicleManufacturerSpecific(v) => v,
            ECUResetType::SystemSupplierSpecific(v) => v,
        }
    }

    /// Reads a byte; a reserved one is refused with `ReservedError`.
    pub fn try_from(v: u8) -> (r: Result<ECUResetType, Iso14229Error>)
        ensures
            match ECUResetType::spec_from_u8(v) {
                Some(t) => r matches Ok(x) && x == t,
                None => r matches Err(Iso14229Error::ReservedError(b)) && b == v,
            },
    {
        match v {
            0x01 => Ok(ECUResetType::HardReset),
            0x02 => Ok(ECUResetType::KeyOffOnReset),
            0x03 => Ok(ECUResetType::SoftReset),
            0x04 => Ok(ECUResetType::EnableRapidPowerShutDown),
            0x05 => Ok(ECUResetType::DisableRapidPowerShutDown),
            0x40..=0x5F => Ok(ECUResetType::VehicleManufacturerSpecific(v)),
            0x60..=0x7E => Ok(ECUResetType::SystemSupplierSpecific(v)),
            _ => Err(Iso14229Error::ReservedError(v)),
        }
    }
}

/// Link control type (sub-function of service 0x87).
#[derive(Debug, Copy, Clone, PartialEq, Eq, Structural)]
pub enum LinkCtrlType {
    VerifyModeTransitionWithFixedParameter,
    VerifyModeTransitionWithSpecificParameter,
    TransitionMode,
    /// 0x40 to 0x5F.
    VehicleManufacturerSpecific(u8),
    /// 0x60 to 0x7E.
    SystemSupplierSpecific(u8),
}

impl LinkCtrlType {
    pub open spec fn spec_to_u8(self) -> u8 {
        match self {
            LinkCtrlType::VerifyModeTransitionWithFixedParameter => 0x01,
            LinkCtrlType::VerifyModeTransitionWithSpecificParameter => 0x02,
            LinkCtrlType::TransitionMode => 0x03,
            LinkCtrlType::VehicleManufacturerSpecific(v) => v,
            LinkCtrlType::SystemSupplierSpecific(v) => v,
        }
    }

    /// The value a byte stands for; `None` for a reserved byte.
    pub open spec fn spec_from_u8(v: u8) -> Option<LinkCtrlType> {
        if v == 0x01 { Some(LinkCtrlType::VerifyModeTransitionWithFixedParameter) } else if v == 0x02 { Some(LinkCtrlType::VerifyModeTransitionWithSpecificParameter) } else if v == 0x03 { Some(LinkCtrlType::TransitionMode) } else if 0x40 <= v <= 0x5F { Some(LinkCtrlType::VehicleManufacturerSpecific(v)) } else if 0x60 <= v <= 0x7E { Some(LinkCtrlType::SystemSupplierSpecific(v)) } else { None }
    }

    pub fn to_u8(self) -> (r: u8)
        ensures
            r == self.spec_to_u8(),
    {
        match self {
            LinkCtrlType::VerifyModeTransitionWithFixedParameter => 0x01,
            LinkCtrlType::VerifyModeTransitionWithSpecificParameter => 0x02,
            LinkCtrlType::TransitionMode => 0x03,
            LinkCtrlType::VehicleManufacturerSpecific(v) => v,
            LinkCtrlType::SystemSupplierSpecific(v) => v,
        }
    }

    /// Reads a byte; a reserved one is refused with `ReservedError`.
    pub fn try_from(v: u8) -> (r: Result<LinkCtrlType, Iso14229Error>)
        ensures
            match LinkCtrlType::spec_from_u8(v) {
                Some(t) => r matches Ok(x) && x == t,
                None => r matches Err(Iso14229Error::ReservedError(b)) && b == v,
            },
    {
        match v {
            0x01 => Ok(LinkCtrlType::VerifyModeTransitionWithFixedParameter),
            0x02 => Ok(LinkCtrlType::VerifyModeTransitionWithSpecificParameter),
            0x03 => Ok(LinkCtrlType::TransitionMode),
            0x40..=0x5F => Ok(LinkCtrlType::VehicleManufacturerSpecific(v)),
            0x60..=0x7E => Ok(LinkCtrlType::SystemSupplierSpecific(v)),
            _ => Err(Iso14229Error::ReservedError(v)),
        }
    }
}

/// DTC setting type (sub-function of service 0x85).
#[derive(Debug, Copy, Clone, PartialEq, Eq, Structural)]
pub enum DTCSettingType {
    On,
    Off,
    /// 0x40 to 0x5F.
    VehicleManufacturerSpecific(u8),
    /// 0x60 to 0x7E.
    SystemSupplierSpecific(u8),
}

impl DTCSettingType {
    pub open spec fn spec_to_u8(self) -> u8 {
        match self {
            DTCSettingType::On => 0x01,
            DTCSettingType::Off => 0x02,
            DTCSettingType::VehicleManufacturerSpecific(v) => v,
            DTCSettingType::SystemSupplierSpecific(v) => v,
        }
    }

    /// The value a byte stands for; `None` for a reserved byte.
    pub open spec fn spec_from_u8(v: u8) -> Option<DTCSettingType> {
        if v == 0x01 { Some(DTCSettingType::On) } else if v == 0x02 { Some(DTCSettingType::Off) } else if 0x40 <= v <= 0x5F { Some(DTCSettingType::VehicleManufacturerSpecific(v)) } else if 0x60 <= v <= 0x7E { Some(DTCSettingType::SystemSupplierSpecific(v)) } else { None }
    }

    pub fn to_u8(self) -> (r: u8)
        ensures
            r == self.spec_to_u8(),
    {
        match self {
            DTCSettingType::On => 0x01,
            DTCSettingType::Off => 0x02,
            DTCSettingType::VehicleManufacturerSpecific(v) => v,
            DTCSettingType::SystemSupplierSpecific(v) => v,
        }
    }

    /// Reads a byte; a reserved one is refused with `ReservedError`.
    pub fn try_from(v: u8) -> (r: Result<DTCSettingType, Iso14229Error>)
        ensures
            match DTCSettingType::spec_from_u8(v) {
                Some(t) => r matches Ok(x) && x == t,
                None => r matches Err(Iso14229Error::ReservedError(b)) && b == v,
            },
    {
        match v {
            0x01 => Ok(DTCSettingType::On),
            0x02 => Ok(DTCSettingType::Off),
            0x40..=0x5F => Ok(DTCSettingType::VehicleManufacturerSpecific(v)),
            0x60..=0x7E => Ok(DTCSettingType::SystemSupplierSpecific(v)),
            _ => Err(Iso14229Error::ReservedError(v)),
        }
    }
}

/// Timing parameter access type (sub-function of service 0x83).
#[derive(Debug, Copy, Clone, PartialEq, Eq, Structural)]
pub enum TimingParameterAccessType {
    ReadExtendedTimingParameterSet,
    SetTimingParametersToDefaultValues,
    ReadCurrentlyActiveTimingParameters,
    SetTimingParametersToGivenValues,
}

impl TimingParameterAccessType {
    pub open spec fn spec_to_u8(self) -> u8 {
        match self {
            TimingParameterAccessType::ReadExtendedTimingParameterSet => 0x01,
            TimingParameterAccessType::SetTimingParametersToDefaultValues => 0x02,
            TimingParameterAccessType::ReadCurrentlyActiveTimingParameters => 0x03,
            TimingParameterAccessType::SetTimingParametersToGivenValues => 0x04,
        }
    }

    /// The value a byte stands for; `None` for a reserved byte.
    pub open spec fn spec_from_u8(v: u8) -> Option<TimingParameterAccessType> {
        if v == 0x01 { Some(TimingParameterAccessType::ReadExtendedTimingParameterSet) } else if v == 0x02 { Some(TimingParameterAccessType::SetTimingParametersToDefaultValues) } else if v == 0x03 { Some(TimingParameterAccessType::ReadCurrentlyActiveTimingParameters) } else if v == 0x04 { Some(TimingParameterAccessType::SetTimingParametersToGivenValues) } else { None }
    }

    pub fn to_u8(self) -> (r: u8)
        ensures
            r == self.spec_to_u8(),
    {
        match self {
            TimingParameterAccessType::ReadExtendedTimingParameterSet => 0x01,
            TimingParameterAccessType::SetTimingParametersToDefaultValues => 0x02,
            TimingParameterAccessType::ReadCurrentlyActiveTimingParameters => 0x03,
            TimingParameterAccessType::SetTimingParametersToGivenValues => 0x04,
        }
    }

    /// Reads a byte; a reserved one is refused with `ReservedError`.
    pub fn try_from(v: u8) -> (r: Result<TimingParameterAccessType, Iso14229Error>)
        ensures
            match TimingParameterAccessType::spec_from_u8(v) {
                Some(t) => r matches Ok(x) && x == t,
                None => r matches Err(Iso14229Error::ReservedError(b)) && b == v,
            },
    {
        match v {
            0x01 => Ok(TimingParameterAccessType::ReadExtendedTimingParameterSet),
            0x02 => Ok(TimingParameterAccessType::SetTimingParametersToDefaultValues),
            0x03 => Ok(TimingParameterAccessType::ReadCurrentlyActiveTimingParameters),
            0x04 => Ok(TimingParameterAccessType::SetTimingParametersToGivenValues),
            _ => Err(Iso14229Error::ReservedError(v)),
        }
    }
}

/// Tester present type (sub-function of service 0x3E).
#[derive(Debug, Copy, Clone, PartialEq, Eq, Structural)]
pub enum TesterPresentType {
    Zero,
}

impl TesterPresentType {
    pub open spec fn spec_to_u8(self) -> u8 {
        match self {
            TesterPresentType::Zero => 0x00,
        }
    }

    /// The value a byte stands for; `None` for a reserved byte.
    pub open spec fn spec_from_u8(v: u8) -> Option<TesterPresentType> {
        if v == 0x00 { Some(TesterPresentType::Zero) } else { None }
    }

    pub fn to_u8(self) -> (r: u8)
        ensures
            r == self.spec_to_u8(),
    {
        match self {
            TesterPresentType::Zero => 0x00,
        }
    }

    /// Reads a byte; a reserved one is refused with `ReservedError`.
    pub fn try_from(v: u8) -> (r: Result<TesterPresentType, Iso14229Error>)
        ensures
            match TesterPresentType::spec_from_u8(v) {
                Some(t) => r matches Ok(x) && x == t,
                None => r matches Err(Iso14229Error::ReservedError(b)) && b == v,
            },
    {
        match v {
            0x00 => Ok(TesterPresentType::Zero),
            _ => Err(Iso14229Error::ReservedError(v)),
        }
    }
}

/// Definition type (sub-function of service 0x2C).
#[derive(Debug, Copy, Clone, PartialEq, Eq, Structural)]
pub enum DefinitionType {
    DefineByIdentifier,
    DefineByMemoryAddress,
    ClearDynamicallyDefinedDataIdentifier,
}

impl DefinitionType {
    pub open spec fn spec_to_u8(self) -> u8 {
        match self {
            DefinitionType::DefineByIdentifier => 0x01,
            DefinitionType::DefineByMemoryAddress => 0x02,
            DefinitionType::ClearDynamicallyDefinedDataIdentifier => 0x03,
        }
    }

    /// The value a byte stands for; `None` for a reserved byte.
    pub open spec fn spec_from_u8(v: u8) -> Option<DefinitionType> {
        if v == 0x01 { Some(DefinitionType::DefineByIdentifier) } else if v == 0x02 { Some(DefinitionType::DefineByMemoryAddress) } else if v == 0x03 { Some(DefinitionType::ClearDynamicallyDefinedDataIdentifier) } else { None }
    }

    pub fn to_u8(self) -> (r: u8)
        ensures
            r == self.spec_to_u8(),
    {
        match self {
            DefinitionType::DefineByIdentifier => 0x01,
            DefinitionType::DefineByMemoryAddress => 0x02,
            DefinitionType::ClearDynamicallyDefinedDataIdentifier => 0x03,
        }
    }

    /// Reads a byte; a reserved one is refused with `ReservedError`.
    pub fn try_from(v: u8) -> (r: Result<DefinitionType, Iso14229Error>)
        ensures
            match DefinitionType::spec_from_u8(v) {
                Some(t) => r matches Ok(x) && x == t,
                None => r matches Err(Iso14229Error::ReservedError(b)) && b == v,
            },
    {
        match v {
            0x01 => Ok(DefinitionType::DefineByIdentifier),
            0x02 => Ok(DefinitionType::DefineByMemoryAddress),
            0x03 => Ok(DefinitionType::ClearDynamicallyDefinedDataIdentifier),
            _ => Err(Iso14229Error::ReservedError(v)),
        }
    }
}

/// Routine control type (sub-function of service 0x31).
#[derive(Debug, Copy, Clone, PartialEq, Eq, Structural)]
pub enum RoutineCtrlType {
    StartRoutine,
    StopRoutine,
    RequestRoutineResults,
}

impl RoutineCtrlType {
    pub open spec fn spec_to_u8(self) -> u8 {
        match self {
            RoutineCtrlType::StartRoutine => 0x01,
            RoutineCtrlType::StopRoutine => 0x02,
            RoutineCtrlType::RequestRoutineResults => 0x03,
        }
    }

    /// The value a byte stands for; `None` for a reserved byte.
    pub open spec fn spec_from_u8(v: u8) -> Option<RoutineCtrlType> {
        if v == 0x01 { Some(RoutineCtrlType::StartRoutine) } else if v == 0x02 { Some(RoutineCtrlType::StopRoutine) } else if v == 0x03 { Some(RoutineCtrlType::RequestRoutineResults) } else { None }
    }

    pub fn to_u8(self) -> (r: u8)
        ensures
            r == self.spec_to_u8(),
    {
        match self {
            RoutineCtrlType::StartRoutine => 0x01,
            RoutineCtrlType::StopRoutine => 0x02,
            RoutineCtrlType::RequestRoutineResults => 0x03,
        }
    }

    /// Reads a byte; a reserved one is refused with `ReservedError`.
    pub fn try_from(v: u8) -> (r: Result<RoutineCtrlType, Iso14229Error>)
        ensures
            match RoutineCtrlType::spec_from_u8(v) {
                Some(t) => r matches Ok(x) && x == t,
                None => r matches Err(Iso14229Error::ReservedError(b)) && b == v,
            },
    {
        match v {
            0x01 => Ok(RoutineCtrlType::StartRoutine),
            0x02 => Ok(RoutineCtrlType::StopRoutine),
            0x03 => Ok(RoutineCtrlType::RequestRoutineResults),
            _ => Err(Iso14229Error::ReservedError(v)),
        }
    }
}

/// Authentication task (sub-function of service 0x29).
#[derive(Debug, Copy, Clone, PartialEq, Eq, Structural)]
pub enum AuthenticationTask {
    DeAuthenticate,
    VerifyCertificateUnidirectional,
    VerifyCertificateBidirectional,
    ProofOfOwnership,
    TransmitCertificate,
    RequestChallengeForAuthentication,
    VerifyProofOfOwnershipUnidirectional,
    VerifyProofOfOwnershipBidirectional,
    AuthenticationConfiguration,
}

impl AuthenticationTask {
    pub open spec fn spec_to_u8(self) -> u8 {
        match self {
            AuthenticationTask::DeAuthenticate => 0x00,
            AuthenticationTask::VerifyCertificateUnidirectional => 0x01,
            AuthenticationTask::VerifyCertificateBidirectional => 0x02,
            AuthenticationTask::ProofOfOwnership => 0x03,
            AuthenticationTask::TransmitCertificate => 0x04,
            AuthenticationTask::RequestChallengeForAuthentication => 0x05,
            AuthenticationTask::VerifyProofOfOwnershipUnidirectional => 0x06,
            AuthenticationTask::VerifyProofOfOwnershipBidirectional => 0x07,
            AuthenticationTask::AuthenticationConfiguration => 0x08,
        }
    }

    /// The value a byte stands for; `None` for a reserved byte.
    pub open spec fn spec_from_u8(v: u8) -> Option<AuthenticationTask> {
        if v == 0x00 { Some(AuthenticationTask::DeAuthenticate) } else if v == 0x01 { Some(AuthenticationTask::VerifyCertificateUnidirectional) } else if v == 0x02 { Some(AuthenticationTask::VerifyCertificateBidirectional) } else if v == 0x03 { Some(AuthenticationTask::ProofOfOwnership) } else if v == 0x04 { Some(AuthenticationTask::TransmitCertificate) } else if v == 0x05 { Some(AuthenticationTask::RequestChallengeForAuthentication) } else if v == 0x06 { Some(AuthenticationTask::VerifyProofOfOwnershipUnidirectional) } else if v == 0x07 { Some(AuthenticationTask::VerifyProofOfOwnershipBidirectional) } else if v == 0x08 { Some(AuthenticationTask::AuthenticationConfiguration) } else { None }
    }

    pub fn to_u8(self) -> (r: u8)
        ensures
            r == self.spec_to_u8(),
    {
        match self {
            AuthenticationTask::DeAuthenticate => 0x00,
            AuthenticationTask::VerifyCertificateUnidirectional => 0x01,
            AuthenticationTask::VerifyCertificateBidirectional => 0x02,
            AuthenticationTask::ProofOfOwnership => 0x03,
            AuthenticationTask::TransmitCertificate => 0x04,
            AuthenticationTask::RequestChallengeForAuthentication => 0x05,
            AuthenticationTask::VerifyProofOfOwnershipUnidirectional => 0x06,
            AuthenticationTask::VerifyProofOfOwnershipBidirectional => 0x07,
            AuthenticationTask::AuthenticationConfiguration => 0x08,
        }
    }

    /// Reads a byte; a reserved one is refused with `ReservedError`.
    pub fn try_from(v: u8) -> (r: Result<AuthenticationTask, Iso14229Error>)
        ensures
            match AuthenticationTask::spec_from_u8(v) {
                Some(t) => r matches Ok(x) && x == t,
                None => r matches Err(Iso14229Error::ReservedError(b)) && b == v,
            },
    {
        match v {
            0x00 => Ok(AuthenticationTask::DeAuthenticate),
            0x01 => Ok(AuthenticationTask::VerifyCertificateUnidirectional),
            0x02 => Ok(AuthenticationTask::VerifyCertificateBidirectional),
            0x03 => Ok(AuthenticationTask::ProofOfOwnership),
            0x04 => Ok(AuthenticationTask::TransmitCertificate),
            0x05 => Ok(AuthenticationTask::RequestChallengeForAuthentication),
            0x06 => Ok(AuthenticationTask::VerifyProofOfOwnershipUnidirectional),
            0x07 => Ok(AuthenticationTask::VerifyProofOfOwnershipBidirectional),
            0x08 => Ok(AuthenticationTask::AuthenticationConfiguration),
            _ => Err(Iso14229Error::ReservedError(v)),
        }
    }
}

/// Input output control parameter (service 0x2F).
#[derive(Debug, Copy, Clone, PartialEq, Eq, Structural)]
pub enum IOCtrlParameter {
    ReturnControlToEcu,
    ResetToDefault,
    FreezeCurrentState,
    ShortTermAdjustment,
}

impl IOCtrlParameter {
    pub open spec fn spec_to_u8(self) -> u8 {
        match self {
            IOCtrlParameter::ReturnControlToEcu => 0x00,
            IOCtrlParameter::ResetToDefault => 0x01,
            IOCtrlParameter::FreezeCurrentState => 0x02,
            IOCtrlParameter::ShortTermAdjustment => 0x03,
        }
    }

    /// The value a byte stands for; `None` for a reserved byte.
    pub open spec fn spec_from_u8(v: u8) -> Option<IOCtrlParameter> {
        if v == 0x00 { Some(IOCtrlParameter::ReturnControlToEcu) } else if v == 0x01 { Some(IOCtrlParameter::ResetToDefault) } else if v == 0x02 { Some(IOCtrlParameter::FreezeCurrentState) } else if v == 0x03 { Some(IOCtrlParameter::ShortTermAdjustment) } else { None }
    }

    pub fn to_u8(self) -> (r: u8)
        ensures
            r == self.spec_to_u8(),
    {
        match self {
            IOCtrlParameter::ReturnControlToEcu => 0x00,
            IOCtrlParameter::ResetToDefault => 0x01,
            IOCtrlParameter::FreezeCurrentState => 0x02,
            IOCtrlParameter::ShortTermAdjustment => 0x03,
        }
    }

    /// Reads a byte; a reserved one is refused with `ReservedError`.
    pub fn try_from(v: u8) -> (r: Result<IOCtrlParameter, Iso14229Error>)
        ensures
            match IOCtrlParameter::spec_from_u8(v) {
                Some(t) => r matches Ok(x) && x == t,
                None => r matches Err(Iso14229Error::ReservedError(b)) && b == v,
            },
    {
        match v {
            0x00 => Ok(IOCtrlParameter::ReturnControlToEcu),
            0x01 => Ok(IOCtrlParameter::ResetToDefault),
            0x02 => Ok(IOCtrlParameter::FreezeCurrentState),
            0x03 => Ok(IOCtrlParameter::ShortTermAdjustment),
            _ => Err(Iso14229Error::ReservedError(v)),
        }
    }
}

/// Signature or encryption calculation (service 0x84).
#[derive(Debug, Copy, Clone, PartialEq, Eq, Structural)]
pub enum SignatureEncryptionCalculation {
    /// 0x00 to 0x7F.
    VehicleManufacturerSpecific(u8),
    /// 0x80 to 0x8F.
    SystemSupplierSpecific(u8),
}

impl SignatureEncryptionCalculation {
    pub open spec fn spec_to_u8(self) -> u8 {
        match self {
            SignatureEncryptionCalculation::VehicleManufacturerSpecific(v) => v,
            SignatureEncryptionCalculation::SystemSupplierSpecific(v) => v,
        }
    }

    /// The value a byte stands for; `None` for a reserved byte (0x90 and above).
    pub open spec fn spec_from_u8(v: u8) -> Option<SignatureEncryptionCalculation> {
        if v <= 0x7F {
            Some(SignatureEncryptionCalculation::VehicleManufacturerSpecific(v))
        } else if v <= 0x8F {
            Some(SignatureEncryptionCalculation::SystemSupplierSpecific(v))
        } else {
            None
        }
    }

    pub fn to_u8(self) -> (r: u8)
        ensures
            r == self.spec_to_u8(),
    {
        match self {
            SignatureEncryptionCalculation::VehicleManufacturerSpecific(v) => v,
            SignatureEncryptionCalculation::SystemSupplierSpecific(v) => v,
        }
    }

    /// Reads a byte; a reserved one is refused with `ReservedError`.
    pub fn try_from(v: u8) -> (r: Result<SignatureEncryptionCalculation, Iso14229Error>)
        ensures
            match SignatureEncryptionCalculation::spec_from_u8(v) {
                Some(t) => r matches Ok(x) && x == t,
                None => r matches Err(Iso14229Error::ReservedError(b)) && b == v,
            },
    {
        if v <= 0x7F {
            Ok(SignatureEncryptionCalculation::VehicleManufacturerSpecific(v))
        } else if v <= 0x8F {
            Ok(SignatureEncryptionCalculation::SystemSupplierSpecific(v))
        } else {
            Err(Iso14229Error::ReservedError(v))
        }
    }
}


/// The diagnostic session types and their sub-function bytes.
pub proof fn session_type_table()
    ensures
        SessionType::spec_from_u8(0x01) == Some(SessionType::Default),
        SessionType::spec_from_u8(0x02) == Some(SessionType::Programming),
        SessionType::spec_from_u8(0x03) == Some(SessionType::Extended),
        SessionType::spec_from_u8(0x04) == Some(SessionType::SafetySystemDiagnostic),
        SessionType::Default.spec_to_u8() == 0x01,
        SessionType::Programming.spec_to_u8() == 0x02,
        SessionType::Extended.spec_to_u8() == 0x03,
        SessionType::SafetySystemDiagnostic.spec_to_u8() == 0x04,
{
}


/// The reset types and their sub-function bytes.
pub proof fn ecu_reset_type_table()
    ensures
        ECUResetType::spec_from_u8(0x01) == Some(ECUResetType::HardReset),
        ECUResetType::spec_from_u8(0x02) == Some(ECUResetType::KeyOffOnReset),
        ECUResetType::spec_from_u8(0x03) == Some(ECUResetType::SoftReset),
        ECUResetType::spec_from_u8(0x04) == Some(ECUResetType::EnableRapidPowerShutDown),
        ECUResetType::spec_from_u8(0x05) == Some(ECUResetType::DisableRapidPowerShutDown),
        ECUResetType::HardReset.spec_to_u8() == 0x01,
        ECUResetType::KeyOffOnReset.spec_to_u8() == 0x02,
        ECUResetType::SoftReset.spec_to_u8() == 0x03,
        ECUResetType::EnableRapidPowerShutDown.spec_to_u8() == 0x04,
        ECUResetType::DisableRapidPowerShutDown.spec_to_u8() == 0x05,
{
}


/// The link control types and their sub-function bytes.
pub proof fn link_ctrl_type_table()
    ensures
        LinkCtrlType::spec_from_u8(0x01) == Some(LinkCtrlType::VerifyModeTransitionWithFixedParameter),
        LinkCtrlType::spec_from_u8(0x02) == Some(LinkCtrlType::VerifyModeTransitionWithSpecificParameter),
        LinkCtrlType::spec_from_u8(0x03) == Some(LinkCtrlType::TransitionMode),
        LinkCtrlType::VerifyModeTransitionWithFixedParameter.spec_to_u8() == 0x01,
        LinkCtrlType::VerifyModeTransitionWithSpecificParameter.spec_to_u8() == 0x02,
        LinkCtrlType::TransitionMode.spec_to_u8() == 0x03,
{
}


/// The DTC setting types and their sub-function bytes.
pub proof fn dtc_setting_type_table()
    ensures
        DTCSettingType::spec_from_u8(0x01) == Some(DTCSettingType::On),
        DTCSettingType::spec_from_u8(0x02) == Some(DTCSettingType::Off),
        DTCSettingType::On.spec_to_u8() == 0x01,
        DTCSettingType::Off.spec_to_u8() == 0x02,
{
}


/// The timing parameter access types and their sub-function bytes: 0x01 reads the extended set, 0x02 sets the defaults, 0x03 reads the active parameters, 0x04 sets given values; no other byte names one.
pub proof fn timing_parameter_access_type_table(v: u8)
    ensures
        TimingParameterAccessType::spec_from_u8(0x01) == Some(TimingParameterAccessType::ReadExtendedTimingParameterSet),
        TimingParameterAccessType::spec_from_u8(0x02) == Some(TimingParameterAccessType::SetTimingParametersToDefaultValues),
        TimingParameterAccessType::spec_from_u8(0x03) == Some(TimingParameterAccessType::ReadCurrentlyActiveTimingParameters),
        TimingParameterAccessType::spec_from_u8(0x04) == Some(TimingParameterAccessType::SetTimingParametersToGivenValues),
        TimingParameterAccessType::ReadExtendedTimingParameterSet.spec_to_u8() == 0x01,
        TimingParameterAccessType::SetTimingParametersToDefaultValues.spec_to_u8() == 0x02,
        TimingParameterAccessType::ReadCurrentlyActiveTimingParameters.spec_to_u8() == 0x03,
        TimingParameterAccessType::SetTimingParametersToGivenValues.spec_to_u8() == 0x04,
        !(v == 0x01 || v == 0x02 || v == 0x03 || v == 0x04) ==> TimingParameterAccessType::spec_from_u8(v) is None,
{
}


/// The tester present sub-function byte.
pub proof fn tester_present_type_table(v: u8)
    ensures
        TesterPresentType::spec_from_u8(0x00) == Some(TesterPresentType::Zero),
        TesterPresentType::Zero.spec_to_u8() == 0x00,
        !(v == 0x00) ==> TesterPresentType::spec_from_u8(v) is None,
{
}


/// The dynamic definition types and their sub-function bytes.
pub proof fn definition_type_table(v: u8)
    ensures
        DefinitionType::spec_from_u8(0x01) == Some(DefinitionType::DefineByIdentifier),
        DefinitionType::spec_from_u8(0x02) == Some(DefinitionType::DefineByMemoryAddress),
        DefinitionType::spec_from_u8(0x03) == Some(DefinitionType::ClearDynamicallyDefinedDataIdentifier),
        DefinitionType::DefineByIdentifier.spec_to_u8() == 0x01,
        DefinitionType::DefineByMemoryAddress.spec_to_u8() == 0x02,
        DefinitionType::ClearDynamicallyDefinedDataIdentifier.spec_to_u8() == 0x03,
        !(v == 0x01 || v == 0x02 || v == 0x03) ==> DefinitionType::spec_from_u8(v) is None,
{
}


/// The routine control types and their sub-function bytes.
pub proof fn routine_ctrl_type_table(v: u8)
    ensures
        RoutineCtrlType::spec_from_u8(0x01) == Some(RoutineCtrlType::StartRoutine),
        RoutineCtrlType::spec_from_u8(0x02) == Some(RoutineCtrlType::StopRoutine),
        RoutineCtrlType::spec_from_u8(0x03) == Some(RoutineCtrlType::RequestRoutineResults),
        RoutineCtrlType::StartRoutine.spec_to_u8() == 0x01,
        RoutineCtrlType::StopRoutine.spec_to_u8() == 0x02,
        RoutineCtrlType::RequestRoutineResults.spec_to_u8() == 0x03,
        !(v == 0x01 || v == 0x02 || v == 0x03) ==> RoutineCtrlType::spec_from_u8(v) is None,
{
}


/// The authentication tasks and their sub-function bytes.
pub proof fn authentication_task_table(v: u8)
    ensures
        AuthenticationTask::spec_from_u8(0x00) == Some(AuthenticationTask::DeAuthenticate),
        AuthenticationTask::spec_from_u8(0x01) == Some(AuthenticationTask::VerifyCertificateUnidirectional),
        AuthenticationTask::spec_from_u8(0x02) == Some(AuthenticationTask::VerifyCertificateBidirectional),
        AuthenticationTask::spec_from_u8(0x03) == Some(AuthenticationTask::ProofOfOwnership),
        AuthenticationTask::spec_from_u8(0x04) == Some(AuthenticationTask::TransmitCertificate),
        AuthenticationTask::spec_from_u8(0x05) == Some(AuthenticationTask::RequestChallengeForAuthentication),
        AuthenticationTask::spec_from_u8(0x06) == Some(AuthenticationTask::VerifyProofOfOwnershipUnidirectional),
        AuthenticationTask::spec_from_u8(0x07) == Some(AuthenticationTask::VerifyProofOfOwnershipBidirectional),
        AuthenticationTask::spec_from_u8(0x08) == Some(AuthenticationTask::AuthenticationConfiguration),
        AuthenticationTask::DeAuthenticate.spec_to_u8() == 0x00,
        AuthenticationTask::VerifyCertificateUnidirectional.spec_to_u8() == 0x01,
        AuthenticationTask::VerifyCertificateBidirectional.spec_to_u8() == 0x02,
        AuthenticationTask::ProofOfOwnership.spec_to_u8() == 0x03,
        AuthenticationTask::TransmitCertificate.spec_to_u8() == 0x04,
        AuthenticationTask::RequestChallengeForAuthentication.spec_to_u8() == 0x05,
        AuthenticationTask::VerifyProofOfOwnershipUnidirectional.spec_to_u8() == 0x06,
        AuthenticationTask::VerifyProofOfOwnershipBidirectional.spec_to_u8() == 0x07,
        AuthenticationTask::AuthenticationConfiguration.spec_to_u8() == 0x08,
        !(v == 0x00 || v == 0x01 || v == 0x02 || v == 0x03 || v == 0x04 || v == 0x05 || v == 0x06 || v == 0x07 || v == 0x08) ==> AuthenticationTask::spec_from_u8(v) is None,
{
}


/// The input output control parameters and their bytes: 0x00 returns control to the ECU, 0x01 resets to default, 0x02 freezes the current state, 0x03 adjusts for a short term; no other byte names one.
pub proof fn io_ctrl_parameter_table(v: u8)
    ensures
        IOCtrlParameter::spec_from_u8(0x00) == Some(IOCtrlParameter::ReturnControlToEcu),
        IOCtrlParameter::spec_from_u8(0x01) == Some(IOCtrlParameter::ResetToDefault),
        IOCtrlParameter::spec_from_u8(0x02) == Some(IOCtrlParameter::FreezeCurrentState),
        IOCtrlParameter::spec_from_u8(0x03) == Some(IOCtrlParameter::ShortTermAdjustment),
        IOCtrlParameter::ReturnControlToEcu.spec_to_u8() == 0x00,
        IOCtrlParameter::ResetToDefault.spec_to_u8() == 0x01,
        IOCtrlParameter::FreezeCurrentState.spec_to_u8() == 0x02,
        IOCtrlParameter::ShortTermAdjustment.spec_to_u8() == 0x03,
        !(v == 0x00 || v == 0x01 || v == 0x02 || v == 0x03) ==> IOCtrlParameter::spec_from_u8(v) is None,
{
}

} // verus!

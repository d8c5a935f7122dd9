//! UDS service identifiers and the sub-function byte.

use vstd::prelude::*;

verus! {

/// UDS services.
#[derive(Debug, Copy, Clone, PartialEq, Eq, Structural)]
pub enum Service {
    SessionCtrl,
    ECUReset,
    ClearDiagnosticInfo,
    ReadDTCInfo,
    ReadDID,
    ReadMemByAddr,
    ReadScalingDID,
    SecurityAccess,
    CommunicationCtrl,
    Authentication,
    ReadDataByPeriodId,
    DynamicalDefineDID,
    WriteDID,
    IOCtrl,
    RoutineCtrl,
    RequestDownload,
    RequestUpload,
    TransferData,
    RequestTransferExit,
    RequestFileTransfer,
    WriteMemByAddr,
    TesterPresent,
    AccessTimingParam,
    SecuredDataTrans,
    CtrlDTCSetting,
    ResponseOnEvent,
    LinkCtrl,
    /// Negative response.
    NRC,
}

impl Service {
    /// The service identifier byte.
    pub open spec fn spec_to_u8(self) -> u8 {
        match self {
            Service::SessionCtrl => 0x10,
            Service::ECUReset => 0x11,
            Service::ClearDiagnosticInfo => 0x14,
            Service::ReadDTCInfo => 0x19,
            Service::ReadDID => 0x22,
            Service::ReadMemByAddr => 0x23,
            Service::ReadScalingDID => 0x24,
            Service::SecurityAccess => 0x27,
            Service::CommunicationCtrl => 0x28,
            Service::Authentication => 0x29,
            Service::ReadDataByPeriodId => 0x2A,
            Service::DynamicalDefineDID => 0x2C,
            Service::WriteDID => 0x2E,
            Service::IOCtrl => 0x2F,
            Service::RoutineCtrl => 0x31,
            Service::RequestDownload => 0x34,
            Service::RequestUpload => 0x35,
            Service::TransferData => 0x36,
            Service::RequestTransferExit => 0x37,
            Service::RequestFileTransfer => 0x38,
            Service::WriteMemByAddr => 0x3D,
            Service::TesterPresent => 0x3E,
            Service::AccessTimingParam => 0x83,
            Service::SecuredDataTrans => 0x84,
            Service::CtrlDTCSetting => 0x85,
            Service::ResponseOnEvent => 0x86,
            Service::LinkCtrl => 0x87,
            Service::NRC => 0x7F,
        }
    }

    /// The service an identifier byte stands for, if any.
    pub open spec fn spec_from_u8(v: u8) -> Option<Service> {
        if v == 0x10 { Some(Service::SessionCtrl) }
        else if v == 0x11 { Some(Service::ECUReset) }
        else if v == 0x14 { Some(Service::ClearDiagnosticInfo) }
        else if v == 0x19 { Some(Service::ReadDTCInfo) }
        else if v == 0x22 { Some(Service::ReadDID) }
        else if v == 0x23 { Some(Service::ReadMemByAddr) }
        else if v == 0x24 { Some(Service::ReadScalingDID) }
        else if v == 0x27 { Some(Service::SecurityAccess) }
        else if v == 0x28 { Some(Service::CommunicationCtrl) }
        else if v == 0x29 { Some(Service::Authentication) }
        else if v == 0x2A { Some(Service::ReadDataByPeriodId) }
        else if v == 0x2C { Some(Service::DynamicalDefineDID) }
        else if v == 0x2E { Some(Service::WriteDID) }
        else if v == 0x2F { Some(Service::IOCtrl) }
        else if v == 0x31 { Some(Service::RoutineCtrl) }
        else if v == 0x34 { Some(Service::RequestDownload) }
        else if v == 0x35 { Some(Service::RequestUpload) }
        else if v == 0x36 { Some(Service::TransferData) }
        else if v == 0x37 { Some(Service::RequestTransferExit) }
        else if v == 0x38 { Some(Service::RequestFileTransfer) }
        else if v == 0x3D { Some(Service::WriteMemByAddr) }
        else if v == 0x3E { Some(Service::TesterPresent) }
        else if v == 0x83 { Some(Service::AccessTimingParam) }
        else if v == 0x84 { Some(Service::SecuredDataTrans) }
        else if v == 0x85 { Some(Service::CtrlDTCSetting) }
        else if v == 0x86 { Some(Service::ResponseOnEvent) }
        else if v == 0x87 { Some(Service::LinkCtrl) }
        else if v == 0x7F { Some(Service::NRC) }
        else { None }
    }

    /// Whether the positive response of the service carries a sub-function byte.
    pub open spec fn spec_has_sub_function(self) -> bool {
        match self {
            Service::SessionCtrl | Service::ECUReset | Service::SecurityAccess
            | Service::CommunicationCtrl | Service::Authentication | Service::ReadDTCInfo
            | Service::DynamicalDefineDID | Service::RoutineCtrl | Service::TesterPresent
            | Service::AccessTimingParam | Service::CtrlDTCSetting | Service::LinkCtrl => true,
            _ => false,
        }
    }

    pub fn to_u8(self) -> (r: u8)
        ensures
            r == self.spec_to_u8(),
    {
        match self {
            Service::SessionCtrl => 0x10,
            Service::ECUReset => 0x11,
            Service::ClearDiagnosticInfo => 0x14,
            Service::ReadDTCInfo => 0x19,
            Service::ReadDID => 0x22,
            Service::ReadMemByAddr => 0x23,
            Service::ReadScalingDID => 0x24,
            Service::SecurityAccess => 0x27,
            Service::CommunicationCtrl => 0x28,
            Service::Authentication => 0x29,
            Service::ReadDataByPeriodId => 0x2A,
            Service::DynamicalDefineDID => 0x2C,
            Service::WriteDID => 0x2E,
            Service::IOCtrl => 0x2F,
            Service::RoutineCtrl => 0x31,
            Service::RequestDownload => 0x34,
            Service::RequestUpload => 0x35,
            Service::TransferData => 0x36,
            Service::RequestTransferExit => 0x37,
            Service::RequestFileTransfer => 0x38,
            Service::WriteMemByAddr => 0x3D,
            Service::TesterPresent => 0x3E,
            Service::AccessTimingParam => 0x83,
            Service::SecuredDataTrans => 0x84,
            Service::CtrlDTCSetting => 0x85,
            Service::ResponseOnEvent => 0x86,
            Service::LinkCtrl => 0x87,
            Service::NRC => 0x7F,
        }
    }

    pub fn from_u8(v: u8) -> (r: Option<Service>)
        ensures
            r == Service::spec_from_u8(v),
    {
        match v {
            0x10 => Some(Service::SessionCtrl),
            0x11 => Some(Service::ECUReset),
            0x14 => Some(Service::ClearDiagnosticInfo),
            0x19 => Some(Service::ReadDTCInfo),
            0x22 => Some(Service::ReadDID),
            0x23 => Some(Service::ReadMemByAddr),
            0x24 => Some(Service::ReadScalingDID),
            0x27 => Some(Service::SecurityAccess),
            0x28 => Some(Service::CommunicationCtrl),
            0x29 => Some(Service::Authentication),
            0x2A => Some(Service::ReadDataByPeriodId),
            0x2C => Some(Service::DynamicalDefineDID),
            0x2E => Some(Service::WriteDID),
            0x2F => Some(Service::IOCtrl),
            0x31 => Some(Service::RoutineCtrl),
            0x34 => Some(Service::RequestDownload),
            0x35 => Some(Service::RequestUpload),
            0x36 => Some(Service::TransferData),
            0x37 => Some(Service::RequestTransferExit),
            0x38 => Some(Service::RequestFileTransfer),
            0x3D => Some(Service::WriteMemByAddr),
            0x3E => Some(Service::TesterPresent),
            0x83 => Some(Service::AccessTimingParam),
            0x84 => Some(Service::SecuredDataTrans),
            0x85 => Some(Service::CtrlDTCSetting),
            0x86 => Some(Service::ResponseOnEvent),
            0x87 => Some(Service::LinkCtrl),
            0x7F => Some(Service::NRC),
            _ => None,
        }
    }

    pub fn has_sub_function(self) -> (r: bool)
        ensures
            r == self.spec_has_sub_function(),
    {
        match self {
            Service::SessionCtrl | Service::ECUReset | Service::SecurityAccess
            | Service::CommunicationCtrl | Service::Authentication | Service::ReadDTCInfo
            | Service::DynamicalDefineDID | Service::RoutineCtrl | Service::TesterPresent
            | Service::AccessTimingParam | Service::CtrlDTCSetting | Service::LinkCtrl => true,
            _ => false,
        }
    }
}

/// Identifiers and services name each other one to one.
pub proof fn service_byte_roundtrip(s: Service)
    ensures
        Service::spec_from_u8(s.spec_to_u8()) == Some(s),
{
}

/// The bit of a sub-function byte that asks the server to suppress its positive response.
pub const SUPPRESS_POSITIVE: u8 = 0x80;

/// A sub-function byte.
#[derive(Debug, Copy, Clone, PartialEq, Eq, Structural)]
pub struct SubFunction(pub u8);

impl SubFunction {
    pub fn new(value: u8) -> (r: SubFunction)
        ensures
            r.0 == value,
    {
        SubFunction(value)
    }

    /// The sub-function without the suppress-positive-response bit.
    pub fn function_byte(&self) -> (r: u8)
        ensures
            r == self.0 % 128,
    {
        let v = self.0;
        assert(v & 0x7F == v % 128) by (bit_vector);
        v & 0x7F
    }

    /// Whether the suppress-positive-response bit is set.
    pub fn is_suppress_positive(&self) -> (r: bool)
        ensures
            r == (self.0 >= 128),
    {
        let v = self.0;
        assert((v & 0x80 == 0x80) == (v >= 128)) by (bit_vector);
        v & SUPPRESS_POSITIVE == SUPPRESS_POSITIVE
    }
}


/// The service identifiers of ISO 14229-1.
pub proof fn service_table()
    ensures
        Service::spec_from_u8(0x10) == Some(Service::SessionCtrl),
        Service::spec_from_u8(0x11) == Some(Service::ECUReset),
        Service::spec_from_u8(0x14) == Some(Service::ClearDiagnosticInfo),
        Service::spec_from_u8(0x19) == Some(Service::ReadDTCInfo),
        Service::spec_from_u8(0x22) == Some(Service::ReadDID),
        Service::spec_from_u8(0x23) == Some(Service::ReadMemByAddr),
        Service::spec_from_u8(0x24) == Some(Service::ReadScalingDID),
        Service::spec_from_u8(0x27) == Some(Service::SecurityAccess),
        Service::spec_from_u8(0x28) == Some(Service::CommunicationCtrl),
        Service::spec_from_u8(0x29) == Some(Service::Authentication),
        Service::spec_from_u8(0x2A) == Some(Service::ReadDataByPeriodId),
        Service::spec_from_u8(0x2C) == Some(Service::DynamicalDefineDID),
        Service::spec_from_u8(0x2E) == Some(Service::WriteDID),
        Service::spec_from_u8(0x2F) == Some(Service::IOCtrl),
        Service::spec_from_u8(0x31) == Some(Service::RoutineCtrl),
        Service::spec_from_u8(0x34) == Some(Service::RequestDownload),
        Service::spec_from_u8(0x35) == Some(Service::RequestUpload),
        Service::spec_from_u8(0x36) == Some(Service::TransferData),
        Service::spec_from_u8(0x37) == Some(Service::RequestTransferExit),
        Service::spec_from_u8(0x38) == Some(Service::RequestFileTransfer),
        Service::spec_from_u8(0x3D) == Some(Service::WriteMemByAddr),
        Service::spec_from_u8(0x3E) == Some(Service::TesterPresent),
        Service::spec_from_u8(0x83) == Some(Service::AccessTimingParam),
        Service::spec_from_u8(0x84) == Some(Service::SecuredDataTrans),
        Service::spec_from_u8(0x85) == Some(Service::CtrlDTCSetting),
        Service::spec_from_u8(0x86) == Some(Service::ResponseOnEvent),
        Service::spec_from_u8(0x87) == Some(Service::LinkCtrl),
        Service::spec_from_u8(0x7F) == Some(Service::NRC),
        Service::SessionCtrl.spec_to_u8() == 0x10,
        Service::ECUReset.spec_to_u8() == 0x11,
        Service::ClearDiagnosticInfo.spec_to_u8() == 0x14,
        Service::ReadDTCInfo.spec_to_u8() == 0x19,
        Service::ReadDID.spec_to_u8() == 0x22,
        Service::ReadMemByAddr.spec_to_u8() == 0x23,
        Service::ReadScalingDID.spec_to_u8() == 0x24,
        Service::SecurityAccess.spec_to_u8() == 0x27,
        Service::CommunicationCtrl.spec_to_u8() == 0x28,
        Service::Authentication.spec_to_u8() == 0x29,
        Service::ReadDataByPeriodId.spec_to_u8() == 0x2A,
        Service::DynamicalDefineDID.spec_to_u8() == 0x2C,
        Service::WriteDID.spec_to_u8() == 0x2E,
        Service::IOCtrl.spec_to_u8() == 0x2F,
        Service::RoutineCtrl.spec_to_u8() == 0x31,
        Service::RequestDownload.spec_to_u8() == 0x34,
        Service::RequestUpload.spec_to_u8() == 0x35,
        Service::TransferData.spec_to_u8() == 0x36,
        Service::RequestTransferExit.spec_to_u8() == 0x37,
        Service::RequestFileTransfer.spec_to_u8() == 0x38,
        Service::WriteMemByAddr.spec_to_u8() == 0x3D,
        Service::TesterPresent.spec_to_u8() == 0x3E,
        Service::AccessTimingParam.spec_to_u8() == 0x83,
        Service::SecuredDataTrans.spec_to_u8() == 0x84,
        Service::CtrlDTCSetting.spec_to_u8() == 0x85,
        Service::ResponseOnEvent.spec_to_u8() == 0x86,
        Service::LinkCtrl.spec_to_u8() == 0x87,
        Service::NRC.spec_to_u8() == 0x7F,
{
}

} // verus!

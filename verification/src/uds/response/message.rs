//! The response envelope: service, polarity, sub-function and data.

use vstd::prelude::*;
use crate::uds::error::{Iso14229Error, Iso14229ErrorView};
use crate::uds::service::{Service, SubFunction};
use crate::uds::code::Code;
use crate::uds::params::{DidConfig, did_config_ok};
use crate::uds::utils::data_length_check;
use crate::uds::response::{
    access_timing_param, authentication, clear_diagnostic_info, ctrl_dtc_setting, dynamically_define_did,
    ecu_reset, io_ctrl, link_ctrl, read_data_by_pid, read_did, read_mem_by_addr, request_transfer_exit,
    request_upload, response_on_event, routine_ctrl, secured_data_trans, security_access, session_ctrl,
    tester_present, transfer_data, write_did, write_mem_by_addr,
};

verus! {

/// The mathematical content of a [`Response`].
pub struct ResponseView {
    pub service: Service,
    pub negative: bool,
    pub sub_func: Option<u8>,
    pub data: Seq<u8>,
}

/// Whether the data of a positive response passes the checks of its service
/// that need no data identifier configuration.
pub open spec fn spec_positive_ok(service: Service, sub_func: Option<u8>, data: Seq<u8>) -> bool {
    match service {
        Service::AccessTimingParam => access_timing_param::spec_check(data, sub_func) is Ok,
        Service::Authentication => authentication::spec_check(data, sub_func) is Ok,
        Service::ClearDiagnosticInfo => clear_diagnostic_info::spec_check(data, sub_func) is Ok,
        Service::CtrlDTCSetting => ctrl_dtc_setting::spec_check(data, sub_func) is Ok,
        Service::DynamicalDefineDID => dynamically_define_did::spec_check(data, sub_func) is Ok,
        Service::ECUReset => ecu_reset::spec_check(data, sub_func) is Ok,
        Service::IOCtrl => sub_func is None && data.len() >= 2,
        Service::LinkCtrl => link_ctrl::spec_check(data, sub_func) is Ok,
        Service::ReadDataByPeriodId => read_data_by_pid::spec_check(data, sub_func) is Ok,
        Service::ReadDID => sub_func is None && data.len() >= 2,
        Service::ReadMemByAddr => read_mem_by_addr::spec_check(data, sub_func) is Ok,
        Service::RequestTransferExit => request_transfer_exit::spec_check(data, sub_func) is Ok,
        Service::RequestUpload => request_upload::spec_check(data, sub_func) is Ok,
        Service::ResponseOnEvent => response_on_event::spec_check(data, sub_func) is Ok,
        Service::RoutineCtrl => routine_ctrl::spec_check(data, sub_func) is Ok,
        Service::SecuredDataTrans => secured_data_trans::spec_check(data, sub_func) is Ok,
        Service::SecurityAccess => security_access::spec_check(data, sub_func) is Ok,
        Service::SessionCtrl => session_ctrl::spec_check(data, sub_func) is Ok,
        Service::TesterPresent => tester_present::spec_check(data, sub_func) is Ok,
        Service::TransferData => transfer_data::spec_check(data, sub_func) is Ok,
        Service::WriteDID => write_did::spec_check(data, sub_func) is Ok,
        Service::WriteMemByAddr => write_mem_by_addr::spec_check(data, sub_func) is Ok,
        _ => false,
    }
}

/// What every response satisfies: a negative one holds just its code; a
/// positive one passed the checks of its service.
pub open spec fn spec_response_ok(r: ResponseView) -> bool {
    if r.negative {
        r.sub_func is None && r.data.len() == 1
    } else {
        spec_positive_ok(r.service, r.sub_func, r.data)
    }
}

/// A UDS response.
#[derive(Debug)]
pub struct Response {
    service: Service,
    negative: bool,
    sub_func: Option<SubFunction>,
    data: Vec<u8>,
}

impl View for Response {
    type V = ResponseView;

    closed spec fn view(&self) -> ResponseView {
        ResponseView {
            service: self.service,
            negative: self.negative,
            sub_func: match self.sub_func {
                Some(s) => Some(s.0),
                None => None,
            },
            data: self.data@,
        }
    }
}

/// A construction outcome seen through the views of response and error.
pub open spec fn response_result_view(r: Result<Response, Iso14229Error>) -> Result<ResponseView, Iso14229ErrorView> {
    match r {
        Ok(x) => Ok(x@),
        Err(e) => Err(e@),
    }
}

/// The positive response of `service` when `check` passed, else the error.
pub open spec fn spec_positive(
    service: Service,
    sub_func: Option<u8>,
    data: Seq<u8>,
    check: Result<(), Iso14229ErrorView>,
) -> Result<ResponseView, Iso14229ErrorView> {
    match check {
        Ok(()) => Ok(ResponseView { service, negative: false, sub_func, data }),
        Err(e) => Err(e),
    }
}

/// The checks on the data of a positive response of `service`, with the data
/// identifier configuration `cfg`; `None` for a service whose responses this
/// library does not read.
pub open spec fn spec_service_check(
    service: Service,
    sub_func: Option<u8>,
    data: Seq<u8>,
    cfg: Map<u16, usize>,
) -> Option<Result<(), Iso14229ErrorView>> {
    match service {
        Service::AccessTimingParam => Some(access_timing_param::spec_check(data, sub_func)),
        Service::Authentication => Some(authentication::spec_check(data, sub_func)),
        Service::ClearDiagnosticInfo => Some(clear_diagnostic_info::spec_check(data, sub_func)),
        Service::CtrlDTCSetting => Some(ctrl_dtc_setting::spec_check(data, sub_func)),
        Service::DynamicalDefineDID => Some(dynamically_define_did::spec_check(data, sub_func)),
        Service::ECUReset => Some(ecu_reset::spec_check(data, sub_func)),
        Service::IOCtrl => Some(io_ctrl::spec_check(data, sub_func, cfg)),
        Service::LinkCtrl => Some(link_ctrl::spec_check(data, sub_func)),
        Service::ReadDataByPeriodId => Some(read_data_by_pid::spec_check(data, sub_func)),
        Service::ReadDID => Some(read_did::spec_check(data, sub_func, cfg)),
        Service::ReadMemByAddr => Some(read_mem_by_addr::spec_check(data, sub_func)),
        Service::RequestTransferExit => Some(request_transfer_exit::spec_check(data, sub_func)),
        Service::RequestUpload => Some(request_upload::spec_check(data, sub_func)),
        Service::ResponseOnEvent => Some(response_on_event::spec_check(data, sub_func)),
        Service::RoutineCtrl => Some(routine_ctrl::spec_check(data, sub_func)),
        Service::SecuredDataTrans => Some(secured_data_trans::spec_check(data, sub_func)),
        Service::SecurityAccess => Some(security_access::spec_check(data, sub_func)),
        Service::SessionCtrl => Some(session_ctrl::spec_check(data, sub_func)),
        Service::TesterPresent => Some(tester_present::spec_check(data, sub_func)),
        Service::TransferData => Some(transfer_data::spec_check(data, sub_func)),
        Service::WriteDID => Some(write_did::spec_check(data, sub_func)),
        Service::WriteMemByAddr => Some(write_mem_by_addr::spec_check(data, sub_func)),
        _ => None,
    }
}

/// Outcome of [`Response::new`]: for `Service::NRC` the data is the refused
/// service and the response code, giving a negative response of that
/// service; otherwise the positive response of `service`, when its data
/// passes the checks of that service.
pub open spec fn spec_new(service: Service, sub_func: Option<u8>, data: Seq<u8>, cfg: Map<u16, usize>) -> Result<
    ResponseView,
    Iso14229ErrorView,
> {
    if service == Service::NRC {
        if data.len() != 2 {
            Err(Iso14229ErrorView::InvalidDataLength { expect: 2, actual: data.len() as usize })
        } else {
            match Service::spec_from_u8(data[0]) {
                None => Err(Iso14229ErrorView::ReservedError(data[0])),
                Some(s) => Ok(ResponseView { service: s, negative: true, sub_func: None, data: seq![data[1]] }),
            }
        }
    } else {
        match spec_service_check(service, sub_func, data, cfg) {
            None => Err(Iso14229ErrorView::NotImplement),
            Some(check) => spec_positive(service, sub_func, data, check),
        }
    }
}

/// Outcome of reading a response from its bytes: 0x7F and the rest as
/// [`spec_new`] takes it for `Service::NRC`; otherwise the service identifier
/// plus 0x40, the sub-function byte where the service has one, and the data.
pub open spec fn spec_from_bytes(bytes: Seq<u8>, cfg: Map<u16, usize>) -> Result<ResponseView, Iso14229ErrorView> {
    if bytes.len() < 1 {
        Err(Iso14229ErrorView::InvalidDataLength { expect: 1, actual: bytes.len() as usize })
    } else if bytes[0] == 0x7F {
        spec_new(Service::NRC, None, bytes.skip(1), cfg)
    } else if bytes[0] < 0x40 {
        Err(Iso14229ErrorView::ReservedError(bytes[0]))
    } else {
        match Service::spec_from_u8((bytes[0] - 0x40) as u8) {
            None => Err(Iso14229ErrorView::ReservedError(bytes[0])),
            Some(s) => if s == Service::NRC {
                Err(Iso14229ErrorView::ReservedError(bytes[0]))
            } else if s.spec_has_sub_function() {
                if bytes.len() < 2 {
                    Err(Iso14229ErrorView::InvalidDataLength { expect: 2, actual: bytes.len() as usize })
                } else {
                    spec_new(s, Some(bytes[1]), bytes.skip(2), cfg)
                }
            } else {
                spec_new(s, None, bytes.skip(1), cfg)
            },
        }
    }
}

/// The bytes of a response: 0x7F, the service and the code of a negative
/// one; the service identifier plus 0x40, the sub-function byte if any and
/// the data of a positive one.
pub open spec fn spec_response_bytes(r: ResponseView) -> Seq<u8> {
    if r.negative {
        seq![0x7Fu8, r.service.spec_to_u8()] + r.data
    } else {
        seq![(r.service.spec_to_u8() + 0x40) as u8] + match r.sub_func {
            Some(s) => seq![s],
            None => Seq::<u8>::empty(),
        } + r.data
    }
}

/// A service identifier names one service, and that service has that identifier.
proof fn service_byte_inverse(v: u8)
    ensures
        Service::spec_from_u8(v) matches Some(s) ==> s.spec_to_u8() == v,
{
}

/// The data of a service passes its checks only with a sub-function byte
/// where the service has one, and only without one where it has none.
proof fn checked_sub_function(service: Service, sub_func: Option<u8>, data: Seq<u8>, cfg: Map<u16, usize>)
    requires
        spec_service_check(service, sub_func, data, cfg) == Some(Ok::<(), Iso14229ErrorView>(())),
    ensures
        service != Service::NRC,
        sub_func is Some <==> service.spec_has_sub_function(),
{
}

/// Writing a response read from bytes gives back those bytes.
pub proof fn response_bytes_read_write(bytes: Seq<u8>, cfg: Map<u16, usize>)
    requires
        spec_from_bytes(bytes, cfg) is Ok,
    ensures
        spec_response_bytes(spec_from_bytes(bytes, cfg)->Ok_0) == bytes,
{
    let r = spec_from_bytes(bytes, cfg)->Ok_0;
    if bytes[0] == 0x7F {
        service_byte_inverse(bytes[1]);
        assert(spec_response_bytes(r) =~= bytes);
    } else {
        service_byte_inverse((bytes[0] - 0x40) as u8);
        let s = Service::spec_from_u8((bytes[0] - 0x40) as u8)->0;
        if s.spec_has_sub_function() {
            assert(spec_response_bytes(r) =~= bytes);
        } else {
            assert(spec_response_bytes(r) =~= bytes);
        }
    }
}

/// Reading the bytes of a response gives back that response: a negative one
/// holding one code, or a positive one whose data passes the checks of its
/// service (with `cfg` where those checks read data identifiers).
pub proof fn response_bytes_write_read(r: ResponseView, cfg: Map<u16, usize>)
    requires
        r.negative ==> r.sub_func is None && r.data.len() == 1,
        !r.negative ==> spec_service_check(r.service, r.sub_func, r.data, cfg) == Some(Ok::<(), Iso14229ErrorView>(())),
    ensures
        spec_from_bytes(spec_response_bytes(r), cfg) == Ok::<ResponseView, Iso14229ErrorView>(r),
{
    let b = spec_response_bytes(r);
    crate::uds::service::service_byte_roundtrip(r.service);
    if r.negative {
        assert(b.skip(1) =~= seq![r.service.spec_to_u8(), r.data[0]]);
        assert(seq![b.skip(1)[1]] =~= r.data);
    } else {
        checked_sub_function(r.service, r.sub_func, r.data, cfg);
        assert(((r.service.spec_to_u8() + 0x40) as u8 - 0x40) as u8 == r.service.spec_to_u8());
        match r.sub_func {
            Some(x) => {
                assert(b.skip(2) =~= r.data);
            },
            None => {
                assert(b.skip(1) =~= r.data);
            },
        }
    }
}

impl Response {
    #[verifier::type_invariant]
    closed spec fn inv(self) -> bool {
        spec_response_ok(self@)
    }

    /// Builds a response whose content passed its checks.
    pub(crate) fn from_parts(service: Service, negative: bool, sub_func: Option<u8>, data: &[u8]) -> (r: Response)
        requires
            spec_response_ok(ResponseView { service, negative, sub_func, data: data@ }),
        ensures
            r@ == (ResponseView { service, negative, sub_func, data: data@ }),
    {
        let sub = match sub_func {
            Some(s) => Some(SubFunction::new(s)),
            None => None,
        };
        Response { service, negative, sub_func: sub, data: vstd::slice::slice_to_vec(data) }
    }

    /// Every response satisfies [`spec_response_ok`], and its data fits in memory.
    pub fn assert_ok(&self)
        ensures
            spec_response_ok(self@),
            self@.data.len() <= usize::MAX,
    {
        proof {
            use_type_invariant(self);
            assert(self.data.len() == self.data@.len());
        }
    }

    pub fn service(&self) -> (r: Service)
        ensures
            r == self@.service,
    {
        self.service
    }

    pub fn is_negative(&self) -> (r: bool)
        ensures
            r == self@.negative,
    {
        self.negative
    }

    pub fn sub_function(&self) -> (r: Option<SubFunction>)
        ensures
            match r {
                Some(s) => self@.sub_func == Some(s.0),
                None => self@.sub_func is None,
            },
    {
        self.sub_func
    }

    /// The data after the service and sub-function bytes.
    pub fn raw_data(&self) -> (r: &Vec<u8>)
        ensures
            r@ == self@.data,
    {
        &self.data
    }

    /// The response code of a negative response.
    pub fn nrc_code(&self) -> (r: Result<Code, Iso14229Error>)
        ensures
            self@.negative ==> (r matches Ok(c) && c == Code::spec_from_u8(self@.data[0])),
            !self@.negative ==> (r matches Err(e) && e@ == Iso14229ErrorView::ServiceError(self@.service)),
    {
        proof {
            use_type_invariant(self);
        }
        if self.negative {
            Ok(Code::from_u8(self.data[0]))
        } else {
            Err(Iso14229Error::ServiceError(self.service))
        }
    }

    /// The response of `service` that carries `data`; see [`spec_new`].
    pub fn new(service: Service, sub_func: Option<u8>, data: &[u8], cfg: &DidConfig) -> (r: Result<Response, Iso14229Error>)
        requires
            did_config_ok(cfg@),
            data@.len() <= isize::MAX,
        ensures
            response_result_view(r) == spec_new(service, sub_func, data@, cfg@),
    {
        match service {
            Service::NRC => {
                data_length_check(data.len(), 2, true)?;
                let refused = match Service::from_u8(data[0]) {
                    Some(s) => s,
                    None => return Err(Iso14229Error::ReservedError(data[0])),
                };
                let code = vec![data[1]];
                proof {
                    assert(code@ =~= seq![data@[1]]);
                }
                Ok(Response::from_parts(refused, true, None, code.as_slice()))
            },
            Service::AccessTimingParam => access_timing_param::AccessTimingParameter::new_response(data, sub_func, cfg),
            Service::Authentication => authentication::Authentication::new_response(data, sub_func, cfg),
            Service::ClearDiagnosticInfo => clear_diagnostic_info::ClearDiagnosticInfo::new_response(data, sub_func, cfg),
            Service::CtrlDTCSetting => ctrl_dtc_setting::CtrlDTCSetting::new_response(data, sub_func, cfg),
            Service::DynamicalDefineDID => dynamically_define_did::DynamicallyDefineDID::new_response(data, sub_func, cfg),
            Service::ECUReset => ecu_reset::ECUReset::new_response(data, sub_func, cfg),
            Service::IOCtrl => io_ctrl::IOCtrl::with_config(data, sub_func, cfg),
            Service::LinkCtrl => link_ctrl::LinkCtrl::new_response(data, sub_func, cfg),
            Service::ReadDataByPeriodId => read_data_by_pid::ReadDataByPeriodId::without_config(data, sub_func),
            Service::ReadDID => read_did::ReadDID::new_response(data, sub_func, cfg),
            Service::ReadMemByAddr => read_mem_by_addr::ReadMemByAddr::new_response(data, sub_func, cfg),
            Service::RequestTransferExit => request_transfer_exit::RequestTransferExit::without_config(data, sub_func),
            Service::RequestUpload => request_upload::RequestUpload::new_response(data, sub_func, cfg),
            Service::ResponseOnEvent => response_on_event::ResponseOnEvent::with_config(data, sub_func, cfg),
            Service::RoutineCtrl => routine_ctrl::RoutineCtrl::new_response(data, sub_func, cfg),
            Service::SecuredDataTrans => secured_data_trans::SecuredDataTrans::without_config(data, sub_func),
            Service::SecurityAccess => security_access::SecurityAccess::new_response(data, sub_func, cfg),
            Service::SessionCtrl => session_ctrl::SessionCtrl::new_response(data, sub_func, cfg),
            Service::TesterPresent => tester_present::TesterPresent::new_response(data, sub_func, cfg),
            Service::TransferData => transfer_data::TransferData::without_config(data, sub_func),
            Service::WriteDID => write_did::WriteDID::new_response(data, sub_func, cfg),
            Service::WriteMemByAddr => write_mem_by_addr::WriteMemByAddr::new_response(data, sub_func, cfg),
            _ => Err(Iso14229Error::NotImplement),
        }
    }

    /// Reads a response from its bytes; see [`spec_from_bytes`].
    pub fn try_from_bytes(bytes: &[u8], cfg: &DidConfig) -> (r: Result<Response, Iso14229Error>)
        requires
            did_config_ok(cfg@),
            bytes@.len() <= isize::MAX,
        ensures
            response_result_view(r) == spec_from_bytes(bytes@, cfg@),
    {
        let len = bytes.len();
        data_length_check(len, 1, false)?;
        let sid = bytes[0];
        if sid == 0x7F {
            return Response::new(Service::NRC, None, vstd::slice::slice_subrange(bytes, 1, len), cfg);
        }
        if sid < 0x40 {
            return Err(Iso14229Error::ReservedError(sid));
        }
        let service = match Service::from_u8(sid - 0x40) {
            Some(s) => s,
            None => return Err(Iso14229Error::ReservedError(sid)),
        };
        if service == Service::NRC {
            return Err(Iso14229Error::ReservedError(sid));
        }
        if service.has_sub_function() {
            data_length_check(len, 2, false)?;
            Response::new(service, Some(bytes[1]), vstd::slice::slice_subrange(bytes, 2, len), cfg)
        } else {
            Response::new(service, None, vstd::slice::slice_subrange(bytes, 1, len), cfg)
        }
    }

    /// The bytes of the response; see [`spec_response_bytes`].
    pub fn to_bytes(self) -> (r: Vec<u8>)
        ensures
            r@ == spec_response_bytes(self@),
    {
        proof {
            use_type_invariant(&self);
        }
        let ghost view = self@;
        let mut result: Vec<u8>;
        if self.negative {
            result = vec![0x7F, self.service.to_u8()];
        } else {
            let sid = self.service.to_u8();
            assert(sid + 0x40 < 256);
            result = vec![sid + 0x40];
            if let Some(s) = self.sub_func {
                result.push(s.0);
            }
        }
        crate::isotp::bytes_util::append_slice(&mut result, self.data.as_slice());
        assert(result@ =~= spec_response_bytes(view));
        result
    }
}

} // verus!

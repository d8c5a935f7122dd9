use vstd::prelude::*;
use std::collections::HashMap;
use crate::uds::error::{Iso14229Error, Iso14229ErrorView};
use crate::uds::service::Service;
use crate::uds::response::message::{Response, ResponseView, response_result_view, spec_positive};

verus! {

/// Response data of service 0x14 (empty).
#[derive(Debug, Clone, PartialEq, Eq)]
pub struct ClearDiagnosticInfo {
    pub data: Vec<u8>,
}

/// The checks on the data of a positive response.
pub open spec fn spec_check(data: Seq<u8>, sub_func: Option<u8>) -> Result<(), Iso14229ErrorView> {
    match sub_func {
        Some(_) => Err(Iso14229ErrorView::SubFunctionError(Service::ClearDiagnosticInfo)),
        None => crate::uds::utils::spec_length_check(data.len() as usize, 0, true),
    }
}

impl ClearDiagnosticInfo {
    /// Builds the positive response that carries `data`.
    pub fn new_response(data: &[u8], sub_func: Option<u8>, _cfg: &HashMap<u16, usize>) -> (r: Result<Response, Iso14229Error>)
        ensures
            response_result_view(r) == spec_positive(Service::ClearDiagnosticInfo, sub_func, data@, spec_check(data@, sub_func)),
    {
        match sub_func {
            Some(_) => return Err(Iso14229Error::SubFunctionError(Service::ClearDiagnosticInfo)),
            None => crate::uds::utils::data_length_check(data.len(), 0, true)?,
        }
        Ok(Response::from_parts(Service::ClearDiagnosticInfo, false, sub_func, data))
    }

    /// Reads the data of a response of this service.
    pub fn try_from(resp: &Response, _cfg: &HashMap<u16, usize>) -> (r: Result<ClearDiagnosticInfo, Iso14229Error>)
        ensures
            resp@.service != Service::ClearDiagnosticInfo || resp@.sub_func is Some ==> (r matches Err(e) && e@ == Iso14229ErrorView::ServiceError(resp@.service)),
            !(resp@.service != Service::ClearDiagnosticInfo || resp@.sub_func is Some) ==> (r matches Ok(v) && v.data@ == resp@.data),
    {
        let service = resp.service();
        if service != Service::ClearDiagnosticInfo || resp.sub_function().is_some() {
            return Err(Iso14229Error::ServiceError(service));
        }
        Ok(ClearDiagnosticInfo { data: resp.raw_data().clone() })
    }

    /// The data bytes.
    pub fn to_bytes(self) -> (r: Vec<u8>)
        ensures
            r@ == self.data@,
    {
        self.data
    }
}

} // verus!

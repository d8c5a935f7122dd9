use vstd::prelude::*;
use std::collections::HashMap;
use crate::uds::error::{Iso14229Error, Iso14229ErrorView};
use crate::uds::service::Service;
use crate::uds::response::message::{Response, ResponseView, response_result_view, spec_positive};
use crate::uds::types::TesterPresentType;

verus! {

/// Response data of service 0x3E (empty).
#[derive(Debug, Clone, PartialEq, Eq)]
pub struct TesterPresent {
    pub data: Vec<u8>,
}

/// The checks on the data of a positive response.
pub open spec fn spec_check(data: Seq<u8>, sub_func: Option<u8>) -> Result<(), Iso14229ErrorView> {
    match sub_func {
        Some(s) => match TesterPresentType::spec_from_u8(s) {
            None => Err(Iso14229ErrorView::ReservedError(s)),
            Some(_) => crate::uds::utils::spec_length_check(data.len() as usize, 0, true),
        },
        None => Err(Iso14229ErrorView::SubFunctionError(Service::TesterPresent)),
    }
}

impl TesterPresent {
    /// Builds the positive response that carries `data`.
    pub fn new_response(data: &[u8], sub_func: Option<u8>, _cfg: &HashMap<u16, usize>) -> (r: Result<Response, Iso14229Error>)
        ensures
            response_result_view(r) == spec_positive(Service::TesterPresent, sub_func, data@, spec_check(data@, sub_func)),
    {
        match sub_func {
            Some(s) => {
                let _ = TesterPresentType::try_from(s)?;
                crate::uds::utils::data_length_check(data.len(), 0, true)?;
            },
            None => return Err(Iso14229Error::SubFunctionError(Service::TesterPresent)),
        }
        Ok(Response::from_parts(Service::TesterPresent, false, sub_func, data))
    }

    /// Reads the data of a response of this service.
    pub fn try_from(resp: &Response, _cfg: &HashMap<u16, usize>) -> (r: Result<TesterPresent, Iso14229Error>)
        ensures
            resp@.service != Service::TesterPresent || resp@.sub_func is None ==> (r matches Err(e) && e@ == Iso14229ErrorView::ServiceError(resp@.service)),
            !(resp@.service != Service::TesterPresent || resp@.sub_func is None) ==> (r matches Ok(v) && v.data@ == resp@.data),
    {
        let service = resp.service();
        if service != Service::TesterPresent || resp.sub_function().is_none() {
            return Err(Iso14229Error::ServiceError(service));
        }
        Ok(TesterPresent { data: resp.raw_data().clone() })
    }

    /// The data bytes.
    pub fn to_bytes(self) -> (r: Vec<u8>)
        ensures
            r@ == self.data@,
    {
        self.data
    }
}

} // verus!

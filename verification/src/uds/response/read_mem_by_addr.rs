use vstd::prelude::*;
use std::collections::HashMap;
use crate::uds::error::{Iso14229Error, Iso14229ErrorView};
use crate::uds::service::Service;
use crate::uds::response::message::{Response, ResponseView, response_result_view, spec_positive};

verus! {

/// Response data of service 0x23: the memory read.
#[derive(Debug, Clone, PartialEq, Eq)]
pub struct ReadMemByAddr {
    pub data: Vec<u8>,
}

/// The checks on the data of a positive response.
pub open spec fn spec_check(data: Seq<u8>, sub_func: Option<u8>) -> Result<(), Iso14229ErrorView> {
    match sub_func {
        Some(_) => Err(Iso14229ErrorView::SubFunctionError(Service::ReadMemByAddr)),
        None => Ok(()),
    }
}

impl ReadMemByAddr {
    /// Builds the positive response that carries `data`.
    pub fn new_response(data: &[u8], sub_func: Option<u8>, _cfg: &HashMap<u16, usize>) -> (r: Result<Response, Iso14229Error>)
        ensures
            response_result_view(r) == spec_positive(Service::ReadMemByAddr, sub_func, data@, spec_check(data@, sub_func)),
    {
        if sub_func.is_some() {
            return Err(Iso14229Error::SubFunctionError(Service::ReadMemByAddr));
        }
        Ok(Response::from_parts(Service::ReadMemByAddr, false, sub_func, data))
    }

    /// Reads the data of a response of this service.
    pub fn try_from(resp: &Response, _cfg: &HashMap<u16, usize>) -> (r: Result<ReadMemByAddr, Iso14229Error>)
        ensures
            resp@.service != Service::ReadMemByAddr || resp@.sub_func is Some ==> (r matches Err(e) && e@ == Iso14229ErrorView::ServiceError(resp@.service)),
            !(resp@.service != Service::ReadMemByAddr || resp@.sub_func is Some) ==> (r matches Ok(v) && v.data@ == resp@.data),
    {
        let service = resp.service();
        if service != Service::ReadMemByAddr || resp.sub_function().is_some() {
            return Err(Iso14229Error::ServiceError(service));
        }
        Ok(ReadMemByAddr { data: resp.raw_data().clone() })
    }

    /// The data bytes.
    pub fn to_bytes(self) -> (r: Vec<u8>)
        ensures
            r@ == self.data@,
    {
        self.data
    }
}

} // verus!

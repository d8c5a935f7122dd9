use vstd::prelude::*;
use std::collections::HashMap;
use crate::uds::error::{Iso14229Error, Iso14229ErrorView};
use crate::uds::service::Service;
use crate::uds::response::message::{Response, ResponseView, response_result_view, spec_positive};

verus! {

/// Response data of service 0x37: the transfer response parameters.
#[derive(Debug, Clone, PartialEq, Eq)]
pub struct RequestTransferExit {
    pub data: Vec<u8>,
}

/// The checks on the data of a positive response.
pub open spec fn spec_check(data: Seq<u8>, sub_func: Option<u8>) -> Result<(), Iso14229ErrorView> {
    match sub_func {
        Some(_) => Err(Iso14229ErrorView::SubFunctionError(Service::RequestTransferExit)),
        None => Ok(()),
    }
}

impl RequestTransferExit {
    /// Builds the positive response that carries `data`.
    pub fn without_config(data: &[u8], sub_func: Option<u8>) -> (r: Result<Response, Iso14229Error>)
        ensures
            response_result_view(r) == spec_positive(Service::RequestTransferExit, sub_func, data@, spec_check(data@, sub_func)),
    {
        if sub_func.is_some() {
            return Err(Iso14229Error::SubFunctionError(Service::RequestTransferExit));
        }
        Ok(Response::from_parts(Service::RequestTransferExit, false, sub_func, data))
    }

    /// Reads the data of a response of this service.
    pub fn try_without_config(resp: &Response) -> (r: Result<RequestTransferExit, Iso14229Error>)
        ensures
            resp@.service != Service::RequestTransferExit || resp@.sub_func is Some ==> (r matches Err(e) && e@ == Iso14229ErrorView::ServiceError(resp@.service)),
            !(resp@.service != Service::RequestTransferExit || resp@.sub_func is Some) ==> (r matches Ok(v) && v.data@ == resp@.data),
    {
        let service = resp.service();
        if service != Service::RequestTransferExit || resp.sub_function().is_some() {
            return Err(Iso14229Error::ServiceError(service));
        }
        Ok(RequestTransferExit { data: resp.raw_data().clone() })
    }

    /// The data bytes.
    pub fn to_bytes(self) -> (r: Vec<u8>)
        ensures
            r@ == self.data@,
    {
        self.data
    }
}

} // verus!

use vstd::prelude::*;
use crate::uds::error::{Iso14229Error, Iso14229ErrorView};
use crate::uds::service::Service;
use crate::uds::utils::{data_length_check, spec_length_check};
use crate::uds::response::message::{Response, ResponseView, response_result_view, spec_positive};
use crate::isotp::bytes_util::{copy_range, append_slice};

verus! {

/// Response data of service 0x36: block sequence counter and parameters.
#[derive(Debug, Clone, PartialEq, Eq)]
pub struct TransferData {
    pub sequence: u8,
    pub data: Vec<u8>,
}

/// The checks on the data of a positive response: at least the counter.
pub open spec fn spec_check(data: Seq<u8>, sub_func: Option<u8>) -> Result<(), Iso14229ErrorView> {
    match sub_func {
        Some(_) => Err(Iso14229ErrorView::SubFunctionError(Service::TransferData)),
        None => spec_length_check(data.len() as usize, 1, false),
    }
}

impl TransferData {
    /// Builds the positive response that carries `data`.
    pub fn without_config(data: &[u8], sub_func: Option<u8>) -> (r: Result<Response, Iso14229Error>)
        ensures
            response_result_view(r) == spec_positive(Service::TransferData, sub_func, data@, spec_check(data@, sub_func)),
    {
        match sub_func {
            Some(_) => return Err(Iso14229Error::SubFunctionError(Service::TransferData)),
            None => data_length_check(data.len(), 1, false)?,
        }
        Ok(Response::from_parts(Service::TransferData, false, sub_func, data))
    }

    /// Reads the counter and the parameters of a response of this service.
    pub fn try_without_config(resp: &Response) -> (r: Result<TransferData, Iso14229Error>)
        ensures
            resp@.service != Service::TransferData || resp@.sub_func is Some
                ==> (r matches Err(e) && e@ == Iso14229ErrorView::ServiceError(resp@.service)),
            !(resp@.service != Service::TransferData || resp@.sub_func is Some)
                ==> (r matches Ok(v) && v.sequence == resp@.data[0] && v.data@ == resp@.data.skip(1)),
    {
        resp.assert_ok();
        let service = resp.service();
        if service != Service::TransferData || resp.sub_function().is_some() {
            return Err(Iso14229Error::ServiceError(service));
        }
        let data = resp.raw_data();
        let sequence = data[0];
        Ok(TransferData { sequence, data: copy_range(data.as_slice(), 1, data.len()) })
    }

    /// The counter followed by the parameters.
    pub fn to_bytes(self) -> (r: Vec<u8>)
        ensures
            r@ == seq![self.sequence] + self.data@,
    {
        let mut result = vec![self.sequence];
        append_slice(&mut result, self.data.as_slice());
        result
    }
}

} // verus!

use vstd::prelude::*;
use crate::uds::error::{Iso14229Error, Iso14229ErrorView};
use crate::uds::service::Service;
use crate::uds::utils::{data_length_check, spec_length_check};
use crate::uds::response::message::{Response, ResponseView, response_result_view, spec_positive};
use crate::isotp::bytes_util::{copy_range, append_slice};

verus! {

/// Response data of service 0x2A: a periodic identifier and its record.
#[derive(Debug, Clone, PartialEq, Eq)]
pub struct ReadDataByPeriodId {
    pub did: u8,
    pub record: Vec<u8>,
}

/// The checks on the data of a positive response: at least two bytes.
pub open spec fn spec_check(data: Seq<u8>, sub_func: Option<u8>) -> Result<(), Iso14229ErrorView> {
    match sub_func {
        Some(_) => Err(Iso14229ErrorView::SubFunctionError(Service::ReadDataByPeriodId)),
        None => spec_length_check(data.len() as usize, 2, false),
    }
}

impl ReadDataByPeriodId {
    /// Builds the positive response that carries `data`.
    pub fn without_config(data: &[u8], sub_func: Option<u8>) -> (r: Result<Response, Iso14229Error>)
        ensures
            response_result_view(r) == spec_positive(Service::ReadDataByPeriodId, sub_func, data@, spec_check(data@, sub_func)),
    {
        match sub_func {
            Some(_) => return Err(Iso14229Error::SubFunctionError(Service::ReadDataByPeriodId)),
            None => data_length_check(data.len(), 2, false)?,
        }
        Ok(Response::from_parts(Service::ReadDataByPeriodId, false, sub_func, data))
    }

    /// Reads the identifier and the record of a response of this service.
    pub fn try_without_config(resp: &Response) -> (r: Result<ReadDataByPeriodId, Iso14229Error>)
        ensures
            resp@.service != Service::ReadDataByPeriodId || resp@.sub_func is Some
                ==> (r matches Err(e) && e@ == Iso14229ErrorView::ServiceError(resp@.service)),
            !(resp@.service != Service::ReadDataByPeriodId || resp@.sub_func is Some)
                ==> (r matches Ok(v) && v.did == resp@.data[0] && v.record@ == resp@.data.skip(1)),
    {
        resp.assert_ok();
        let service = resp.service();
        if service != Service::ReadDataByPeriodId || resp.sub_function().is_some() {
            return Err(Iso14229Error::ServiceError(service));
        }
        let data = resp.raw_data();
        let did = data[0];
        Ok(ReadDataByPeriodId { did, record: copy_range(data.as_slice(), 1, data.len()) })
    }

    /// The identifier followed by the record.
    pub fn to_bytes(self) -> (r: Vec<u8>)
        ensures
            r@ == seq![self.did] + self.record@,
    {
        let mut result = vec![self.did];
        append_slice(&mut result, self.record.as_slice());
        result
    }
}

} // verus!

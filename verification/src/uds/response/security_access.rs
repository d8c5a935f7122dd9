use vstd::prelude::*;
use std::collections::HashMap;
use crate::uds::error::{Iso14229Error, Iso14229ErrorView};
use crate::uds::service::Service;
use crate::uds::response::message::{Response, ResponseView, response_result_view, spec_positive};

verus! {

/// Response data of service 0x27: the seed (empty when a key was accepted).
#[derive(Debug, Clone, PartialEq, Eq)]
pub struct SecurityAccess {
    pub key: Vec<u8>,
}

/// The checks on the data of a positive response.
pub open spec fn spec_check(data: Seq<u8>, sub_func: Option<u8>) -> Result<(), Iso14229ErrorView> {
    match sub_func {
        Some(level) => if level % 2 != 0 && data.len() == 0 {
            Err(Iso14229ErrorView::InvalidParam("Security access response does not contain a security key"@))
        } else {
            Ok(())
        },
        None => Err(Iso14229ErrorView::SubFunctionError(Service::SecurityAccess)),
    }
}

impl SecurityAccess {
    /// Builds the positive response that carries `data`.
    pub fn new_response(data: &[u8], sub_func: Option<u8>, _cfg: &HashMap<u16, usize>) -> (r: Result<Response, Iso14229Error>)
        ensures
            response_result_view(r) == spec_positive(Service::SecurityAccess, sub_func, data@, spec_check(data@, sub_func)),
    {
        match sub_func {
            Some(level) => {
                if level % 2 != 0 && data.len() == 0 {
                    return Err(Iso14229Error::InvalidParam(
                        String::from_str("Security access response does not contain a security key"),
                    ));
                }
            },
            None => return Err(Iso14229Error::SubFunctionError(Service::SecurityAccess)),
        }
        Ok(Response::from_parts(Service::SecurityAccess, false, sub_func, data))
    }

    /// Reads the data of a response of this service.
    pub fn try_from(resp: &Response, _cfg: &HashMap<u16, usize>) -> (r: Result<SecurityAccess, Iso14229Error>)
        ensures
            resp@.service != Service::SecurityAccess || resp@.sub_func is None ==> (r matches Err(e) && e@ == Iso14229ErrorView::ServiceError(resp@.service)),
            !(resp@.service != Service::SecurityAccess || resp@.sub_func is None) ==> (r matches Ok(v) && v.key@ == resp@.data),
    {
        let service = resp.service();
        if service != Service::SecurityAccess || resp.sub_function().is_none() {
            return Err(Iso14229Error::ServiceError(service));
        }
        Ok(SecurityAccess { key: resp.raw_data().clone() })
    }

    /// The data bytes.
    pub fn to_bytes(self) -> (r: Vec<u8>)
        ensures
            r@ == self.key@,
    {
        self.key
    }
}

} // verus!

use vstd::prelude::*;
use std::collections::HashMap;
use crate::uds::error::{Iso14229Error, Iso14229ErrorView};
use crate::uds::service::Service;
use crate::uds::types::ECUResetType;
use crate::uds::utils::{data_length_check, spec_length_check};
use crate::uds::response::message::{Response, ResponseView, response_result_view, spec_positive};

verus! {

/// Response data of service 0x11: the power-down time, present only for
/// "enable rapid power shutdown".
#[derive(Debug, Copy, Clone, PartialEq, Eq, Structural)]
pub struct ECUReset {
    pub second: Option<u8>,
}

/// The checks on the data of a positive response.
pub open spec fn spec_check(data: Seq<u8>, sub_func: Option<u8>) -> Result<(), Iso14229ErrorView> {
    match sub_func {
        Some(s) => match ECUResetType::spec_from_u8(s) {
            None => Err(Iso14229ErrorView::ReservedError(s)),
            Some(ECUResetType::EnableRapidPowerShutDown) => spec_length_check(data.len() as usize, 1, true),
            Some(_) => spec_length_check(data.len() as usize, 0, true),
        },
        None => Err(Iso14229ErrorView::SubFunctionError(Service::ECUReset)),
    }
}

impl ECUReset {
    /// Builds the positive response that carries `data`.
    pub fn new_response(data: &[u8], sub_func: Option<u8>, _cfg: &HashMap<u16, usize>) -> (r: Result<Response, Iso14229Error>)
        ensures
            response_result_view(r) == spec_positive(Service::ECUReset, sub_func, data@, spec_check(data@, sub_func)),
    {
        match sub_func {
            Some(s) => {
                let data_len = data.len();
                match ECUResetType::try_from(s)? {
                    ECUResetType::EnableRapidPowerShutDown => data_length_check(data_len, 1, true)?,
                    _ => data_length_check(data_len, 0, true)?,
                }
            },
            None => return Err(Iso14229Error::SubFunctionError(Service::ECUReset)),
        }
        Ok(Response::from_parts(Service::ECUReset, false, sub_func, data))
    }

    /// Reads the power-down time of a response of this service.
    pub fn try_from(resp: &Response, _cfg: &HashMap<u16, usize>) -> (r: Result<ECUReset, Iso14229Error>)
        ensures
            resp@.service != Service::ECUReset || resp@.sub_func is None
                ==> (r matches Err(e) && e@ == Iso14229ErrorView::ServiceError(resp@.service)),
            !(resp@.service != Service::ECUReset || resp@.sub_func is None) ==> (r matches Ok(v) && v.second == if resp@.sub_func == Some(4u8) {
                Some(resp@.data[0])
            } else {
                None::<u8>
            }),
    {
        resp.assert_ok();
        let service = resp.service();
        let sub = match resp.sub_function() {
            Some(s) => s,
            None => return Err(Iso14229Error::ServiceError(service)),
        };
        if service != Service::ECUReset {
            return Err(Iso14229Error::ServiceError(service));
        }
        let kind = ECUResetType::try_from(sub.function_byte())?;
        let second = match kind {
            ECUResetType::EnableRapidPowerShutDown => Some(resp.raw_data()[0]),
            _ => None,
        };
        Ok(ECUReset { second })
    }

    pub fn to_bytes(self) -> (r: Vec<u8>)
        ensures
            r@ == match self.second {
                Some(v) => seq![v],
                None => Seq::<u8>::empty(),
            },
    {
        match self.second {
            Some(v) => vec![v],
            None => Vec::new(),
        }
    }
}

} // verus!

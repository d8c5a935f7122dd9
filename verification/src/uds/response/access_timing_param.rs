use vstd::prelude::*;
use std::collections::HashMap;
use crate::uds::error::{Iso14229Error, Iso14229ErrorView};
use crate::uds::service::Service;
use crate::uds::response::message::{Response, ResponseView, response_result_view, spec_positive};
use crate::uds::types::TimingParameterAccessType;
use crate::uds::hex_text::{hex_text, hex_encode};

verus! {

/// Response data of service 0x83: the timing parameter record.
#[derive(Debug, Clone, PartialEq, Eq)]
pub struct AccessTimingParameter {
    pub data: Vec<u8>,
}

/// The checks on the data of a positive response.
pub open spec fn spec_check(data: Seq<u8>, sub_func: Option<u8>) -> Result<(), Iso14229ErrorView> {
    match sub_func {
        Some(s) => match TimingParameterAccessType::spec_from_u8(s) {
            None => Err(Iso14229ErrorView::ReservedError(s)),
            Some(TimingParameterAccessType::ReadExtendedTimingParameterSet)
            | Some(TimingParameterAccessType::ReadCurrentlyActiveTimingParameters) => Ok(()),
            Some(_) => if data.len() == 0 {
                Ok(())
            } else {
                Err(Iso14229ErrorView::InvalidData(hex_text(data)))
            },
        },
        None => Err(Iso14229ErrorView::SubFunctionError(Service::AccessTimingParam)),
    }
}

/// What a positive response of this service may carry: reading the extended
/// timing parameter set (0x01) or the currently active parameters (0x03)
/// accepts any data, the timing record read; setting the parameters to their
/// defaults (0x02) or to given values (0x04) accepts only empty data and
/// refuses other data as invalid; any other sub-function byte is reserved,
/// and a response without one is refused.
pub proof fn access_timing_data_rules(data: Seq<u8>, s: u8)
    ensures
        (s == 0x01 || s == 0x03) ==> spec_check(data, Some(s)) is Ok,
        (s == 0x02 || s == 0x04) ==> (spec_check(data, Some(s)) is Ok <==> data.len() == 0),
        (s == 0x02 || s == 0x04) && data.len() > 0
            ==> spec_check(data, Some(s)) == Err::<(), Iso14229ErrorView>(Iso14229ErrorView::InvalidData(hex_text(data))),
        !(0x01 <= s <= 0x04) ==> spec_check(data, Some(s)) == Err::<(), Iso14229ErrorView>(Iso14229ErrorView::ReservedError(s)),
        spec_check(data, None) == Err::<(), Iso14229ErrorView>(Iso14229ErrorView::SubFunctionError(Service::AccessTimingParam)),
{
}

impl AccessTimingParameter {
    /// Builds the positive response that carries `data`.
    pub fn new_response(data: &[u8], sub_func: Option<u8>, _cfg: &HashMap<u16, usize>) -> (r: Result<Response, Iso14229Error>)
        ensures
            response_result_view(r) == spec_positive(Service::AccessTimingParam, sub_func, data@, spec_check(data@, sub_func)),
    {
        match sub_func {
            Some(s) => {
                match TimingParameterAccessType::try_from(s)? {
                    TimingParameterAccessType::ReadExtendedTimingParameterSet
                    | TimingParameterAccessType::ReadCurrentlyActiveTimingParameters => {},
                    _ => {
                        if data.len() != 0 {
                            return Err(Iso14229Error::InvalidData(hex_encode(data)));
                        }
                    },
                }
            },
            None => return Err(Iso14229Error::SubFunctionError(Service::AccessTimingParam)),
        }
        Ok(Response::from_parts(Service::AccessTimingParam, false, sub_func, data))
    }

    /// Reads the data of a response of this service.
    pub fn try_from(resp: &Response, _cfg: &HashMap<u16, usize>) -> (r: Result<AccessTimingParameter, Iso14229Error>)
        ensures
            resp@.service != Service::AccessTimingParam || resp@.sub_func is None ==> (r matches Err(e) && e@ == Iso14229ErrorView::ServiceError(resp@.service)),
            !(resp@.service != Service::AccessTimingParam || resp@.sub_func is None) ==> (r matches Ok(v) && v.data@ == resp@.data),
    {
        let service = resp.service();
        if service != Service::AccessTimingParam || resp.sub_function().is_none() {
            return Err(Iso14229Error::ServiceError(service));
        }
        Ok(AccessTimingParameter { data: resp.raw_data().clone() })
    }

    /// The data bytes.
    pub fn to_bytes(self) -> (r: Vec<u8>)
        ensures
            r@ == self.data@,
    {
        self.data
    }
}

} // verus!

use vstd::prelude::*;
use std::collections::HashMap;
use crate::uds::error::{Iso14229Error, Iso14229ErrorView};
use crate::uds::service::Service;
use crate::uds::types::DTCSettingType;
use crate::uds::utils::{data_length_check, spec_length_check};
use crate::uds::response::message::{Response, ResponseView, response_result_view, spec_positive};

verus! {

/// Response data of service 0x85 (empty).
#[derive(Debug, Clone, PartialEq, Eq)]
pub struct CtrlDTCSetting {
    pub data: Vec<u8>,
}

/// The checks on the data of a positive response: only "on" and "off".
pub open spec fn spec_check(data: Seq<u8>, sub_func: Option<u8>) -> Result<(), Iso14229ErrorView> {
    match sub_func {
        Some(s) => match DTCSettingType::spec_from_u8(s) {
            None => Err(Iso14229ErrorView::ReservedError(s)),
            Some(DTCSettingType::On) | Some(DTCSettingType::Off) => spec_length_check(data.len() as usize, 0, true),
            Some(_) => Err(Iso14229ErrorView::ReservedError(s)),
        },
        None => Err(Iso14229ErrorView::SubFunctionError(Service::CtrlDTCSetting)),
    }
}

impl CtrlDTCSetting {
    /// Builds the positive response; it carries no data.
    pub fn new_response(data: &[u8], sub_func: Option<u8>, _cfg: &HashMap<u16, usize>) -> (r: Result<Response, Iso14229Error>)
        ensures
            response_result_view(r) == spec_positive(Service::CtrlDTCSetting, sub_func, data@, spec_check(data@, sub_func)),
    {
        match sub_func {
            Some(s) => {
                match DTCSettingType::try_from(s)? {
                    DTCSettingType::On | DTCSettingType::Off => {},
                    _ => return Err(Iso14229Error::ReservedError(s)),
                }
                data_length_check(data.len(), 0, true)?;
            },
            None => return Err(Iso14229Error::SubFunctionError(Service::CtrlDTCSetting)),
        }
        Ok(Response::from_parts(Service::CtrlDTCSetting, false, sub_func, data))
    }

    /// Reads a response of this service: "on" or "off" with no data.
    pub fn try_from(resp: &Response, _cfg: &HashMap<u16, usize>) -> (r: Result<CtrlDTCSetting, Iso14229Error>)
        ensures
            resp@.service != Service::CtrlDTCSetting || resp@.sub_func is None
                ==> (r matches Err(e) && e@ == Iso14229ErrorView::ServiceError(resp@.service)),
            !(resp@.service != Service::CtrlDTCSetting || resp@.sub_func is None) ==> (r matches Ok(v) && v.data@.len() == 0),
    {
        resp.assert_ok();
        let service = resp.service();
        if service != Service::CtrlDTCSetting || resp.sub_function().is_none() {
            return Err(Iso14229Error::ServiceError(service));
        }
        let sub_func = match resp.sub_function() {
            Some(s) => s,
            None => return Err(Iso14229Error::SubFunctionError(service)),
        };
        match DTCSettingType::try_from(sub_func.function_byte())? {
            DTCSettingType::On | DTCSettingType::Off => {},
            _ => return Err(Iso14229Error::ReservedError(sub_func.0)),
        }
        data_length_check(resp.raw_data().len(), 0, true)?;
        Ok(CtrlDTCSetting { data: Vec::new() })
    }

    pub fn to_bytes(self) -> (r: Vec<u8>)
        ensures
            r@ == self.data@,
    {
        self.data
    }
}

} // verus!

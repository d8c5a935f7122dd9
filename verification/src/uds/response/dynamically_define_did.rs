use vstd::prelude::*;
use std::collections::HashMap;
use crate::uds::error::{Iso14229Error, Iso14229ErrorView};
use crate::uds::service::Service;
use crate::uds::types::DefinitionType;
use crate::uds::params::{DynamicallyDID, read_be_u16, write_be_u16, be_u16, u16_bytes};
use crate::uds::response::message::{Response, ResponseView, response_result_view, spec_positive};

verus! {

/// Response data of service 0x2C: the defined identifier, if echoed.
#[derive(Debug, Copy, Clone, PartialEq, Eq, Structural)]
pub struct DynamicallyDefineDID(pub Option<DynamicallyDID>);

/// The checks on the data of a positive response: no data or two bytes.
pub open spec fn spec_check(data: Seq<u8>, sub_func: Option<u8>) -> Result<(), Iso14229ErrorView> {
    match sub_func {
        Some(s) => match DefinitionType::spec_from_u8(s) {
            None => Err(Iso14229ErrorView::ReservedError(s)),
            Some(_) => if data.len() == 0 || data.len() == 2 {
                Ok(())
            } else {
                Err(Iso14229ErrorView::InvalidDataLength { expect: 0, actual: data.len() as usize })
            },
        },
        None => Err(Iso14229ErrorView::SubFunctionError(Service::DynamicalDefineDID)),
    }
}

impl DynamicallyDefineDID {
    /// Builds the positive response that carries `data`.
    pub fn new_response(data: &[u8], sub_func: Option<u8>, _cfg: &HashMap<u16, usize>) -> (r: Result<Response, Iso14229Error>)
        ensures
            response_result_view(r) == spec_positive(Service::DynamicalDefineDID, sub_func, data@, spec_check(data@, sub_func)),
    {
        match sub_func {
            Some(s) => {
                let _ = DefinitionType::try_from(s)?;
                let data_len = data.len();
                if data_len != 0 && data_len != 2 {
                    return Err(Iso14229Error::InvalidDataLength { expect: 0, actual: data_len });
                }
            },
            None => return Err(Iso14229Error::SubFunctionError(Service::DynamicalDefineDID)),
        }
        Ok(Response::from_parts(Service::DynamicalDefineDID, false, sub_func, data))
    }

    /// Reads the echoed identifier of a response of this service.
    pub fn try_from(resp: &Response, _cfg: &HashMap<u16, usize>) -> (r: Result<DynamicallyDefineDID, Iso14229Error>)
        ensures
            resp@.service != Service::DynamicalDefineDID || resp@.sub_func is None
                ==> (r matches Err(e) && e@ == Iso14229ErrorView::ServiceError(resp@.service)),
            !(resp@.service != Service::DynamicalDefineDID || resp@.sub_func is None) ==> {
                let data = resp@.data;
                if data.len() == 0 {
                    r matches Ok(v) && v.0 is None
                } else {
                    let id = be_u16(data[0], data[1]);
                    if DynamicallyDID::spec_valid(id) {
                        r matches Ok(v) && v.0 matches Some(d) && d.spec_value() == id
                    } else {
                        r matches Err(e) && e@ == Iso14229ErrorView::InvalidDynamicallyDefinedDID(id)
                    }
                }
            },
    {
        resp.assert_ok();
        let service = resp.service();
        if service != Service::DynamicalDefineDID || resp.sub_function().is_none() {
            return Err(Iso14229Error::ServiceError(service));
        }
        let data = resp.raw_data();
        let data_len = data.len();
        let dynamic = if data_len == 0 {
            None
        } else if data_len == 2 {
            Some(DynamicallyDID::try_from(read_be_u16(data[0], data[1]))?)
        } else {
            return Err(Iso14229Error::InvalidDataLength { expect: 2, actual: data_len });
        };
        Ok(DynamicallyDefineDID(dynamic))
    }

    /// The identifier (big-endian), or nothing.
    pub fn to_bytes(self) -> (r: Vec<u8>)
        ensures
            r@ == match self.0 {
                Some(d) => u16_bytes(d.spec_value()),
                None => Seq::<u8>::empty(),
            },
    {
        match self.0 {
            Some(v) => write_be_u16(v.to_u16()),
            None => Vec::new(),
        }
    }
}

} // verus!

use vstd::prelude::*;
use std::collections::HashMap;
use crate::uds::error::{Iso14229Error, Iso14229ErrorView};
use crate::uds::service::Service;
use crate::uds::utils::{data_length_check, spec_length_check};
use crate::uds::params::{DataIdentifier, read_be_u16, write_be_u16, be_u16, u16_bytes};
use crate::uds::response::message::{Response, ResponseView, response_result_view, spec_positive};

verus! {

/// Response data of service 0x2E: the identifier written.
#[derive(Debug, Copy, Clone, PartialEq, Eq, Structural)]
pub struct WriteDID(pub DataIdentifier);

/// The checks on the data of a positive response: exactly the identifier.
pub open spec fn spec_check(data: Seq<u8>, sub_func: Option<u8>) -> Result<(), Iso14229ErrorView> {
    match sub_func {
        Some(_) => Err(Iso14229ErrorView::SubFunctionError(Service::WriteDID)),
        None => spec_length_check(data.len() as usize, 2, true),
    }
}

/// Writing the identifier read from the data of a response gives back that data.
pub proof fn write_did_bytes_roundtrip(data: Seq<u8>)
    requires
        data.len() == 2,
    ensures
        u16_bytes(be_u16(data[0], data[1])) == data,
{
    assert(u16_bytes(be_u16(data[0], data[1])) =~= data);
}

impl WriteDID {
    /// Builds the positive response that carries `data`.
    pub fn new_response(data: &[u8], sub_func: Option<u8>, _cfg: &HashMap<u16, usize>) -> (r: Result<Response, Iso14229Error>)
        ensures
            response_result_view(r) == spec_positive(Service::WriteDID, sub_func, data@, spec_check(data@, sub_func)),
    {
        match sub_func {
            Some(_) => return Err(Iso14229Error::SubFunctionError(Service::WriteDID)),
            None => data_length_check(data.len(), 2, true)?,
        }
        Ok(Response::from_parts(Service::WriteDID, false, sub_func, data))
    }

    /// Reads the identifier of a response of this service. A negative
    /// response of this service has no identifier to read.
    pub fn try_from(resp: &Response, _cfg: &HashMap<u16, usize>) -> (r: Result<WriteDID, Iso14229Error>)
        requires
            resp@.service == Service::WriteDID ==> !resp@.negative,
        ensures
            resp@.service != Service::WriteDID || resp@.sub_func is Some
                ==> (r matches Err(e) && e@ == Iso14229ErrorView::ServiceError(resp@.service)),
            !(resp@.service != Service::WriteDID || resp@.sub_func is Some)
                ==> (r matches Ok(v) && v.0.0 == be_u16(resp@.data[0], resp@.data[1])),
    {
        resp.assert_ok();
        let service = resp.service();
        if service != Service::WriteDID || resp.sub_function().is_some() {
            return Err(Iso14229Error::ServiceError(service));
        }
        let data = resp.raw_data();
        Ok(WriteDID(DataIdentifier(read_be_u16(data[0], data[1]))))
    }

    /// The identifier, big-endian.
    pub fn to_bytes(self) -> (r: Vec<u8>)
        ensures
            r@ == u16_bytes(self.0.0),
    {
        write_be_u16(self.0.0)
    }
}

} // verus!

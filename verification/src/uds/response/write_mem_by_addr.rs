use vstd::prelude::*;
use std::collections::HashMap;
use crate::uds::error::{Iso14229Error, Iso14229ErrorView};
use crate::uds::service::Service;
use crate::uds::utils::{data_length_check, spec_length_check, be_bytes};
use crate::uds::params::{MemoryLocation, spec_memory_location};
use crate::uds::response::message::{Response, ResponseView, response_result_view, spec_positive};

verus! {

/// Response data of service 0x3D: the memory location written.
#[derive(Debug, Copy, Clone, PartialEq, Eq, Structural)]
pub struct WriteMemByAddr(pub MemoryLocation);

/// The checks on the data of a positive response: at least three bytes.
pub open spec fn spec_check(data: Seq<u8>, sub_func: Option<u8>) -> Result<(), Iso14229ErrorView> {
    match sub_func {
        Some(_) => Err(Iso14229ErrorView::SubFunctionError(Service::WriteMemByAddr)),
        None => spec_length_check(data.len() as usize, 3, false),
    }
}

impl WriteMemByAddr {
    /// Builds the positive response that carries `data`.
    pub fn new_response(data: &[u8], sub_func: Option<u8>, _cfg: &HashMap<u16, usize>) -> (r: Result<Response, Iso14229Error>)
        ensures
            response_result_view(r) == spec_positive(Service::WriteMemByAddr, sub_func, data@, spec_check(data@, sub_func)),
    {
        match sub_func {
            Some(_) => return Err(Iso14229Error::SubFunctionError(Service::WriteMemByAddr)),
            None => data_length_check(data.len(), 3, false)?,
        }
        Ok(Response::from_parts(Service::WriteMemByAddr, false, sub_func, data))
    }

    /// Reads the memory location of a response of this service.
    pub fn try_from(resp: &Response, _cfg: &HashMap<u16, usize>) -> (r: Result<WriteMemByAddr, Iso14229Error>)
        ensures
            resp@.service != Service::WriteMemByAddr || resp@.sub_func is Some
                ==> (r matches Err(e) && e@ == Iso14229ErrorView::ServiceError(resp@.service)),
            !(resp@.service != Service::WriteMemByAddr || resp@.sub_func is Some) ==> match spec_memory_location(resp@.data) {
                Ok((f, a, s)) => r matches Ok(v) && v.0.alfi.spec_value() == f && v.0.mem_addr == a && v.0.mem_size == s,
                Err(e) => r matches Err(x) && x@ == e,
            },
    {
        let service = resp.service();
        if service != Service::WriteMemByAddr || resp.sub_function().is_some() {
            return Err(Iso14229Error::ServiceError(service));
        }
        Ok(WriteMemByAddr(MemoryLocation::from_slice(resp.raw_data().as_slice())?))
    }

    /// The byte layout of the memory location.
    pub fn to_bytes(self) -> (r: Vec<u8>)
        ensures
            r@ == seq![self.0.alfi.spec_value()]
                + be_bytes(self.0.mem_addr, (self.0.alfi.spec_value() % 16) as nat)
                + be_bytes(self.0.mem_size, (self.0.alfi.spec_value() / 16) as nat),
    {
        self.0.to_bytes()
    }
}

} // verus!

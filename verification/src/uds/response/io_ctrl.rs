use vstd::prelude::*;
use crate::uds::error::{Iso14229Error, Iso14229ErrorView};
use crate::uds::service::Service;
use crate::uds::types::IOCtrlParameter;
use crate::uds::utils::{data_length_check, spec_length_check};
use crate::uds::params::{DataIdentifier, DidConfig, did_length, did_config_ok, read_be_u16, write_be_u16, be_u16, u16_bytes};
use crate::uds::response::message::{Response, ResponseView, response_result_view, spec_positive};
use crate::isotp::bytes_util::{copy_range, append_slice};

verus! {

/// Control parameter and state record of an input output control.
#[derive(Debug, Clone, PartialEq, Eq)]
pub struct IOCtrlOption {
    pub param: IOCtrlParameter,
    pub state: Vec<u8>,
}

/// Response data of service 0x2F.
#[derive(Debug, Clone, PartialEq, Eq)]
pub struct IOCtrl {
    pub did: DataIdentifier,
    pub status: IOCtrlOption,
}

/// The checks on the data of a positive response: a supported identifier
/// followed by at least its record length.
pub open spec fn spec_check(data: Seq<u8>, sub_func: Option<u8>, cfg: Map<u16, usize>) -> Result<(), Iso14229ErrorView> {
    match sub_func {
        Some(_) => Err(Iso14229ErrorView::SubFunctionError(Service::IOCtrl)),
        None => match spec_length_check(data.len() as usize, 2, false) {
            Err(e) => Err(e),
            Ok(()) => {
                let did = be_u16(data[0], data[1]);
                if !cfg.contains_key(did) {
                    Err(Iso14229ErrorView::DidNotSupported(did))
                } else {
                    spec_length_check(data.len() as usize, (2 + cfg[did]) as usize, false)
                }
            },
        },
    }
}

/// Outcome of reading a response: identifier, parameter, then exactly the
/// configured record length.
pub open spec fn spec_parse(data: Seq<u8>, cfg: Map<u16, usize>) -> Result<(u16, IOCtrlParameter, Seq<u8>), Iso14229ErrorView> {
    if data.len() < 2 {
        Err(Iso14229ErrorView::InvalidDataLength { expect: 2, actual: data.len() as usize })
    } else {
        let did = be_u16(data[0], data[1]);
        match IOCtrlParameter::spec_from_u8(data[2]) {
            None => Err(Iso14229ErrorView::ReservedError(data[2])),
            Some(p) => if !cfg.contains_key(did) {
                Err(Iso14229ErrorView::DidNotSupported(did))
            } else if data.len() != 3 + cfg[did] {
                Err(Iso14229ErrorView::InvalidDataLength { expect: (3 + cfg[did]) as usize, actual: data.len() as usize })
            } else {
                Ok((did, p, data.skip(3)))
            },
        }
    }
}

/// Writing what was read from the data of a response gives back that data.
pub proof fn io_ctrl_bytes_roundtrip(data: Seq<u8>, cfg: Map<u16, usize>)
    requires
        spec_parse(data, cfg) is Ok,
    ensures
        ({
            let (did, p, state) = spec_parse(data, cfg)->Ok_0;
            u16_bytes(did) + seq![p.spec_to_u8()] + state == data
        }),
{
    assert(u16_bytes(be_u16(data[0], data[1])) + seq![data[2]] + data.skip(3) =~= data);
}

impl IOCtrl {
    pub fn new(did: DataIdentifier, param: IOCtrlParameter, state: Vec<u8>) -> (r: IOCtrl)
        ensures
            r.did == did && r.status.param == param && r.status.state@ == state@,
    {
        IOCtrl { did, status: IOCtrlOption { param, state } }
    }

    /// Builds the positive response that carries `data`.
    pub fn with_config(data: &[u8], sub_func: Option<u8>, cfg: &DidConfig) -> (r: Result<Response, Iso14229Error>)
        requires
            did_config_ok(cfg@),
            data@.len() <= isize::MAX,
        ensures
            response_result_view(r) == spec_positive(Service::IOCtrl, sub_func, data@, spec_check(data@, sub_func, cfg@)),
    {
        match sub_func {
            Some(_) => return Err(Iso14229Error::SubFunctionError(Service::IOCtrl)),
            None => {
                let data_len = data.len();
                data_length_check(data_len, 2, false)?;
                let did = read_be_u16(data[0], data[1]);
                let did_len = match did_length(cfg, did) {
                    Some(l) => l,
                    None => return Err(Iso14229Error::DidNotSupported(did)),
                };
                data_length_check(data_len, 2 + did_len, false)?;
            },
        }
        Ok(Response::from_parts(Service::IOCtrl, false, sub_func, data))
    }

    /// Reads identifier, parameter and state record of a response of this
    /// service. A positive response of exactly two bytes has no parameter to read.
    pub fn try_with_config(resp: &Response, cfg: &DidConfig) -> (r: Result<IOCtrl, Iso14229Error>)
        requires
            did_config_ok(cfg@),
            resp@.data.len() <= isize::MAX,
            !(resp@.service == Service::IOCtrl && resp@.sub_func is None && resp@.data.len() == 2),
        ensures
            resp@.service != Service::IOCtrl || resp@.sub_func is Some
                ==> (r matches Err(e) && e@ == Iso14229ErrorView::ServiceError(resp@.service)),
            !(resp@.service != Service::IOCtrl || resp@.sub_func is Some) ==> match spec_parse(resp@.data, cfg@) {
                Ok((did, p, state)) => r matches Ok(v) && v.did.0 == did && v.status.param == p && v.status.state@ == state,
                Err(e) => r matches Err(x) && x@ == e,
            },
    {
        let service = resp.service();
        if service != Service::IOCtrl || resp.sub_function().is_some() {
            return Err(Iso14229Error::ServiceError(service));
        }
        let data = resp.raw_data();
        let data_len = data.len();
        data_length_check(data_len, 2, false)?;
        let did = read_be_u16(data[0], data[1]);
        let ctrl_type = IOCtrlParameter::try_from(data[2])?;
        let record_len = match did_length(cfg, did) {
            Some(l) => l,
            None => return Err(Iso14229Error::DidNotSupported(did)),
        };
        data_length_check(data_len, 3 + record_len, true)?;
        let record = copy_range(data.as_slice(), 3, data_len);
        Ok(IOCtrl::new(DataIdentifier(did), ctrl_type, record))
    }

    /// Identifier (big-endian), parameter, state record.
    pub fn to_bytes(self) -> (r: Vec<u8>)
        ensures
            r@ == u16_bytes(self.did.0) + seq![self.status.param.spec_to_u8()] + self.status.state@,
    {
        let mut result = write_be_u16(self.did.0);
        result.push(self.status.param.to_u8());
        append_slice(&mut result, self.status.state.as_slice());
        result
    }
}

} // verus!

use vstd::prelude::*;
use std::collections::HashMap;
use crate::uds::error::{Iso14229Error, Iso14229ErrorView};
use crate::uds::service::Service;
use crate::uds::types::RoutineCtrlType;
use crate::uds::utils::{data_length_check, spec_length_check};
use crate::uds::params::{RoutineId, read_be_u16, write_be_u16, be_u16, u16_bytes};
use crate::uds::response::message::{Response, ResponseView, response_result_view, spec_positive};
use crate::isotp::bytes_util::{copy_range, append_slice};

verus! {

/// Response data of service 0x31: routine identifier, optional routine
/// information and the status record that follows it.
#[derive(Debug, Clone, PartialEq, Eq)]
pub struct RoutineCtrl {
    pub routine_id: RoutineId,
    pub routine_info: Option<u8>,
    pub routine_status: Vec<u8>,
}

/// The checks on the data of a positive response: at least the identifier.
pub open spec fn spec_check(data: Seq<u8>, sub_func: Option<u8>) -> Result<(), Iso14229ErrorView> {
    match sub_func {
        Some(s) => match spec_length_check(data.len() as usize, 2, false) {
            Err(e) => Err(e),
            Ok(()) => match RoutineCtrlType::spec_from_u8(s) {
                None => Err(Iso14229ErrorView::ReservedError(s)),
                Some(_) => Ok(()),
            },
        },
        None => Err(Iso14229ErrorView::SubFunctionError(Service::RoutineCtrl)),
    }
}

/// The routine identifier, information and status a response's data holds:
/// information and status only when the data is longer than the identifier.
pub open spec fn spec_parse(data: Seq<u8>) -> (u16, Option<u8>, Seq<u8>) {
    if data.len() > 2 {
        (be_u16(data[0], data[1]), Some(data[2]), data.skip(3))
    } else {
        (be_u16(data[0], data[1]), None, Seq::empty())
    }
}

/// The bytes written for an identifier, information and status.
pub open spec fn spec_routine_bytes(id: u16, info: Option<u8>, status: Seq<u8>) -> Seq<u8> {
    u16_bytes(id) + match info {
        Some(i) => seq![i] + status,
        None => Seq::<u8>::empty(),
    }
}

/// Writing what was read from the data of a response gives back that data.
pub proof fn routine_ctrl_bytes_roundtrip(data: Seq<u8>)
    requires
        data.len() >= 2,
    ensures
        ({
            let (id, info, status) = spec_parse(data);
            spec_routine_bytes(id, info, status) == data
        }),
{
    assert(spec_routine_bytes(spec_parse(data).0, spec_parse(data).1, spec_parse(data).2) =~= data);
}

impl RoutineCtrl {
    /// A status record requires routine information.
    pub fn new(routine_id: RoutineId, routine_info: Option<u8>, routine_status: Vec<u8>) -> (r: Result<RoutineCtrl, Iso14229Error>)
        ensures
            routine_info is None && routine_status@.len() > 0 ==> (r matches Err(e) && e@
                == Iso14229ErrorView::InvalidData("`routineStatusRecord` mut be empty when `routineInfo` is None"@)),
            !(routine_info is None && routine_status@.len() > 0) ==> (r matches Ok(v) && v.routine_id == routine_id
                && v.routine_info == routine_info && v.routine_status@ == routine_status@),
    {
        if routine_info.is_none() && routine_status.len() != 0 {
            return Err(Iso14229Error::InvalidData(
                String::from_str("`routineStatusRecord` mut be empty when `routineInfo` is None"),
            ));
        }
        Ok(RoutineCtrl { routine_id, routine_info, routine_status })
    }

    /// Builds the positive response that carries `data`.
    pub fn new_response(data: &[u8], sub_func: Option<u8>, _cfg: &HashMap<u16, usize>) -> (r: Result<Response, Iso14229Error>)
        ensures
            response_result_view(r) == spec_positive(Service::RoutineCtrl, sub_func, data@, spec_check(data@, sub_func)),
    {
        match sub_func {
            Some(s) => {
                data_length_check(data.len(), 2, false)?;
                let _ = RoutineCtrlType::try_from(s)?;
            },
            None => return Err(Iso14229Error::SubFunctionError(Service::RoutineCtrl)),
        }
        Ok(Response::from_parts(Service::RoutineCtrl, false, sub_func, data))
    }

    /// Reads identifier, information and status of a response of this service.
    pub fn try_from(resp: &Response, _cfg: &HashMap<u16, usize>) -> (r: Result<RoutineCtrl, Iso14229Error>)
        ensures
            resp@.service != Service::RoutineCtrl || resp@.sub_func is None
                ==> (r matches Err(e) && e@ == Iso14229ErrorView::ServiceError(resp@.service)),
            !(resp@.service != Service::RoutineCtrl || resp@.sub_func is None) ==> (r matches Ok(v)
                && (v.routine_id.0, v.routine_info, v.routine_status@) == spec_parse(resp@.data)),
    {
        resp.assert_ok();
        let service = resp.service();
        if service != Service::RoutineCtrl || resp.sub_function().is_none() {
            return Err(Iso14229Error::ServiceError(service));
        }
        let data = resp.raw_data();
        let data_len = data.len();
        let routine_id = RoutineId(read_be_u16(data[0], data[1]));
        let (routine_info, routine_status) = if data_len > 2 {
            (Some(data[2]), copy_range(data.as_slice(), 3, data_len))
        } else {
            (None, Vec::new())
        };
        Ok(RoutineCtrl { routine_id, routine_info, routine_status })
    }

    /// The identifier, then the information and the status record when there is information.
    pub fn to_bytes(self) -> (r: Vec<u8>)
        ensures
            r@ == spec_routine_bytes(self.routine_id.0, self.routine_info, self.routine_status@),
    {
        let mut result = write_be_u16(self.routine_id.0);
        if let Some(info) = self.routine_info {
            result.push(info);
            append_slice(&mut result, self.routine_status.as_slice());
        }
        proof {
            assert(result@ =~= spec_routine_bytes(self.routine_id.0, self.routine_info, self.routine_status@));
        }
        result
    }
}

} // verus!

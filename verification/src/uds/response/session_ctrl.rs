use vstd::prelude::*;
use std::collections::HashMap;
use crate::uds::error::{Iso14229Error, Iso14229ErrorView};
use crate::uds::service::Service;
use crate::uds::types::SessionType;
use crate::uds::utils::{data_length_check, spec_length_check};
use crate::uds::params::{read_be_u16, write_be_u16, be_u16, u16_bytes};
use crate::uds::response::message::{Response, ResponseView, response_result_view, spec_positive};
use crate::isotp::bytes_util::append_slice;
use crate::isotp::constants::{P2_MAX, P2_STAR_MAX};

verus! {

/// P2 (milliseconds) and P2* (units of 10 milliseconds) that a session announces.
#[derive(Debug, Copy, Clone, PartialEq, Eq, Structural)]
pub struct SessionTiming {
    pub p2: u16,
    pub p2_star: u16,
}

/// `v` capped at `max`.
pub open spec fn capped(v: u16, max: u16) -> u16 {
    if v > max { max } else { v }
}

/// The timing `new` builds from milliseconds.
pub open spec fn spec_session_timing(p2_ms: u16, p2_star_ms: u32) -> SessionTiming {
    SessionTiming { p2: capped(p2_ms, P2_MAX), p2_star: capped((p2_star_ms / 10) as u16, P2_STAR_MAX) }
}

/// The timing read from four bytes, each value capped at its maximum.
pub open spec fn spec_timing_from_bytes(data: Seq<u8>) -> Result<SessionTiming, Iso14229ErrorView> {
    if data.len() != 4 {
        Err(Iso14229ErrorView::InvalidDataLength { expect: 4, actual: data.len() as usize })
    } else {
        Ok(SessionTiming {
            p2: capped(be_u16(data[0], data[1]), P2_MAX),
            p2_star: capped(be_u16(data[2], data[3]), P2_STAR_MAX),
        })
    }
}

impl SessionTiming {
    /// The largest timing: P2_MAX and P2_STAR_MAX.
    pub fn default_timing() -> (r: SessionTiming)
        ensures
            r == (SessionTiming { p2: P2_MAX, p2_star: P2_STAR_MAX }),
    {
        SessionTiming { p2: P2_MAX, p2_star: P2_STAR_MAX }
    }

    /// From milliseconds: P2 capped at P2_MAX; P2* in units of 10 ms (the
    /// quotient cut to 16 bits), capped at P2_STAR_MAX.
    pub fn new(p2_ms: u16, p2_star_ms: u32) -> (r: SessionTiming)
        ensures
            r == spec_session_timing(p2_ms, p2_star_ms),
    {
        let p2 = if p2_ms > P2_MAX { P2_MAX } else { p2_ms };
        let p2_star = (p2_star_ms / 10) as u16;
        let p2_star = if p2_star > P2_STAR_MAX { P2_STAR_MAX } else { p2_star };
        SessionTiming { p2, p2_star }
    }

    pub fn p2_ms(&self) -> (r: u64)
        ensures
            r == self.p2,
    {
        self.p2 as u64
    }

    pub fn p2_star_ms(&self) -> (r: u64)
        ensures
            r == self.p2_star * 10,
    {
        self.p2_star as u64 * 10
    }

    /// Reads P2 and P2* (big-endian) from exactly four bytes, capping each at its maximum.
    pub fn try_from(data: &[u8]) -> (r: Result<SessionTiming, Iso14229Error>)
        ensures
            match spec_timing_from_bytes(data@) {
                Ok(t) => r matches Ok(x) && x == t,
                Err(e) => r matches Err(x) && x@ == e,
            },
    {
        let data_len = data.len();
        data_length_check(data_len, 4, true)?;
        let mut p2 = read_be_u16(data[0], data[1]);
        let mut p2_star = read_be_u16(data[2], data[3]);
        if p2 > P2_MAX || p2_star > P2_STAR_MAX {
            if p2 > P2_MAX {
                p2 = P2_MAX;
            }
            if p2_star > P2_STAR_MAX {
                p2_star = P2_STAR_MAX;
            }
        }
        Ok(SessionTiming { p2, p2_star })
    }

    /// P2 and P2*, big-endian.
    pub fn to_bytes(self) -> (r: Vec<u8>)
        ensures
            r@ == u16_bytes(self.p2) + u16_bytes(self.p2_star),
    {
        let mut result = write_be_u16(self.p2);
        let tail = write_be_u16(self.p2_star);
        append_slice(&mut result, tail.as_slice());
        result
    }
}

/// Response data of service 0x10: the session timing.
#[derive(Debug, Copy, Clone, PartialEq, Eq, Structural)]
pub struct SessionCtrl(pub SessionTiming);

/// The checks on the data of a positive response.
pub open spec fn spec_check(data: Seq<u8>, sub_func: Option<u8>) -> Result<(), Iso14229ErrorView> {
    match sub_func {
        Some(s) => match SessionType::spec_from_u8(s) {
            None => Err(Iso14229ErrorView::ReservedError(s)),
            Some(_) => spec_length_check(data.len() as usize, 4, true),
        },
        None => Err(Iso14229ErrorView::SubFunctionError(Service::SessionCtrl)),
    }
}

impl SessionCtrl {
    /// Builds the positive response that carries `data`.
    pub fn new_response(data: &[u8], sub_func: Option<u8>, _cfg: &HashMap<u16, usize>) -> (r: Result<Response, Iso14229Error>)
        ensures
            response_result_view(r) == spec_positive(Service::SessionCtrl, sub_func, data@, spec_check(data@, sub_func)),
    {
        match sub_func {
            Some(s) => {
                let _ = SessionType::try_from(s)?;
                data_length_check(data.len(), 4, true)?;
            },
            None => return Err(Iso14229Error::SubFunctionError(Service::SessionCtrl)),
        }
        Ok(Response::from_parts(Service::SessionCtrl, false, sub_func, data))
    }

    /// Reads the session timing of a response of this service.
    pub fn try_from(resp: &Response, _cfg: &HashMap<u16, usize>) -> (r: Result<SessionCtrl, Iso14229Error>)
        ensures
            resp@.service != Service::SessionCtrl || resp@.sub_func is None
                ==> (r matches Err(e) && e@ == Iso14229ErrorView::ServiceError(resp@.service)),
            !(resp@.service != Service::SessionCtrl || resp@.sub_func is None)
                ==> (r matches Ok(v) && spec_timing_from_bytes(resp@.data) == Ok::<SessionTiming, Iso14229ErrorView>(v.0)),
    {
        resp.assert_ok();
        let service = resp.service();
        if service != Service::SessionCtrl || resp.sub_function().is_none() {
            return Err(Iso14229Error::ServiceError(service));
        }
        let timing = SessionTiming::try_from(resp.raw_data().as_slice())?;
        Ok(SessionCtrl(timing))
    }

    pub fn to_bytes(self) -> (r: Vec<u8>)
        ensures
            r@ == u16_bytes(self.0.p2) + u16_bytes(self.0.p2_star),
    {
        self.0.to_bytes()
    }
}

/// A timing within its maximums comes back from its bytes.
pub proof fn session_timing_bytes_roundtrip(t: SessionTiming)
    requires
        t.p2 <= P2_MAX,
        t.p2_star <= P2_STAR_MAX,
    ensures
        spec_timing_from_bytes(u16_bytes(t.p2) + u16_bytes(t.p2_star)) == Ok::<SessionTiming, Iso14229ErrorView>(t),
{
    let b = u16_bytes(t.p2) + u16_bytes(t.p2_star);
    assert(b[0] == u16_bytes(t.p2)[0] && b[1] == u16_bytes(t.p2)[1]);
    assert(b[2] == u16_bytes(t.p2_star)[0] && b[3] == u16_bytes(t.p2_star)[1]);
}

/// A timing within its maximums comes back from its milliseconds, as a
/// serialized timing (P2 and P2* in milliseconds) is read back.
pub proof fn session_timing_millis_roundtrip(t: SessionTiming)
    requires
        t.p2 <= P2_MAX,
        t.p2_star <= P2_STAR_MAX,
    ensures
        spec_session_timing(t.p2, (t.p2_star * 10) as u32) == t,
{
}

} // verus!

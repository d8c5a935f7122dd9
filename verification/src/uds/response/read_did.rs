use vstd::prelude::*;
use crate::uds::error::{Iso14229Error, Iso14229ErrorView};
use crate::uds::service::Service;
use crate::uds::utils::{data_length_check, spec_length_check};
use crate::uds::params::{DataIdentifier, DIDData, DidConfig, did_length, did_config_ok, read_be_u16, write_be_u16, be_u16, u16_bytes};
use crate::uds::response::message::{Response, ResponseView, response_result_view, spec_positive};
use crate::isotp::bytes_util::{copy_range, append_slice};

verus! {

/// Response data of service 0x22: the first identifier with its record, then the others.
#[derive(Debug, Clone, PartialEq, Eq)]
pub struct ReadDID {
    pub data: DIDData,
    pub others: Vec<DIDData>,
}

/// The identifier records from `offset` on: each a supported identifier and
/// its configured record length.
pub open spec fn spec_items(data: Seq<u8>, offset: int, cfg: Map<u16, usize>) -> Result<Seq<(u16, Seq<u8>)>, Iso14229ErrorView>
    decreases data.len() - offset,
{
    if offset < 0 || offset >= data.len() {
        Ok(Seq::empty())
    } else if data.len() < offset + 2 {
        Err(Iso14229ErrorView::InvalidDataLength { expect: (offset + 2) as usize, actual: data.len() as usize })
    } else {
        let did = be_u16(data[offset], data[offset + 1]);
        if !cfg.contains_key(did) {
            Err(Iso14229ErrorView::DidNotSupported(did))
        } else {
            let end = offset + 2 + cfg[did];
            if data.len() < end {
                Err(Iso14229ErrorView::InvalidDataLength { expect: end as usize, actual: data.len() as usize })
            } else {
                match spec_items(data, end, cfg) {
                    Ok(rest) => Ok(seq![(did, data.subrange(offset + 2, end))] + rest),
                    Err(e) => Err(e),
                }
            }
        }
    }
}

/// The records after the ones already read.
pub open spec fn prepend(prefix: Seq<(u16, Seq<u8>)>, r: Result<Seq<(u16, Seq<u8>)>, Iso14229ErrorView>) -> Result<Seq<(u16, Seq<u8>)>, Iso14229ErrorView> {
    match r {
        Ok(rest) => Ok(prefix + rest),
        Err(e) => Err(e),
    }
}

/// The checks on the data of a positive response: at least one record, and
/// every byte part of a record.
pub open spec fn spec_check(data: Seq<u8>, sub_func: Option<u8>, cfg: Map<u16, usize>) -> Result<(), Iso14229ErrorView> {
    match sub_func {
        Some(_) => Err(Iso14229ErrorView::SubFunctionError(Service::ReadDID)),
        None => if data.len() < 2 {
            Err(Iso14229ErrorView::InvalidDataLength { expect: 2, actual: data.len() as usize })
        } else {
            match spec_items(data, 0, cfg) {
                Ok(_) => Ok(()),
                Err(e) => Err(e),
            }
        },
    }
}

/// The bytes of records: each identifier (big-endian) followed by its record.
pub open spec fn items_bytes(items: Seq<(u16, Seq<u8>)>) -> Seq<u8>
    decreases items.len(),
{
    if items.len() == 0 {
        Seq::empty()
    } else {
        items_bytes(items.drop_last()) + u16_bytes(items.last().0) + items.last().1
    }
}

pub open spec fn did_data_view(d: DIDData) -> (u16, Seq<u8>) {
    (d.did.0, d.data@)
}

/// Whether reading the records from `offset` stays inside the data: every
/// identifier is whole, and every supported one has its whole record.
pub open spec fn items_in_bounds(data: Seq<u8>, offset: int, cfg: Map<u16, usize>) -> bool {
    !(spec_items(data, offset, cfg) matches Err(Iso14229ErrorView::InvalidDataLength { .. }))
}

/// Reads the record at `offset`.
fn read_item(data: &[u8], offset: usize, cfg: &DidConfig) -> (r: Result<(DIDData, usize), Iso14229Error>)
    requires
        did_config_ok(cfg@),
        data@.len() <= isize::MAX,
        offset < data@.len(),
        items_in_bounds(data@, offset as int, cfg@),
    ensures
        ({
            let did = be_u16(data@[offset as int], data@[offset + 1]);
            if !cfg@.contains_key(did) {
                &&& r matches Err(x) && x@ == Iso14229ErrorView::DidNotSupported(did)
                &&& spec_items(data@, offset as int, cfg@) == Err::<Seq<(u16, Seq<u8>)>, Iso14229ErrorView>(Iso14229ErrorView::DidNotSupported(did))
            } else {
                r matches Ok(v) && {
                    &&& did_data_view(v.0) == (did, data@.subrange(offset + 2, offset + 2 + cfg@[did]))
                    &&& offset < v.1 <= data@.len()
                    &&& spec_items(data@, offset as int, cfg@) == prepend(seq![did_data_view(v.0)], spec_items(data@, v.1 as int, cfg@))
                    &&& items_in_bounds(data@, v.1 as int, cfg@)
                }
            }
        }),
{
    let did = read_be_u16(data[offset], data[offset + 1]);
    let did_len = match did_length(cfg, did) {
        Some(l) => l,
        None => return Err(Iso14229Error::DidNotSupported(did)),
    };
    let end = offset + 2 + did_len;
    let record = copy_range(data, offset + 2, end);
    Ok((DIDData { did: DataIdentifier(did), data: record }, end))
}

proof fn items_bytes_prepend(x: (u16, Seq<u8>), rest: Seq<(u16, Seq<u8>)>)
    ensures
        items_bytes(seq![x] + rest) == u16_bytes(x.0) + x.1 + items_bytes(rest),
    decreases rest.len(),
{
    if rest.len() == 0 {
        assert(seq![x] + rest =~= seq![x]);
        assert(seq![x].drop_last() =~= Seq::<(u16, Seq<u8>)>::empty());
        assert(items_bytes(Seq::<(u16, Seq<u8>)>::empty()) =~= Seq::<u8>::empty());
        assert(items_bytes(seq![x]) =~= u16_bytes(x.0) + x.1);
    } else {
        items_bytes_prepend(x, rest.drop_last());
        assert((seq![x] + rest).drop_last() =~= seq![x] + rest.drop_last());
        assert((seq![x] + rest).last() == rest.last());
        assert(items_bytes(seq![x] + rest) =~= u16_bytes(x.0) + x.1 + items_bytes(rest));
    }
}

proof fn items_bytes_from(data: Seq<u8>, offset: int, cfg: Map<u16, usize>)
    requires
        0 <= offset <= data.len(),
        spec_items(data, offset, cfg) is Ok,
    ensures
        items_bytes(spec_items(data, offset, cfg)->Ok_0) == data.skip(offset),
    decreases data.len() - offset,
{
    if offset >= data.len() {
        assert(data.skip(offset) =~= Seq::<u8>::empty());
        assert(items_bytes(Seq::<(u16, Seq<u8>)>::empty()) =~= Seq::<u8>::empty());
    } else {
        let did = be_u16(data[offset], data[offset + 1]);
        let end = offset + 2 + cfg[did];
        items_bytes_from(data, end, cfg);
        let x = (did, data.subrange(offset + 2, end));
        items_bytes_prepend(x, spec_items(data, end, cfg)->Ok_0);
        assert(u16_bytes(did) =~= data.subrange(offset, offset + 2));
        assert(data.skip(offset) =~= data.subrange(offset, offset + 2) + data.subrange(offset + 2, end) + data.skip(end));
    }
}

/// Reading the records of a positive response and writing them again gives
/// back the response's data: whatever the records, nothing is lost or added.
pub proof fn read_did_bytes_roundtrip(data: Seq<u8>, cfg: Map<u16, usize>)
    requires
        spec_check(data, None, cfg) is Ok,
    ensures
        items_bytes(spec_items(data, 0, cfg)->Ok_0) == data,
{
    items_bytes_from(data, 0, cfg);
    assert(data.skip(0) =~= data);
}

impl ReadDID {
    /// Builds the positive response that carries `data`.
    pub fn new_response(data: &[u8], sub_func: Option<u8>, cfg: &DidConfig) -> (r: Result<Response, Iso14229Error>)
        requires
            did_config_ok(cfg@),
            data@.len() <= isize::MAX,
        ensures
            response_result_view(r) == spec_positive(Service::ReadDID, sub_func, data@, spec_check(data@, sub_func, cfg@)),
    {
        if sub_func.is_some() {
            return Err(Iso14229Error::SubFunctionError(Service::ReadDID));
        }
        let data_len = data.len();
        let mut offset: usize = 0;
        data_length_check(data_len, offset + 2, false)?;
        let ghost start = 0int;
        while data_len > offset
            invariant
                data_len == data@.len(),
                data_len <= isize::MAX,
                data_len >= 2,
                did_config_ok(cfg@),
                offset <= data_len,
                sub_func is None,
                spec_check(data@, sub_func, cfg@) is Ok <==> spec_items(data@, offset as int, cfg@) is Ok,
                spec_items(data@, offset as int, cfg@) matches Err(e) ==> spec_check(data@, sub_func, cfg@) == Err::<(), Iso14229ErrorView>(e),
            decreases data_len - offset,
        {
            data_length_check(data_len, offset + 2, false)?;
            let did = read_be_u16(data[offset], data[offset + 1]);
            let did_len = match did_length(cfg, did) {
                Some(l) => l,
                None => return Err(Iso14229Error::DidNotSupported(did)),
            };
            data_length_check(data_len, offset + 2 + did_len, false)?;
            offset = offset + 2 + did_len;
        }
        Ok(Response::from_parts(Service::ReadDID, false, sub_func, data))
    }

    /// Reads the records of a response of this service with `cfg`.
    pub fn try_from(resp: &Response, cfg: &DidConfig) -> (r: Result<ReadDID, Iso14229Error>)
        requires
            did_config_ok(cfg@),
            resp@.data.len() <= isize::MAX,
            resp@.service == Service::ReadDID && resp@.sub_func is None ==> {
                &&& resp@.data.len() >= 2
                &&& items_in_bounds(resp@.data, 0, cfg@)
            },
        ensures
            resp@.service != Service::ReadDID || resp@.sub_func is Some
                ==> (r matches Err(e) && e@ == Iso14229ErrorView::ServiceError(resp@.service)),
            !(resp@.service != Service::ReadDID || resp@.sub_func is Some) ==> match spec_items(resp@.data, 0, cfg@) {
                Err(e) => r matches Err(x) && x@ == e,
                Ok(items) => r matches Ok(v) && {
                    &&& items.len() == v.others@.len() + 1
                    &&& did_data_view(v.data) == items[0]
                    &&& forall|i: int| 0 <= i < v.others@.len() ==> #[trigger] did_data_view(v.others@[i]) == items[i + 1]
                },
            },
    {
        let service = resp.service();
        if service != Service::ReadDID || resp.sub_function().is_some() {
            return Err(Iso14229Error::ServiceError(service));
        }
        let data = resp.raw_data().as_slice();
        let data_len = data.len();
        let ghost whole = spec_items(data@, 0, cfg@);
        let (first, mut offset) = read_item(data, 0, cfg)?;
        let mut others: Vec<DIDData> = Vec::new();
        while data_len > offset
            invariant
                data_len == data@.len(),
                data_len <= isize::MAX,
                did_config_ok(cfg@),
                offset <= data_len,
                whole == spec_items(data@, 0, cfg@),
                data@ == resp@.data,
                resp@.service == Service::ReadDID && resp@.sub_func is None,
                items_in_bounds(data@, offset as int, cfg@),
                whole == prepend(seq![did_data_view(first)] + others@.map_values(|d: DIDData| did_data_view(d)),
                    spec_items(data@, offset as int, cfg@)),
            decreases data_len - offset,
        {
            let ghost before = others@.map_values(|d: DIDData| did_data_view(d));
            let (item, next) = match read_item(data, offset, cfg) {
                Ok(v) => v,
                Err(e) => {
                    return Err(e);
                },
            };
            others.push(item);
            proof {
                assert(others@.map_values(|d: DIDData| did_data_view(d)) =~= before.push(did_data_view(item)));
                match spec_items(data@, next as int, cfg@) {
                    Ok(rest) => {
                        assert(seq![did_data_view(first)] + before + (seq![did_data_view(item)] + rest)
                            =~= seq![did_data_view(first)] + before.push(did_data_view(item)) + rest);
                    },
                    Err(_) => {},
                }
            }
            offset = next;
        }
        let ghost items = whole->Ok_0;
        proof {
            assert(spec_items(data@, offset as int, cfg@) == Ok::<Seq<(u16, Seq<u8>)>, Iso14229ErrorView>(Seq::empty()));
            assert(items =~= seq![did_data_view(first)] + others@.map_values(|d: DIDData| did_data_view(d)));
            assert forall|i: int| 0 <= i < others@.len() implies #[trigger] did_data_view(others@[i]) == items[i + 1] by {
                assert(items[i + 1] == others@.map_values(|d: DIDData| did_data_view(d))[i]);
            }
        }
        Ok(ReadDID { data: first, others })
    }

    /// The records, in order, each identifier followed by its record.
    pub fn to_bytes(self) -> (r: Vec<u8>)
        ensures
            r@ == items_bytes(seq![did_data_view(self.data)] + self.others@.map_values(|d: DIDData| did_data_view(d))),
    {
        let ghost all = seq![did_data_view(self.data)] + self.others@.map_values(|d: DIDData| did_data_view(d));
        let mut result = self.data.to_bytes();
        proof {
            assert(all.take(1) =~= seq![all[0]]);
            assert(seq![all[0]].drop_last() =~= Seq::<(u16, Seq<u8>)>::empty());
            assert(items_bytes(Seq::<(u16, Seq<u8>)>::empty()) =~= Seq::<u8>::empty());
            assert(all[0] == did_data_view(self.data));
            assert(items_bytes(seq![all[0]]) =~= u16_bytes(all[0].0) + all[0].1);
            assert(result@ =~= items_bytes(all.take(1)));
        }
        let others = self.others;
        let n = others.len();
        let mut i: usize = 0;
        while i < n
            invariant
                n == others@.len(),
                i <= n,
                all == seq![did_data_view(self.data)] + others@.map_values(|d: DIDData| did_data_view(d)),
                result@ == items_bytes(all.take(i + 1)),
            decreases n - i,
        {
            let ghost before = result@;
            let head = write_be_u16(others[i].did.0);
            append_slice(&mut result, head.as_slice());
            append_slice(&mut result, others[i].data.as_slice());
            proof {
                let iv = did_data_view(others@[i as int]);
                assert(all.take(i + 2).drop_last() =~= all.take(i + 1));
                assert(all.take(i + 2).last() == iv);
                assert(result@ =~= before + u16_bytes(iv.0) + iv.1);
            }
            i = i + 1;
        }
        assert(all.take(n + 1) =~= all);
        result
    }
}

} // verus!

use vstd::prelude::*;
use std::collections::HashMap;
use crate::uds::error::{Iso14229Error, Iso14229ErrorView};
use crate::uds::service::Service;
use crate::uds::utils::{
    data_length_check, spec_length_check, length_of_u_type, u128_to_vec, slice_to_u128, be_bytes, be_value, byte_len,
    u128_bytes_roundtrip,
};
use crate::uds::params::LengthFormatIdentifier;
use crate::uds::response::message::{Response, ResponseView, response_result_view, spec_positive};
use crate::isotp::bytes_util::{copy_range, append_slice};

verus! {

/// Response data of service 0x35: length format and maximum block length.
#[derive(Debug, Clone)]
pub struct RequestUpload {
    pub lfi: LengthFormatIdentifier,
    pub max_num_of_block_len: u128,
}

/// The checks on the data of a positive response: at least the format byte.
pub open spec fn spec_check(data: Seq<u8>, sub_func: Option<u8>) -> Result<(), Iso14229ErrorView> {
    match sub_func {
        Some(_) => Err(Iso14229ErrorView::SubFunctionError(Service::RequestUpload)),
        None => spec_length_check(data.len() as usize, 1, false),
    }
}

/// The message of a zero maximum block length.
pub open spec fn zero_block_message() -> Seq<char> {
    "`maxNumberOfBlockLength` must be rather than 0"@
}

/// The format byte `new` picks: the significant byte count in the high nibble, cut to 8 bits.
pub open spec fn spec_lfi_byte(max: u128) -> u8 {
    ((byte_len(max) * 16) % 256) as u8
}

/// Outcome of reading the data of a response of this service.
pub open spec fn spec_parse(data: Seq<u8>) -> Result<(u8, u128), Iso14229ErrorView> {
    if !LengthFormatIdentifier::spec_valid(data[0]) {
        Err(Iso14229ErrorView::ReservedError(data[0]))
    } else if data.len() - 1 != data[0] / 16 {
        Err(Iso14229ErrorView::InvalidDataLength { expect: (data.len() - 1) as usize, actual: (data[0] / 16) as usize })
    } else if be_value(data.skip(1)) == 0 {
        Err(Iso14229ErrorView::InvalidParam(zero_block_message()))
    } else {
        Ok((data[0], be_value(data.skip(1))))
    }
}

/// The bytes of the response [`RequestUpload::new`] builds read back as its
/// format and its maximum block length, for every non-zero length of at
/// most 15 significant bytes.
pub proof fn request_upload_bytes_roundtrip(max: u128)
    requires
        max != 0,
        byte_len(max) <= 15,
    ensures
        ({
            let f = spec_lfi_byte(max);
            spec_parse(seq![f] + be_bytes(max, (f / 16) as nat)) == Ok::<(u8, u128), Iso14229ErrorView>((f, max))
        }),
{
    let f = spec_lfi_byte(max);
    let n = byte_len(max);
    assert(n >= 1);
    assert(f == n * 16);
    let data = seq![f] + be_bytes(max, n);
    assert(data.skip(1) =~= be_bytes(max, n));
    u128_bytes_roundtrip(max, n);
}

impl RequestUpload {
    /// The response for a non-zero maximum block length, sized to its significant bytes.
    pub fn new(max_num_of_block_len: u128) -> (r: Result<RequestUpload, Iso14229Error>)
        ensures
            max_num_of_block_len == 0 ==> (r matches Err(e) && e@ == Iso14229ErrorView::InvalidParam(zero_block_message())),
            max_num_of_block_len != 0 ==> (r matches Ok(v) && v.max_num_of_block_len == max_num_of_block_len
                && v.lfi.spec_value() == spec_lfi_byte(max_num_of_block_len)),
    {
        if max_num_of_block_len == 0 {
            return Err(Iso14229Error::InvalidParam(String::from_str("`maxNumberOfBlockLength` must be rather than 0")));
        }
        let lfi = length_of_u_type(max_num_of_block_len) as u8;
        assert(lfi < 17);
        let b = lfi << 4u8;
        assert(b == ((lfi as int * 16) % 256) as u8) by (bit_vector) requires b == lfi << 4u8, lfi < 17;
        Ok(RequestUpload { lfi: LengthFormatIdentifier::from_byte(b), max_num_of_block_len })
    }

    /// Builds the positive response that carries `data`.
    pub fn new_response(data: &[u8], sub_func: Option<u8>, _cfg: &HashMap<u16, usize>) -> (r: Result<Response, Iso14229Error>)
        ensures
            response_result_view(r) == spec_positive(Service::RequestUpload, sub_func, data@, spec_check(data@, sub_func)),
    {
        match sub_func {
            Some(_) => return Err(Iso14229Error::SubFunctionError(Service::RequestUpload)),
            None => data_length_check(data.len(), 1, false)?,
        }
        Ok(Response::from_parts(Service::RequestUpload, false, sub_func, data))
    }

    /// Reads format and maximum block length of a response of this service:
    /// the format announces exactly the bytes that follow, whose value is not 0.
    pub fn try_from(resp: &Response, _cfg: &HashMap<u16, usize>) -> (r: Result<RequestUpload, Iso14229Error>)
        ensures
            resp@.service != Service::RequestUpload || resp@.sub_func is Some
                ==> (r matches Err(e) && e@ == Iso14229ErrorView::ServiceError(resp@.service)),
            !(resp@.service != Service::RequestUpload || resp@.sub_func is Some) ==> match spec_parse(resp@.data) {
                Ok((f, m)) => r matches Ok(v) && v.lfi.spec_value() == f && v.max_num_of_block_len == m,
                Err(e) => r matches Err(x) && x@ == e,
            },
    {
        resp.assert_ok();
        let service = resp.service();
        if service != Service::RequestUpload || resp.sub_function().is_some() {
            return Err(Iso14229Error::ServiceError(service));
        }
        let data = resp.raw_data();
        let lfi = LengthFormatIdentifier::try_from(data[0])?;
        let remain = copy_range(data.as_slice(), 1, data.len());
        assert(remain@ == resp@.data.skip(1));
        data_length_check(lfi.max_number_of_block_length(), remain.len(), true)?;
        let max_num_of_block_len = slice_to_u128(remain.as_slice());
        if max_num_of_block_len == 0 {
            return Err(Iso14229Error::InvalidParam(String::from_str("`maxNumberOfBlockLength` must be rather than 0")));
        }
        Ok(RequestUpload { lfi, max_num_of_block_len })
    }

    /// The format byte, then the maximum block length in as many bytes as it announces.
    pub fn to_bytes(self) -> (r: Vec<u8>)
        ensures
            r@ == seq![self.lfi.spec_value()] + be_bytes(self.max_num_of_block_len, (self.lfi.spec_value() / 16) as nat),
    {
        let lfi = self.lfi;
        let mut result = vec![lfi.to_u8()];
        let tail = u128_to_vec(self.max_num_of_block_len, lfi.max_number_of_block_length());
        append_slice(&mut result, tail.as_slice());
        result
    }
}

} // verus!

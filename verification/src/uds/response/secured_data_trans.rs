use vstd::prelude::*;
use crate::uds::error::{Iso14229Error, Iso14229ErrorView};
use crate::uds::service::Service;
use crate::uds::types::SignatureEncryptionCalculation;
use crate::uds::utils::{data_length_check, spec_length_check};
use crate::uds::params::{AdministrativeParameter, read_be_u16, write_be_u16, be_u16, u16_bytes, u16_bytes_roundtrip};
use crate::uds::hex_text::{hex_encode, hex_text};
use crate::uds::response::message::{Response, ResponseView, response_result_view, spec_positive};
use crate::isotp::bytes_util::{copy_range, append_slice};

verus! {

/// The message of a signature longer than 65535 bytes.
pub open spec fn signature_message() -> Seq<char> {
    "length of `Signature/MAC Byte` is out of range"@
}

/// The administrative parameter of a response: the request bit cleared.
pub open spec fn response_apar(apar: u16, result: u16) -> bool {
    result % 2 == 0 && result / 2 == apar / 2
}

/// Secured data transmission, successful: the internal response and its parameters.
#[derive(Debug, Clone)]
pub struct SecuredDataTransPositive {
    pub apar: AdministrativeParameter,
    pub signature: SignatureEncryptionCalculation,
    pub anti_replay_cnt: u16,
    pub response: u8,
    pub response_params: Vec<u8>,
    pub signature_data: Vec<u8>,
}

impl SecuredDataTransPositive {
    /// A signature of at most 65535 bytes; the request bit of `apar` is cleared.
    pub fn new(
        apar: AdministrativeParameter,
        signature: SignatureEncryptionCalculation,
        anti_replay_cnt: u16,
        response: u8,
        response_params: Vec<u8>,
        signature_data: Vec<u8>,
    ) -> (r: Result<SecuredDataTransPositive, Iso14229Error>)
        ensures
            signature_data@.len() > 0xFFFF ==> (r matches Err(e) && e@ == Iso14229ErrorView::InvalidParam(signature_message())),
            signature_data@.len() <= 0xFFFF ==> (r matches Ok(v) && {
                &&& response_apar(apar.spec_value(), v.apar.spec_value())
                &&& v.signature == signature
                &&& v.anti_replay_cnt == anti_replay_cnt
                &&& v.response == response
                &&& v.response_params@ == response_params@
                &&& v.signature_data@ == signature_data@
            }),
    {
        if signature_data.len() > 0xFFFF {
            return Err(Iso14229Error::InvalidParam(String::from_str("length of `Signature/MAC Byte` is out of range")));
        }
        let mut apar = apar;
        if apar.is_request() {
            apar.request_set(false);
        }
        Ok(SecuredDataTransPositive { apar, signature, anti_replay_cnt, response, response_params, signature_data })
    }
}

/// Secured data transmission, unsuccessful: the internal request and its response code.
#[derive(Debug, Clone)]
pub struct SecuredDataTransNegative {
    pub apar: AdministrativeParameter,
    pub signature: SignatureEncryptionCalculation,
    pub anti_replay_cnt: u16,
    pub service: u8,
    pub response: u8,
    pub signature_data: Vec<u8>,
}

impl SecuredDataTransNegative {
    /// A signature of at most 65535 bytes; the request bit of `apar` is cleared.
    pub fn new(
        apar: AdministrativeParameter,
        signature: SignatureEncryptionCalculation,
        anti_replay_cnt: u16,
        service: u8,
        response: u8,
        signature_data: Vec<u8>,
    ) -> (r: Result<SecuredDataTransNegative, Iso14229Error>)
        ensures
            signature_data@.len() > 0xFFFF ==> (r matches Err(e) && e@ == Iso14229ErrorView::InvalidParam(signature_message())),
            signature_data@.len() <= 0xFFFF ==> (r matches Ok(v) && {
                &&& response_apar(apar.spec_value(), v.apar.spec_value())
                &&& v.signature == signature
                &&& v.anti_replay_cnt == anti_replay_cnt
                &&& v.service == service
                &&& v.response == response
                &&& v.signature_data@ == signature_data@
            }),
    {
        if signature_data.len() > 0xFFFF {
            return Err(Iso14229Error::InvalidParam(String::from_str("length of `Signature/MAC Byte` is out of range")));
        }
        let mut apar = apar;
        if apar.is_request() {
            apar.request_set(false);
        }
        Ok(SecuredDataTransNegative { apar, signature, anti_replay_cnt, service, response, signature_data })
    }
}

/// Response data of service 0x84.
#[derive(Debug, Clone)]
pub enum SecuredDataTrans {
    Successful(SecuredDataTransPositive),
    Unsuccessful(SecuredDataTransNegative),
}

/// The content of a [`SecuredDataTrans`].
pub enum SecuredDataTransView {
    Successful {
        apar: u16,
        signature: SignatureEncryptionCalculation,
        anti_replay_cnt: u16,
        response: u8,
        response_params: Seq<u8>,
        signature_data: Seq<u8>,
    },
    Unsuccessful {
        apar: u16,
        signature: SignatureEncryptionCalculation,
        anti_replay_cnt: u16,
        service: u8,
        response: u8,
        signature_data: Seq<u8>,
    },
}

impl View for SecuredDataTrans {
    type V = SecuredDataTransView;

    open spec fn view(&self) -> SecuredDataTransView {
        match *self {
            SecuredDataTrans::Successful(p) => SecuredDataTransView::Successful {
                apar: p.apar.spec_value(),
                signature: p.signature,
                anti_replay_cnt: p.anti_replay_cnt,
                response: p.response,
                response_params: p.response_params@,
                signature_data: p.signature_data@,
            },
            SecuredDataTrans::Unsuccessful(n) => SecuredDataTransView::Unsuccessful {
                apar: n.apar.spec_value(),
                signature: n.signature,
                anti_replay_cnt: n.anti_replay_cnt,
                service: n.service,
                response: n.response,
                signature_data: n.signature_data@,
            },
        }
    }
}

/// The checks on the data of a positive response: at least the eight bytes of the header.
pub open spec fn spec_check(data: Seq<u8>, sub_func: Option<u8>) -> Result<(), Iso14229ErrorView> {
    match sub_func {
        Some(_) => Err(Iso14229ErrorView::SubFunctionError(Service::SecuredDataTrans)),
        None => spec_length_check(data.len() as usize, 8, false),
    }
}

/// Outcome of reading the data of a response of this service: administrative
/// parameter (request bit clear), signature algorithm, signature length,
/// anti-replay counter, then either 0x7F, the internal request and its code,
/// or the internal response and its parameters; the signature comes last.
pub open spec fn spec_parse(data: Seq<u8>) -> Result<SecuredDataTransView, Iso14229ErrorView> {
    let apar = be_u16(data[0], data[1]);
    let signature_len = be_u16(data[3], data[4]) as int;
    let anti_replay_cnt = be_u16(data[5], data[6]);
    let code = data[7];
    if apar % 2 == 1 {
        Err(Iso14229ErrorView::InvalidData(hex_text(data)))
    } else {
        match SignatureEncryptionCalculation::spec_from_u8(data[2]) {
            None => Err(Iso14229ErrorView::ReservedError(data[2])),
            Some(signature) => if code == 0x7F {
                if data.len() < 10 + signature_len {
                    Err(Iso14229ErrorView::InvalidDataLength { expect: (10 + signature_len) as usize, actual: data.len() as usize })
                } else if data.len() - 10 > 0xFFFF {
                    Err(Iso14229ErrorView::InvalidParam(signature_message()))
                } else {
                    Ok(SecuredDataTransView::Unsuccessful {
                        apar,
                        signature,
                        anti_replay_cnt,
                        service: data[8],
                        response: data[9],
                        signature_data: data.skip(10),
                    })
                }
            } else {
                if data.len() < 8 + signature_len {
                    Err(Iso14229ErrorView::InvalidDataLength { expect: (8 + signature_len) as usize, actual: data.len() as usize })
                } else {
                    Ok(SecuredDataTransView::Successful {
                        apar,
                        signature,
                        anti_replay_cnt,
                        response: code,
                        response_params: data.subrange(8, data.len() - signature_len),
                        signature_data: data.skip(data.len() - signature_len),
                    })
                }
            },
        }
    }
}

/// The bytes written for a response; the signature length is that of the signature.
pub open spec fn spec_sdt_bytes(v: SecuredDataTransView) -> Seq<u8> {
    match v {
        SecuredDataTransView::Successful { apar, signature, anti_replay_cnt, response, response_params, signature_data } =>
            u16_bytes(apar) + seq![signature.spec_to_u8()] + u16_bytes(signature_data.len() as u16)
                + u16_bytes(anti_replay_cnt) + seq![response] + response_params + signature_data,
        SecuredDataTransView::Unsuccessful { apar, signature, anti_replay_cnt, service, response, signature_data } =>
            u16_bytes(apar) + seq![signature.spec_to_u8()] + u16_bytes(signature_data.len() as u16)
                + u16_bytes(anti_replay_cnt) + seq![0x7Fu8, service, response] + signature_data,
    }
}

/// Writing a response read from data gives back that data: always for a
/// successful one, and for an unsuccessful one when the signature length in
/// the header counts all the bytes after the internal response code.
pub proof fn secured_data_trans_bytes_roundtrip(data: Seq<u8>)
    requires
        data.len() >= 8,
        spec_parse(data) is Ok,
        spec_parse(data) matches Ok(SecuredDataTransView::Unsuccessful { .. })
            ==> be_u16(data[3], data[4]) == data.len() - 10,
    ensures
        spec_sdt_bytes(spec_parse(data)->Ok_0) == data,
{
    let v = spec_parse(data)->Ok_0;
    let signature_len = be_u16(data[3], data[4]) as int;
    assert(u16_bytes(be_u16(data[0], data[1])) =~= data.subrange(0, 2));
    assert(u16_bytes(be_u16(data[3], data[4])) =~= data.subrange(3, 5));
    assert(u16_bytes(be_u16(data[5], data[6])) =~= data.subrange(5, 7));
    match v {
        SecuredDataTransView::Successful { signature_data, .. } => {
            assert(signature_data.len() == signature_len);
            assert(spec_sdt_bytes(v) =~= data);
        },
        SecuredDataTransView::Unsuccessful { signature_data, .. } => {
            assert(signature_data.len() == signature_len);
            assert(spec_sdt_bytes(v) =~= data);
        },
    }
}

/// Where each field of a response sits in its data: the administrative
/// parameter in bytes 0 and 1 (big-endian), the signature algorithm in byte
/// 2, the signature length in bytes 3 and 4, the anti-replay counter in
/// bytes 5 and 6; then either the internal response code and its
/// parameters, with the signature as the last `length` bytes, or 0x7F, the
/// internal request's service and its response code, with the signature
/// after them up to the end.
pub proof fn secured_data_trans_layout(data: Seq<u8>)
    requires
        data.len() >= 8,
        spec_parse(data) is Ok,
    ensures
        match spec_parse(data)->Ok_0 {
            SecuredDataTransView::Successful { apar, signature, anti_replay_cnt, response, response_params, signature_data } => {
                &&& data =~= u16_bytes(apar) + seq![signature.spec_to_u8()] + u16_bytes(signature_data.len() as u16)
                    + u16_bytes(anti_replay_cnt) + seq![response] + response_params + signature_data
                &&& response != 0x7F
                &&& apar % 2 == 0
            },
            SecuredDataTransView::Unsuccessful { apar, signature, anti_replay_cnt, service, response, signature_data } => {
                &&& data.len() >= 10
                &&& data.subrange(0, 3) =~= u16_bytes(apar) + seq![signature.spec_to_u8()]
                &&& data.subrange(5, 10) =~= u16_bytes(anti_replay_cnt) + seq![0x7Fu8, service, response]
                &&& signature_data =~= data.skip(10)
                &&& be_u16(data[3], data[4]) <= signature_data.len()
                &&& apar % 2 == 0
            },
        },
{
    assert(u16_bytes(be_u16(data[0], data[1])) =~= data.subrange(0, 2));
    assert(u16_bytes(be_u16(data[3], data[4])) =~= data.subrange(3, 5));
    assert(u16_bytes(be_u16(data[5], data[6])) =~= data.subrange(5, 7));
}

/// Reading the bytes written for a response gives that response back, for
/// both variants: its administrative parameter is a response (request bit
/// clear), its signature algorithm is written as the byte it is read from,
/// its signature fits the 16-bit length field, and a successful one does not
/// carry the negative response marker 0x7F as its internal response code.
pub proof fn secured_data_trans_value_roundtrip(v: SecuredDataTransView)
    requires
        match v {
            SecuredDataTransView::Successful { apar, signature, response, signature_data, .. } => {
                &&& apar % 2 == 0
                &&& SignatureEncryptionCalculation::spec_from_u8(signature.spec_to_u8()) == Some(signature)
                &&& signature_data.len() <= 0xFFFF
                &&& response != 0x7F
            },
            SecuredDataTransView::Unsuccessful { apar, signature, signature_data, .. } => {
                &&& apar % 2 == 0
                &&& SignatureEncryptionCalculation::spec_from_u8(signature.spec_to_u8()) == Some(signature)
                &&& signature_data.len() <= 0xFFFF
            },
        },
    ensures
        spec_sdt_bytes(v).len() >= 8,
        spec_parse(spec_sdt_bytes(v)) == Ok::<SecuredDataTransView, Iso14229ErrorView>(v),
{
    let data = spec_sdt_bytes(v);
    match v {
        SecuredDataTransView::Successful { apar, signature, anti_replay_cnt, response, response_params, signature_data } => {
            let n = signature_data.len() as u16;
            u16_bytes_roundtrip(apar);
            u16_bytes_roundtrip(n);
            u16_bytes_roundtrip(anti_replay_cnt);
            assert(data[0] == u16_bytes(apar)[0] && data[1] == u16_bytes(apar)[1]);
            assert(data[2] == signature.spec_to_u8());
            assert(data[3] == u16_bytes(n)[0] && data[4] == u16_bytes(n)[1]);
            assert(data[5] == u16_bytes(anti_replay_cnt)[0] && data[6] == u16_bytes(anti_replay_cnt)[1]);
            assert(data[7] == response);
            assert(n as int == signature_data.len());
            assert(data.subrange(8, data.len() - signature_data.len()) =~= response_params);
            assert(data.skip(data.len() - signature_data.len()) =~= signature_data);
        },
        SecuredDataTransView::Unsuccessful { apar, signature, anti_replay_cnt, service, response, signature_data } => {
            let n = signature_data.len() as u16;
            u16_bytes_roundtrip(apar);
            u16_bytes_roundtrip(n);
            u16_bytes_roundtrip(anti_replay_cnt);
            assert(data[0] == u16_bytes(apar)[0] && data[1] == u16_bytes(apar)[1]);
            assert(data[2] == signature.spec_to_u8());
            assert(data[3] == u16_bytes(n)[0] && data[4] == u16_bytes(n)[1]);
            assert(data[5] == u16_bytes(anti_replay_cnt)[0] && data[6] == u16_bytes(anti_replay_cnt)[1]);
            assert(data[7] == 0x7F && data[8] == service && data[9] == response);
            assert(n as int == signature_data.len());
            assert(data.skip(10) =~= signature_data);
        },
    }
}

impl SecuredDataTrans {
    /// Builds the positive response that carries `data`.
    pub fn without_config(data: &[u8], sub_func: Option<u8>) -> (r: Result<Response, Iso14229Error>)
        ensures
            response_result_view(r) == spec_positive(Service::SecuredDataTrans, sub_func, data@, spec_check(data@, sub_func)),
    {
        match sub_func {
            Some(_) => return Err(Iso14229Error::SubFunctionError(Service::SecuredDataTrans)),
            None => data_length_check(data.len(), 8, false)?,
        }
        Ok(Response::from_parts(Service::SecuredDataTrans, false, sub_func, data))
    }

    /// Reads a positive response of this service.
    pub fn try_without_config(resp: &Response) -> (r: Result<SecuredDataTrans, Iso14229Error>)
        requires
            resp@.service == Service::SecuredDataTrans && resp@.sub_func is None ==> !resp@.negative,
        ensures
            resp@.service != Service::SecuredDataTrans || resp@.sub_func is Some
                ==> (r matches Err(e) && e@ == Iso14229ErrorView::ServiceError(resp@.service)),
            !(resp@.service != Service::SecuredDataTrans || resp@.sub_func is Some) ==> match spec_parse(resp@.data) {
                Ok(v) => r matches Ok(x) && x@ == v,
                Err(e) => r matches Err(x) && x@ == e,
            },
    {
        resp.assert_ok();
        let service = resp.service();
        if service != Service::SecuredDataTrans || resp.sub_function().is_some() {
            return Err(Iso14229Error::ServiceError(service));
        }
        let data = resp.raw_data().as_slice();
        let data_len = data.len();
        let apar = AdministrativeParameter::from_u16(read_be_u16(data[0], data[1]));
        if apar.is_request() {
            return Err(Iso14229Error::InvalidData(hex_encode(data)));
        }
        let signature = SignatureEncryptionCalculation::try_from(data[2])?;
        let signature_len = read_be_u16(data[3], data[4]) as usize;
        let anti_replay_cnt = read_be_u16(data[5], data[6]);
        let code = data[7];
        if code == 0x7F {
            data_length_check(data_len, 8 + signature_len + 2, false)?;
            let signature_data = copy_range(data, 10, data_len);
            let v = SecuredDataTransNegative::new(apar, signature, anti_replay_cnt, data[8], data[9], signature_data)?;
            Ok(SecuredDataTrans::Unsuccessful(v))
        } else {
            data_length_check(data_len, 8 + signature_len, false)?;
            let end = data_len - signature_len;
            let response_params = copy_range(data, 8, end);
            let signature_data = copy_range(data, end, data_len);
            let v = SecuredDataTransPositive::new(apar, signature, anti_replay_cnt, code, response_params, signature_data)?;
            Ok(SecuredDataTrans::Successful(v))
        }
    }

    /// The header, then the internal message and the signature.
    pub fn to_bytes(self) -> (r: Vec<u8>)
        ensures
            r@ == spec_sdt_bytes(self@),
    {
        let ghost view = self@;
        let mut result: Vec<u8>;
        match self {
            SecuredDataTrans::Successful(v) => {
                result = v.apar.to_bytes();
                result.push(v.signature.to_u8());
                append_slice(&mut result, write_be_u16(v.signature_data.len() as u16).as_slice());
                append_slice(&mut result, write_be_u16(v.anti_replay_cnt).as_slice());
                result.push(v.response);
                append_slice(&mut result, v.response_params.as_slice());
                append_slice(&mut result, v.signature_data.as_slice());
            },
            SecuredDataTrans::Unsuccessful(v) => {
                result = v.apar.to_bytes();
                result.push(v.signature.to_u8());
                append_slice(&mut result, write_be_u16(v.signature_data.len() as u16).as_slice());
                append_slice(&mut result, write_be_u16(v.anti_replay_cnt).as_slice());
                result.push(Service::NRC.to_u8());
                result.push(v.service);
                result.push(v.response);
                append_slice(&mut result, v.signature_data.as_slice());
            },
        }
        assert(result@ =~= spec_sdt_bytes(view));
        result
    }
}

} // verus!

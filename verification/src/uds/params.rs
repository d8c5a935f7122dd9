//! Structured parameters of UDS messages and their byte layouts.

use vstd::prelude::*;
use std::collections::HashMap;
use crate::uds::error::{Iso14229Error, Iso14229ErrorView};
use crate::uds::utils::{data_length_check, spec_length_check, be_value, be_bytes, bytes_u128_roundtrip, slice_to_u128, u128_to_vec};
use crate::isotp::bytes_util::{copy_range, append_slice};

verus! {

/// Lengths of the data records of the supported data identifiers.
pub type DidConfig = HashMap<u16, usize>;

/// Big-endian value of two bytes.
pub open spec fn be_u16(hi: u8, lo: u8) -> u16 {
    (hi as int * 256 + lo as int) as u16
}

/// Big-endian bytes of a 16-bit value.
pub open spec fn u16_bytes(v: u16) -> Seq<u8> {
    seq![(v / 256) as u8, (v % 256) as u8]
}

pub fn read_be_u16(hi: u8, lo: u8) -> (r: u16)
    ensures
        r == be_u16(hi, lo),
{
    assert(((hi as u16) << 8u16) | (lo as u16) == (hi as u16) * 256u16 + (lo as u16)) by (bit_vector);
    ((hi as u16) << 8u16) | (lo as u16)
}

pub fn write_be_u16(v: u16) -> (r: Vec<u8>)
    ensures
        r@ == u16_bytes(v),
{
    assert((v >> 8u16) as u8 == (v / 256) as u8 && (v & 0xFFu16) as u8 == (v % 256) as u8) by (bit_vector);
    vec![(v >> 8u16) as u8, (v & 0xFF) as u8]
}

/// Reading the bytes of a 16-bit value gives it back.
pub proof fn u16_bytes_roundtrip(v: u16)
    ensures
        be_u16(u16_bytes(v)[0], u16_bytes(v)[1]) == v,
{
}

/// A data identifier.
#[derive(Debug, Copy, Clone, PartialEq, Eq, Structural)]
pub struct DataIdentifier(pub u16);

/// A routine identifier.
#[derive(Debug, Copy, Clone, PartialEq, Eq, Structural)]
pub struct RoutineId(pub u16);

/// A dynamically defined data identifier: 0xF200 to 0xF3FF.
#[derive(Debug, Copy, Clone, PartialEq, Eq, Structural)]
pub struct DynamicallyDID(pub(crate) u16);

impl DynamicallyDID {
    pub open spec fn spec_valid(v: u16) -> bool {
        0xF200 <= v <= 0xF3FF
    }

    pub closed spec fn spec_value(self) -> u16 {
        self.0
    }

    /// Accepts identifiers 0xF200 to 0xF3FF.
    pub fn try_from(v: u16) -> (r: Result<DynamicallyDID, Iso14229Error>)
        ensures
            DynamicallyDID::spec_valid(v) ==> (r matches Ok(d) && d.spec_value() == v),
            !DynamicallyDID::spec_valid(v) ==> (r matches Err(e) && e@ == Iso14229ErrorView::InvalidDynamicallyDefinedDID(v)),
    {
        if 0xF200 <= v && v <= 0xF3FF {
            Ok(DynamicallyDID(v))
        } else {
            Err(Iso14229Error::InvalidDynamicallyDefinedDID(v))
        }
    }

    pub fn to_u16(self) -> (r: u16)
        ensures
            r == self.spec_value(),
    {
        self.0
    }
}

/// Length format identifier: the high nibble is the byte count of a length.
#[derive(Debug, Copy, Clone, PartialEq, Eq, Structural)]
pub struct LengthFormatIdentifier(pub(crate) u8);

impl LengthFormatIdentifier {
    pub closed spec fn spec_value(self) -> u8 {
        self.0
    }

    /// A valid identifier has a zero low nibble and a non-zero high nibble.
    pub open spec fn spec_valid(v: u8) -> bool {
        v % 16 == 0 && v != 0
    }

    /// Accepts a byte with a zero low nibble and a non-zero high nibble.
    pub fn try_from(v: u8) -> (r: Result<LengthFormatIdentifier, Iso14229Error>)
        ensures
            LengthFormatIdentifier::spec_valid(v) ==> (r matches Ok(x) && x.spec_value() == v),
            !LengthFormatIdentifier::spec_valid(v) ==> (r matches Err(e) && e@ == Iso14229ErrorView::ReservedError(v)),
    {
        assert(v & 0x0F == v % 16) by (bit_vector);
        if v & 0x0F == 0 && v != 0 {
            Ok(LengthFormatIdentifier(v))
        } else {
            Err(Iso14229Error::ReservedError(v))
        }
    }

    /// An identifier with the given byte; any value is kept as it is.
    pub fn from_byte(v: u8) -> (r: LengthFormatIdentifier)
        ensures
            r.spec_value() == v,
    {
        LengthFormatIdentifier(v)
    }

    pub fn to_u8(self) -> (r: u8)
        ensures
            r == self.spec_value(),
    {
        self.0
    }

    /// The byte count of the maximum block length: the high nibble.
    pub fn max_number_of_block_length(&self) -> (r: usize)
        ensures
            r == self.spec_value() / 16,
    {
        let v = self.0;
        assert(v >> 4u8 == v / 16) by (bit_vector);
        (v >> 4) as usize
    }
}

/// Administrative parameter of a secured data transmission; bit 0 marks a request.
#[derive(Debug, Copy, Clone, PartialEq, Eq, Structural)]
pub struct AdministrativeParameter(pub(crate) u16);

impl AdministrativeParameter {
    pub closed spec fn spec_value(self) -> u16 {
        self.0
    }

    pub fn from_u16(v: u16) -> (r: AdministrativeParameter)
        ensures
            r.spec_value() == v,
    {
        AdministrativeParameter(v)
    }

    pub fn to_u16(self) -> (r: u16)
        ensures
            r == self.spec_value(),
    {
        self.0
    }

    /// Whether the message is a request.
    pub fn is_request(&self) -> (r: bool)
        ensures
            r == (self.spec_value() % 2 == 1),
    {
        let v = self.0;
        assert((v & 1u16 == 1u16) == (v % 2 == 1)) by (bit_vector);
        v & 0x0001 == 0x0001
    }

    /// Sets or clears the request bit.
    pub fn request_set(&mut self, request: bool)
        ensures
            final(self).spec_value() == if request {
                (old(self).spec_value() | 1) as u16
            } else {
                (old(self).spec_value() & 0xFFFE) as u16
            },
            final(self).spec_value() % 2 == (if request { 1int } else { 0int }),
            final(self).spec_value() / 2 == old(self).spec_value() / 2,
    {
        let v = self.0;
        if request {
            assert((v | 1u16) % 2 == 1 && (v | 1u16) / 2 == v / 2) by (bit_vector);
            self.0 = v | 0x0001;
        } else {
            assert((v & 0xFFFEu16) % 2 == 0 && (v & 0xFFFEu16) / 2 == v / 2) by (bit_vector);
            self.0 = v & 0xFFFE;
        }
    }

    /// The two big-endian bytes.
    pub fn to_bytes(self) -> (r: Vec<u8>)
        ensures
            r@ == u16_bytes(self.spec_value()),
    {
        write_be_u16(self.0)
    }
}

/// Address and length format identifier: low nibble the address length, high
/// nibble the size length, in bytes.
#[derive(Debug, Copy, Clone, PartialEq, Eq, Structural)]
pub struct AddressAndLengthFormatIdentifier(pub(crate) u8);

impl AddressAndLengthFormatIdentifier {
    pub closed spec fn spec_value(self) -> u8 {
        self.0
    }

    /// Both nibbles are non-zero.
    pub open spec fn spec_valid(v: u8) -> bool {
        v % 16 != 0 && v / 16 != 0
    }

    pub fn try_from(v: u8) -> (r: Result<AddressAndLengthFormatIdentifier, Iso14229Error>)
        ensures
            AddressAndLengthFormatIdentifier::spec_valid(v) ==> (r matches Ok(x) && x.spec_value() == v),
            !AddressAndLengthFormatIdentifier::spec_valid(v) ==> (r matches Err(e) && e@ == Iso14229ErrorView::ReservedError(v)),
    {
        assert(v & 0x0F == v % 16 && v >> 4u8 == v / 16) by (bit_vector);
        if v & 0x0F != 0 && v >> 4 != 0 {
            Ok(AddressAndLengthFormatIdentifier(v))
        } else {
            Err(Iso14229Error::ReservedError(v))
        }
    }

    pub fn to_u8(self) -> (r: u8)
        ensures
            r == self.spec_value(),
    {
        self.0
    }

    /// Bytes of the memory address: the low nibble.
    pub fn length_of_memory_address(&self) -> (r: usize)
        ensures
            r == self.spec_value() % 16,
    {
        let v = self.0;
        assert(v & 0x0F == v % 16) by (bit_vector);
        (v & 0x0F) as usize
    }

    /// Bytes of the memory size: the high nibble.
    pub fn length_of_memory_size(&self) -> (r: usize)
        ensures
            r == self.spec_value() / 16,
    {
        let v = self.0;
        assert(v >> 4u8 == v / 16) by (bit_vector);
        (v >> 4) as usize
    }
}

/// A memory region: format identifier, address and size.
#[derive(Debug, Copy, Clone, PartialEq, Eq, Structural)]
pub struct MemoryLocation {
    pub alfi: AddressAndLengthFormatIdentifier,
    pub mem_addr: u128,
    pub mem_size: u128,
}

/// Outcome of reading a memory location from bytes: the identifier byte,
/// then exactly as many address and size bytes as it announces.
pub open spec fn spec_memory_location(data: Seq<u8>) -> Result<(u8, u128, u128), Iso14229ErrorView> {
    if data.len() < 1 {
        Err(Iso14229ErrorView::InvalidDataLength { expect: 1, actual: data.len() as usize })
    } else if !AddressAndLengthFormatIdentifier::spec_valid(data[0]) {
        Err(Iso14229ErrorView::ReservedError(data[0]))
    } else {
        let a = (data[0] % 16) as int;
        let s = (data[0] / 16) as int;
        if data.len() != 1 + a + s {
            Err(Iso14229ErrorView::InvalidDataLength { expect: (1 + a + s) as usize, actual: data.len() as usize })
        } else {
            Ok((data[0], be_value(data.subrange(1, 1 + a)), be_value(data.subrange(1 + a, 1 + a + s))))
        }
    }
}

impl MemoryLocation {
    /// Reads a memory location from its byte layout.
    pub fn from_slice(data: &[u8]) -> (r: Result<MemoryLocation, Iso14229Error>)
        ensures
            match spec_memory_location(data@) {
                Ok((f, a, s)) => r matches Ok(m) && m.alfi.spec_value() == f && m.mem_addr == a && m.mem_size == s,
                Err(e) => r matches Err(x) && x@ == e,
            },
    {
        let data_len = data.len();
        data_length_check(data_len, 1, false)?;
        let alfi = AddressAndLengthFormatIdentifier::try_from(data[0])?;
        let addr_len = alfi.length_of_memory_address();
        let size_len = alfi.length_of_memory_size();
        data_length_check(data_len, 1 + addr_len + size_len, true)?;
        let addr = copy_range(data, 1, 1 + addr_len);
        let size = copy_range(data, 1 + addr_len, 1 + addr_len + size_len);
        Ok(MemoryLocation {
            alfi,
            mem_addr: slice_to_u128(addr.as_slice()),
            mem_size: slice_to_u128(size.as_slice()),
        })
    }

    /// The byte layout: identifier, address bytes, size bytes (big-endian).
    pub fn to_bytes(self) -> (r: Vec<u8>)
        ensures
            r@ == seq![self.alfi.spec_value()]
                + be_bytes(self.mem_addr, (self.alfi.spec_value() % 16) as nat)
                + be_bytes(self.mem_size, (self.alfi.spec_value() / 16) as nat),
    {
        let mut result = vec![self.alfi.to_u8()];
        let addr = u128_to_vec(self.mem_addr, self.alfi.length_of_memory_address());
        let size = u128_to_vec(self.mem_size, self.alfi.length_of_memory_size());
        append_slice(&mut result, addr.as_slice());
        append_slice(&mut result, size.as_slice());
        result
    }
}

/// Writing a memory location read from bytes gives back those bytes.
pub proof fn memory_location_bytes_roundtrip(data: Seq<u8>)
    requires
        spec_memory_location(data) is Ok,
    ensures
        ({
            let (f, a, s) = spec_memory_location(data)->Ok_0;
            seq![f] + be_bytes(a, (f % 16) as nat) + be_bytes(s, (f / 16) as nat) == data
        }),
{
    let f = data[0];
    let a = (f % 16) as int;
    let s = (f / 16) as int;
    bytes_u128_roundtrip(data.subrange(1, 1 + a));
    bytes_u128_roundtrip(data.subrange(1 + a, 1 + a + s));
    assert(seq![f] + data.subrange(1, 1 + a) + data.subrange(1 + a, 1 + a + s) =~= data);
}

/// A data identifier with its data record.
#[derive(Debug, Clone, PartialEq, Eq)]
pub struct DIDData {
    pub did: DataIdentifier,
    pub data: Vec<u8>,
}

impl DIDData {
    /// The identifier (big-endian) followed by the record.
    pub fn to_bytes(self) -> (r: Vec<u8>)
        ensures
            r@ == u16_bytes(self.did.0) + self.data@,
    {
        let mut result = write_be_u16(self.did.0);
        append_slice(&mut result, self.data.as_slice());
        result
    }
}

/// Byte count of an algorithm indicator.
pub const ALGORITHM_INDICATOR_LENGTH: usize = 16;

/// Algorithm indicator of an authentication: 16 bytes.
#[derive(Debug, Clone, PartialEq, Eq)]
pub struct AlgorithmIndicator(pub(crate) Vec<u8>);

impl AlgorithmIndicator {
    pub closed spec fn spec_bytes(self) -> Seq<u8> {
        self.0@
    }

    /// The 16 bytes.
    pub fn to_bytes(self) -> (r: Vec<u8>)
        ensures
            r@ == self.spec_bytes(),
    {
        self.0
    }
}

/// A length-prefixed field that must not be empty.
#[derive(Debug, Clone, PartialEq, Eq)]
pub struct NotNullableData(pub(crate) Vec<u8>);

/// A length-prefixed field that may be empty.
#[derive(Debug, Clone, PartialEq, Eq)]
pub struct NullableData(pub(crate) Vec<u8>);

/// What `NotNullableData::new` refuses: empty data or more than 65535 bytes.
pub open spec fn spec_not_nullable_ok(data: Seq<u8>) -> bool {
    0 < data.len() <= 0xFFFF
}

impl NotNullableData {
    pub closed spec fn spec_bytes(self) -> Seq<u8> {
        self.0@
    }

    /// Wraps 1 to 65535 bytes.
    pub fn new(data: Vec<u8>) -> (r: Result<NotNullableData, Iso14229Error>)
        ensures
            spec_not_nullable_ok(data@) ==> (r matches Ok(x) && x.spec_bytes() == data@),
            !spec_not_nullable_ok(data@) ==> (r matches Err(e) && e@ == Iso14229ErrorView::InvalidParam("length of data is out of range"@)),
    {
        if data.len() == 0 || data.len() > 0xFFFF {
            return Err(Iso14229Error::InvalidParam(String::from_str("length of data is out of range")));
        }
        Ok(NotNullableData(data))
    }

    /// The length (two bytes, big-endian) followed by the data.
    pub fn to_bytes(self) -> (r: Vec<u8>)
        ensures
            r@ == u16_bytes(self.spec_bytes().len() as u16) + self.spec_bytes(),
    {
        let mut result = write_be_u16(self.0.len() as u16);
        append_slice(&mut result, self.0.as_slice());
        result
    }
}

impl NullableData {
    pub closed spec fn spec_bytes(self) -> Seq<u8> {
        self.0@
    }

    /// Wraps at most 65535 bytes.
    pub fn new(data: Vec<u8>) -> (r: Result<NullableData, Iso14229Error>)
        ensures
            data@.len() <= 0xFFFF ==> (r matches Ok(x) && x.spec_bytes() == data@),
            data@.len() > 0xFFFF ==> (r matches Err(e) && e@ == Iso14229ErrorView::InvalidParam("length of data is out of range"@)),
    {
        if data.len() > 0xFFFF {
            return Err(Iso14229Error::InvalidParam(String::from_str("length of data is out of range")));
        }
        Ok(NullableData(data))
    }

    /// The length (two bytes, big-endian) followed by the data.
    pub fn to_bytes(self) -> (r: Vec<u8>)
        ensures
            r@ == u16_bytes(self.spec_bytes().len() as u16) + self.spec_bytes(),
    {
        let mut result = write_be_u16(self.0.len() as u16);
        append_slice(&mut result, self.0.as_slice());
        result
    }
}

/// Outcome of reading a length-prefixed field at `offset`: its bytes and the
/// offset after it.
pub open spec fn spec_parse_field(data: Seq<u8>, offset: int) -> Result<(Seq<u8>, int), Iso14229ErrorView> {
    if data.len() < offset + 2 {
        Err(Iso14229ErrorView::InvalidDataLength { expect: (offset + 2) as usize, actual: data.len() as usize })
    } else {
        let len = be_u16(data[offset], data[offset + 1]) as int;
        if data.len() < offset + 2 + len {
            Err(Iso14229ErrorView::InvalidDataLength { expect: (offset + 2 + len) as usize, actual: data.len() as usize })
        } else {
            Ok((data.subrange(offset + 2, offset + 2 + len), offset + 2 + len))
        }
    }
}

/// Reads a length-prefixed field that may be empty.
pub(crate) fn parse_nullable(data: &[u8], data_len: usize, offset: &mut usize) -> (r: Result<NullableData, Iso14229Error>)
    requires
        data_len == data@.len(),
        *old(offset) <= data_len,
        data_len + 0x1_0002 <= usize::MAX,
    ensures
        match spec_parse_field(data@, *old(offset) as int) {
            Ok((bytes, next)) => r matches Ok(x) && x.spec_bytes() == bytes && *final(offset) == next,
            Err(e) => r matches Err(x) && x@ == e,
        },
        *final(offset) <= data_len,
{
    data_length_check(data_len, *offset + 2, false)?;
    let len = read_be_u16(data[*offset], data[*offset + 1]) as usize;
    *offset = *offset + 2;
    data_length_check(data_len, *offset + len, false)?;
    let result = copy_range(data, *offset, *offset + len);
    *offset = *offset + len;
    NullableData::new(result)
}

/// Reads a length-prefixed field that must not be empty.
pub(crate) fn parse_not_nullable(data: &[u8], data_len: usize, offset: &mut usize) -> (r: Result<NotNullableData, Iso14229Error>)
    requires
        data_len == data@.len(),
        *old(offset) <= data_len,
        data_len + 0x1_0002 <= usize::MAX,
    ensures
        match spec_parse_field(data@, *old(offset) as int) {
            Ok((bytes, next)) => if bytes.len() == 0 {
                r matches Err(x) && x@ == Iso14229ErrorView::InvalidParam("length of data is out of range"@)
            } else {
                r matches Ok(x) && x.spec_bytes() == bytes && *final(offset) == next
            },
            Err(e) => r matches Err(x) && x@ == e,
        },
        *final(offset) <= data_len,
{
    data_length_check(data_len, *offset + 2, false)?;
    let len = read_be_u16(data[*offset], data[*offset + 1]) as usize;
    *offset = *offset + 2;
    data_length_check(data_len, *offset + len, false)?;
    let result = copy_range(data, *offset, *offset + len);
    *offset = *offset + len;
    NotNullableData::new(result)
}

/// Reads the 16 bytes of an algorithm indicator at `offset`.
pub(crate) fn parse_algo_indicator(data: &[u8], offset: &mut usize) -> (r: AlgorithmIndicator)
    requires
        *old(offset) + ALGORITHM_INDICATOR_LENGTH <= data@.len(),
    ensures
        r.spec_bytes() == data@.subrange(*old(offset) as int, *old(offset) + 16),
        *final(offset) == *old(offset) + 16,
{
    let start = *offset;
    proof {
        assert(data.len() == data@.len());
    }
    let result = copy_range(data, start, start + ALGORITHM_INDICATOR_LENGTH);
    *offset = start + ALGORITHM_INDICATOR_LENGTH;
    AlgorithmIndicator(result)
}

} // verus!

verus! {

/// Data identifier lengths that leave room for offsets in `usize` arithmetic.
pub open spec fn did_config_ok(cfg: Map<u16, usize>) -> bool {
    forall|k: u16| cfg.contains_key(k) ==> #[trigger] cfg[k] < isize::MAX
}

/// The record length configured for a data identifier.
pub fn did_length(cfg: &DidConfig, did: u16) -> (r: Option<usize>)
    ensures
        cfg@.contains_key(did) ==> r == Some(cfg@[did]),
        !cfg@.contains_key(did) ==> r is None,
{
    broadcast use vstd::std_specs::hash::group_hash_axioms;
    match cfg.get(&did) {
        Some(v) => Some(*v),
        None => None,
    }
}

} // verus!

use vstd::prelude::*;

verus! {

/// ISO-TP address format.
#[derive(Debug, Copy, Clone, PartialEq, Eq, Structural)]
pub enum AddressFormat {
    /// 11-bit CAN identifier.
    Normal,
    /// 29-bit CAN identifier.
    NormalFixed,
    /// 11-bit remote CAN identifier.
    Extend,
    /// 11-bit and 11-bit remote CAN identifiers mixed.
    ExtendMixed,
    /// 11-bit (remote) and 29-bit CAN identifiers.
    Enhanced,
}

impl AddressFormat {
    /// The default format: normal addressing.
    pub fn default_format() -> (r: AddressFormat)
        ensures
            r == AddressFormat::Normal,
    {
        AddressFormat::Normal
    }

    /// The number of a format, 1 (normal) to 5 (enhanced).
    pub fn to_u8(self) -> (r: u8)
        ensures
            1 <= r <= 5,
            r == 1 <==> self == AddressFormat::Normal,
            r == 2 <==> self == AddressFormat::NormalFixed,
            r == 3 <==> self == AddressFormat::Extend,
            r == 4 <==> self == AddressFormat::ExtendMixed,
            r == 5 <==> self == AddressFormat::Enhanced,
    {
        match self {
            AddressFormat::Normal => 0x01,
            AddressFormat::NormalFixed => 0x02,
            AddressFormat::Extend => 0x03,
            AddressFormat::ExtendMixed => 0x04,
            AddressFormat::Enhanced => 0x05,
        }
    }
}

/// ISO-TP address type.
#[derive(Debug, Copy, Clone, PartialEq, Eq, Structural)]
pub enum AddressType {
    Physical,
    Functional,
}

impl AddressType {
    /// The default type: physical addressing.
    pub fn default_type() -> (r: AddressType)
        ensures
            r == AddressType::Physical,
    {
        AddressType::Physical
    }
}

/// ISO-TP address: transmit, receive and functional identifiers.
#[derive(Debug, Copy, Clone, PartialEq, Eq, Structural)]
pub struct Address {
    pub tx_id: u32,
    pub rx_id: u32,
    pub fid: u32,
}

impl Address {
    /// The usual diagnostic identifiers: 0x7E0, 0x7E8 and 0x7DF.
    pub fn default_address() -> (r: Address)
        ensures
            r == (Address { tx_id: 0x7E0, rx_id: 0x7E8, fid: 0x7DF }),
    {
        Address { tx_id: 0x7E0, rx_id: 0x7E8, fid: 0x7DF }
    }

    /// The identifier that frames of the given type are sent with.
    pub open spec fn spec_can_id(self, addr_type: AddressType) -> u32 {
        match addr_type {
            AddressType::Physical => self.tx_id,
            AddressType::Functional => self.fid,
        }
    }

    /// The identifier that frames of the given type are sent with.
    pub fn can_id(&self, addr_type: AddressType) -> (r: u32)
        ensures
            r == self.spec_can_id(addr_type),
    {
        match addr_type {
            AddressType::Physical => self.tx_id,
            AddressType::Functional => self.fid,
        }
    }
}

} // verus!

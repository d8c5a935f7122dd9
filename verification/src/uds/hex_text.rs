//! Lowercase hexadecimal text of bytes, as the `hex` crate writes it.

use vstd::prelude::*;

verus! {

/// The lowercase hexadecimal digit of a value below 16.
pub open spec fn hex_digit(n: u8) -> char {
    if n < 10 {
        (48 + n) as char
    } else {
        (87 + n) as char
    }
}

/// Two lowercase hexadecimal digits per byte, high nibble first.
pub open spec fn hex_text(data: Seq<u8>) -> Seq<char>
    decreases data.len(),
{
    if data.len() == 0 {
        Seq::empty()
    } else {
        let last = data.last();
        hex_text(data.drop_last()) + seq![hex_digit(last / 16), hex_digit(last % 16)]
    }
}

/// Calls `hex::encode`, which writes each byte as two lowercase hexadecimal
/// digits (table "0123456789abcdef"), high nibble first.
#[verifier::external_body]
pub fn hex_encode(data: &[u8]) -> (r: String)
    ensures
        r@ == hex_text(data@),
{
    hex::encode(data)
}

} // verus!

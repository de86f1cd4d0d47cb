//! The detail panel's data for one block: its number, the hex text of its
//! hash, and its extrinsic and event counts.

use vstd::prelude::*;

use crate::text::digit_char;

verus! {

/// The character for one hexadecimal digit value, lowercase.
pub open spec fn hex_digit(d: int) -> char {
    if d < 10 {
        digit_char(d)
    } else if d == 10 {
        'a'
    } else if d == 11 {
        'b'
    } else if d == 12 {
        'c'
    } else if d == 13 {
        'd'
    } else if d == 14 {
        'e'
    } else {
        'f'
    }
}

/// Lowercase hex text of a byte string: two digits per byte, most
/// significant nibble first, bytes in order.
pub open spec fn hex_of(bytes: Seq<u8>) -> Seq<char>
    decreases bytes.len(),
{
    if bytes.len() == 0 {
        Seq::empty()
    } else {
        hex_of(bytes.drop_last()) + seq![
            hex_digit(bytes.last() as int / 16),
            hex_digit(bytes.last() as int % 16),
        ]
    }
}

/// Relies on hex::encode: it renders each byte in order as two lowercase
/// hex digits, most significant nibble first.
#[verifier::external_body]
fn hex_encode(bytes: &[u8]) -> (r: String)
    ensures
        r@ == hex_of(bytes@),
{
    hex::encode(bytes)
}

/// The data the detail view displays for one block, assembled from the
/// values fetched for it.
pub struct BlockDetail {
    pub block_number: u32,
    pub hash_hex: String,
    pub extrinsic_count: usize,
    pub event_count: usize,
}

impl BlockDetail {
    /// Assemble the detail data: the hash is kept as its hex text, the
    /// number and the two counts verbatim.
    pub fn new(block_number: u32, hash: &[u8], extrinsic_count: usize, event_count: usize) -> (d:
        Self)
        ensures
            d.block_number == block_number,
            d.hash_hex@ == hex_of(hash@),
            d.extrinsic_count == extrinsic_count,
            d.event_count == event_count,
    {
        BlockDetail {
            block_number,
            hash_hex: hex_encode(hash),
            extrinsic_count,
            event_count,
        }
    }
}

} // verus!

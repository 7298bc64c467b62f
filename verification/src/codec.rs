//! Conversion between the device's packed binary-coded-decimal register
//! encoding and plain binary values, together with the fixed-width decimal
//! digit rendering used by the time formatting helpers.

use vstd::prelude::*;

verus! {

/// The plain binary value encoded by a packed BCD byte: the low nibble holds
/// the ones digit and the high nibble holds the tens digit.
pub open spec fn bcd_to_bin(raw: u8) -> u8 {
    ((raw & 0xf) + 10 * (raw >> 4)) as u8
}

/// The packed BCD byte for a plain binary value below one hundred: the tens
/// digit in the high nibble and the ones digit in the low nibble.
pub open spec fn bin_to_bcd(v: u8) -> u8 {
    ((v as int / 10) * 16 + v as int % 10) as u8
}

/// Decodes a packed BCD byte into its plain binary value.
pub fn bcd_decode(raw: u8) -> (v: u8)
    ensures
        v == bcd_to_bin(raw),
{
    proof {
        assert((raw & 0xf) <= 15 && (raw >> 4) <= 15) by (bit_vector);
    }
    (raw & 0xf) + 10 * (raw >> 4)
}

/// Encodes a plain binary value below one hundred as a packed BCD byte.
pub fn bcd_encode(v: u8) -> (raw: u8)
    requires
        v <= 99,
    ensures
        raw == bin_to_bcd(v),
{
    (v / 10) * 16 + v % 10
}

/// A byte with both nibbles at most nine encodes the two-digit decimal number
/// whose tens digit is the high nibble and whose ones digit is the low nibble;
/// the value is below one hundred and re-encoding it restores the raw byte.
pub proof fn lemma_bcd_decode_valid(raw: u8)
    requires
        raw & 0xf <= 9,
        raw >> 4 <= 9,
    ensures
        bcd_to_bin(raw) == 10 * (raw >> 4) + (raw & 0xf),
        bcd_to_bin(raw) <= 99,
        bin_to_bcd(bcd_to_bin(raw)) == raw,
{
    assert(bcd_to_bin(raw) == 10 * (raw >> 4) + (raw & 0xf) && bcd_to_bin(raw) <= 99
        && bin_to_bcd(bcd_to_bin(raw)) == raw) by (bit_vector)
        requires
            raw & 0xf <= 9,
            raw >> 4 <= 9,
    ;
}

/// Encoding a value below one hundred as packed BCD and decoding it again
/// yields the value back: the codec round-trips on its intended range.
pub proof fn lemma_bcd_round_trip(v: u8)
    requires
        v <= 99,
    ensures
        bcd_to_bin(bin_to_bcd(v)) == v,
{
    assert(bcd_to_bin(bin_to_bcd(v)) == v) by (bit_vector)
        requires
            v <= 99,
    ;
}

} // verus!

//! The scaling convention: a physical quantity is carried in a register word
//! as integer hundredths (two-decimal fixed point). A temperature of 250.00 K
//! is the word 25000; a heater status fraction of 1.00 is the word 100.
//!
//! The conversion from a physical reading to hundredths happens outside the
//! verified core; everything from hundredths to register words is verified
//! here, and encoding and decoding are proved exact inverses on the whole
//! representable range.

use vstd::prelude::*;

verus! {

/// The register word that stores a quantity of `hundredths` hundredths.
/// Values beyond the 16-bit range saturate at the largest word.
pub open spec fn encode_hundredths_spec(hundredths: u64) -> u16 {
    if hundredths > 0xFFFF {
        0xFFFF
    } else {
        hundredths as u16
    }
}

/// The quantity, in hundredths, that a register word stands for.
pub open spec fn decode_hundredths_spec(word: u16) -> u64 {
    word as u64
}

/// Encode a quantity given in hundredths as a register word.
pub fn encode_hundredths(hundredths: u64) -> (word: u16)
    ensures
        word == encode_hundredths_spec(hundredths),
{
    if hundredths > 0xFFFF {
        0xFFFF
    } else {
        hundredths as u16
    }
}

/// Decode a register word back to a quantity in hundredths.
pub fn decode_hundredths(word: u16) -> (hundredths: u64)
    ensures
        hundredths == decode_hundredths_spec(word),
{
    word as u64
}

/// Scaling round trip: for every quantity representable in a register word
/// (0.00 through 655.35 units, that is 0 through 65535 hundredths), decoding
/// the encoded word gives back exactly the quantity.
pub proof fn lemma_scaling_round_trip(hundredths: u64)
    requires
        hundredths <= 0xFFFF,
    ensures
        decode_hundredths_spec(encode_hundredths_spec(hundredths)) == hundredths,
{
}

} // verus!

//! Conversions between bytes and the bits and 16-bit words of the wire format.
use vstd::prelude::*;

verus! {

/// Whether bit `i` (0 is the least significant) of `byte` is set.
pub open spec fn bit_is_set(byte: u8, i: int) -> bool {
    (byte >> (i as u8)) & 1u8 == 1u8
}

/// Expands a byte into its eight bits, least significant first: entry `i`
/// is `(hex >> i) & 1`.
pub fn hex2bin(hex: u8) -> (bin: [u8; 8])
    ensures
        forall|i: int| 0 <= i < 8 ==> #[trigger] bin@[i] == (hex >> (i as u8)) & 1u8,
        forall|i: int| 0 <= i < 8 ==> (#[trigger] bin@[i] == 1u8 <==> bit_is_set(hex, i)),
        forall|i: int| 0 <= i < 8 ==> (#[trigger] bin@[i] == 1u8 || bin@[i] == 0u8),
{
    let mut bin = [0u8; 8];
    let mut i: usize = 0;
    while i < 8
        invariant
            0 <= i <= 8,
            forall|j: int| 0 <= j < i ==> #[trigger] bin@[j] == (hex >> (j as u8)) & 1u8,
        decreases 8 - i,
    {
        let shift: u8 = i as u8;
        bin[i] = (hex >> shift) & 1;
        i = i + 1;
    }
    assert forall|i: int| 0 <= i < 8 implies (#[trigger] bin@[i] == 1u8 || bin@[i] == 0u8) by {
        let s = i as u8;
        assert((hex >> s) & 1u8 == 1u8 || (hex >> s) & 1u8 == 0u8) by (bit_vector);
    }
    bin
}

/// Joins a high and a low byte into a big-endian 16-bit word.
pub fn combine_be16(high: u8, low: u8) -> (r: u16)
    ensures
        r == high as int * 256 + low as int,
        r == ((high as u16) << 8u16) | (low as u16),
{
    let r = ((high as u16) << 8u16) | (low as u16);
    assert(((high as u16) << 8u16) | (low as u16) == high as u16 * 256 + low as u16) by (bit_vector);
    r
}

} // verus!

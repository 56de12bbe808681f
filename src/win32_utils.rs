use vstd::prelude::*;

verus! {

/// The low 16 bits of a packed message parameter.
pub open spec fn low_bits(word: usize) -> nat {
    (word as nat) % 0x10000
}

/// Bits 16 to 31 of a packed message parameter.
pub open spec fn high_bits(word: usize) -> nat {
    ((word as nat) / 0x10000) % 0x10000
}

/// Low word of a packed parameter.
pub fn lo_word(word: usize) -> (r: u32)
    ensures
        r as nat == low_bits(word),
{
    let r = word & 0xFFFF;
    assert(word & 0xFFFF == word % 0x10000) by (bit_vector);
    r as u32
}

/// High word of the low 32 bits of a packed parameter.
pub fn hi_word(word: usize) -> (r: u32)
    ensures
        r as nat == high_bits(word),
{
    let r = (word >> 16) & 0xFFFF;
    assert((word >> 16) & 0xFFFF == (word / 0x10000) % 0x10000) by (bit_vector);
    r as u32
}

} // verus!

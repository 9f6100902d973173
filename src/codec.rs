use vstd::prelude::*;

verus! {

/// The unsigned value of two bytes read most significant first.
pub open spec fn be16(hi: u8, lo: u8) -> int {
    hi as int * 256 + lo as int
}

/// The unsigned value of four bytes read most significant first.
pub open spec fn be32(b0: u8, b1: u8, b2: u8, b3: u8) -> int {
    b0 as int * 0x100_0000 + b1 as int * 0x1_0000 + b2 as int * 0x100 + b3 as int
}

/// Reads a big-endian unsigned 16-bit integer.
pub fn read_int(bytes: [u8; 2]) -> (r: u16)
    ensures
        r as int == be16(bytes[0], bytes[1]),
{
    (bytes[0] as u16) * 256 + (bytes[1] as u16)
}

/// Reads four bytes as a big-endian 32-bit word. For a float register this
/// word is the IEEE-754 bit pattern of the value.
pub fn read_word(bytes: [u8; 4]) -> (r: u32)
    ensures
        r as int == be32(bytes[0], bytes[1], bytes[2], bytes[3]),
{
    (bytes[0] as u32) * 0x100_0000 + (bytes[1] as u32) * 0x1_0000 + (bytes[2] as u32) * 0x100
        + (bytes[3] as u32)
}

/// The more significant byte of a 16-bit value.
pub open spec fn hi_byte(v: u16) -> u8 {
    (v / 256) as u8
}

/// The less significant byte of a 16-bit value.
pub open spec fn lo_byte(v: u16) -> u8 {
    (v % 256) as u8
}

/// A 16-bit value is the big-endian reading of its own two bytes.
pub proof fn lemma_be16_of_bytes(v: u16)
    ensures
        be16(hi_byte(v), lo_byte(v)) == v as int,
{
}

/// Splits a 16-bit value into its two bytes, most significant first.
pub fn int_bytes(v: u16) -> (r: [u8; 2])
    ensures
        r[0] == hi_byte(v),
        r[1] == lo_byte(v),
        be16(r[0], r[1]) == v as int,
{
    [(v / 256) as u8, (v % 256) as u8]
}

/// Byte `k` of a 32-bit word, counting from the most significant.
pub open spec fn word_byte(w: u32, k: int) -> u8 {
    if k == 0 {
        (w / 0x100_0000) as u8
    } else if k == 1 {
        ((w / 0x1_0000) % 0x100) as u8
    } else if k == 2 {
        ((w / 0x100) % 0x100) as u8
    } else {
        (w % 0x100) as u8
    }
}

/// A word is the big-endian reading of its own four bytes.
pub proof fn lemma_be32_of_bytes(w: u32)
    ensures
        be32(word_byte(w, 0), word_byte(w, 1), word_byte(w, 2), word_byte(w, 3)) == w as int,
{
}

/// Splits a 32-bit word into its four bytes, most significant first.
pub fn word_bytes(w: u32) -> (r: [u8; 4])
    ensures
        r[0] == word_byte(w, 0),
        r[1] == word_byte(w, 1),
        r[2] == word_byte(w, 2),
        r[3] == word_byte(w, 3),
        be32(r[0], r[1], r[2], r[3]) == w as int,
{
    [
        (w / 0x100_0000) as u8,
        ((w / 0x1_0000) % 0x100) as u8,
        ((w / 0x100) % 0x100) as u8,
        (w % 0x100) as u8,
    ]
}

} // verus!

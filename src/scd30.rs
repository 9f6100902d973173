use vstd::prelude::*;

use crate::codec::{be32, lemma_be32_of_bytes, read_word, word_byte, word_bytes};

verus! {

/// Bus address of the CO2 / humidity / temperature sensor.
pub const SCD30_ADDRESS: u16 = 0x61;

/// Command that starts continuous measurement.
pub fn scd30_start_command() -> (r: [u8; 5])
    ensures
        r@ == seq![0x00u8, 0x10, 0x00, 0x00, 0x81],
{
    [0x00, 0x10, 0x00, 0x00, 0x81]
}

/// Command that asks whether a fresh measurement is available.
pub fn scd30_status_command() -> (r: [u8; 2])
    ensures
        r@ == seq![0x02u8, 0x02],
{
    [0x02, 0x02]
}

/// Command that asks for the measurement frame.
pub fn scd30_read_command() -> (r: [u8; 2])
    ensures
        r@ == seq![0x03u8, 0x00],
{
    [0x03, 0x00]
}

/// Whether the two-byte answer to the status command reports a fresh
/// measurement: its second byte is the flag, and only 1 means ready.
pub open spec fn scd30_ready(response: Seq<u8>) -> bool {
    response[1] == 1
}

/// Reads the answer to the status command.
pub fn scd30_is_ready(response: [u8; 2]) -> (r: bool)
    ensures
        r == scd30_ready(response@),
{
    response[1] == 1
}

/// The three measurement words of a frame, each the IEEE-754 bit pattern
/// of a single-precision float: CO2 in ppm, temperature in degrees Celsius,
/// relative humidity in percent.
#[derive(Clone, Copy, Debug, PartialEq, Eq)]
pub struct Scd30Words {
    pub co2: u32,
    pub temp_c: u32,
    pub humidity: u32,
}

/// Whether byte `i` of a frame carries payload; the others are integrity
/// bytes, which decoding ignores.
pub open spec fn scd30_payload_byte(i: int) -> bool {
    i % 3 != 2
}

/// The word that starts at offset `at` of a frame: bytes `at`, `at + 1`,
/// `at + 3` and `at + 4`, most significant first.
pub open spec fn scd30_word(f: Seq<u8>, at: int) -> u32 {
    be32(f[at], f[at + 1], f[at + 3], f[at + 4]) as u32
}

/// The words that an 18-byte frame encodes. A frame holds three words,
/// each sent as two pairs of payload bytes with an integrity byte after
/// each pair.
pub open spec fn scd30_of(f: Seq<u8>) -> Scd30Words {
    Scd30Words { co2: scd30_word(f, 0), temp_c: scd30_word(f, 6), humidity: scd30_word(f, 12) }
}

/// Decodes a measurement frame. Every frame decodes; integrity bytes are
/// skipped and not checked.
pub fn parse_scd30(b: [u8; 18]) -> (r: Scd30Words)
    ensures
        r == scd30_of(b@),
{
    Scd30Words {
        co2: read_word([b[0], b[1], b[3], b[4]]),
        temp_c: read_word([b[6], b[7], b[9], b[10]]),
        humidity: read_word([b[12], b[13], b[15], b[16]]),
    }
}

/// Two frames that agree on every payload byte decode to the same words,
/// whatever their integrity bytes hold.
pub proof fn lemma_scd30_ignores_integrity_bytes(a: [u8; 18], b: [u8; 18])
    requires
        forall|i: int| 0 <= i < 18 && scd30_payload_byte(i) ==> a@[i] == b@[i],
    ensures
        scd30_of(a@) == scd30_of(b@),
{
    assert(scd30_payload_byte(0) && scd30_payload_byte(1) && scd30_payload_byte(3)
        && scd30_payload_byte(4));
    assert(scd30_payload_byte(6) && scd30_payload_byte(7) && scd30_payload_byte(9)
        && scd30_payload_byte(10));
    assert(scd30_payload_byte(12) && scd30_payload_byte(13) && scd30_payload_byte(15)
        && scd30_payload_byte(16));
}

/// The synthetic frame that carries `w`: each word at its offsets, every
/// integrity byte zero.
pub open spec fn scd30_frame(w: Scd30Words) -> Seq<u8> {
    seq![
        word_byte(w.co2, 0), word_byte(w.co2, 1), 0u8,
        word_byte(w.co2, 2), word_byte(w.co2, 3), 0u8,
        word_byte(w.temp_c, 0), word_byte(w.temp_c, 1), 0u8,
        word_byte(w.temp_c, 2), word_byte(w.temp_c, 3), 0u8,
        word_byte(w.humidity, 0), word_byte(w.humidity, 1), 0u8,
        word_byte(w.humidity, 2), word_byte(w.humidity, 3), 0u8,
    ]
}

/// Builds the synthetic 18-byte frame that carries three words, with zero
/// in every integrity byte.
pub fn encode_scd30(w: Scd30Words) -> (r: [u8; 18])
    ensures
        r@ == scd30_frame(w),
{
    let c = word_bytes(w.co2);
    let t = word_bytes(w.temp_c);
    let h = word_bytes(w.humidity);
    let r: [u8; 18] = [
        c[0], c[1], 0, c[2], c[3], 0,
        t[0], t[1], 0, t[2], t[3], 0,
        h[0], h[1], 0, h[2], h[3], 0,
    ];
    assert(r@ =~= scd30_frame(w));
    r
}

/// Decoding the synthetic frame of three words gives those words back.
pub proof fn lemma_scd30_round_trip(w: Scd30Words)
    ensures
        scd30_of(scd30_frame(w)) == w,
{
    lemma_be32_of_bytes(w.co2);
    lemma_be32_of_bytes(w.temp_c);
    lemma_be32_of_bytes(w.humidity);
}

} // verus!

use vstd::prelude::*;

use crate::codec::{be16, hi_byte, int_bytes, lemma_be16_of_bytes, lo_byte, read_int};

verus! {

/// Bus address of the particulate sensor.
pub const PMSA003I_ADDRESS: u16 = 0x12;

/// Register at which the block read of a frame starts.
pub const PMSA003I_START_REGISTER: u8 = 0x00;

/// One decoded particulate frame: three mass concentrations and six
/// particle counts, for particles at or above 0.3, 0.5, 1, 2.5, 5 and 10 µm.
#[derive(Clone, Copy, Debug, PartialEq, Eq)]
pub struct Pmsa003iReading {
    pub pm1: u16,
    pub pm25: u16,
    pub pm10: u16,
    pub um_pt3: u16,
    pub um_pt5: u16,
    pub um_1: u16,
    pub um_2pt5: u16,
    pub um_5: u16,
    pub um_10: u16,
}

impl Pmsa003iReading {
    /// The nine fields in frame order.
    pub open spec fn fields(self) -> Seq<u16> {
        seq![
            self.pm1,
            self.pm25,
            self.pm10,
            self.um_pt3,
            self.um_pt5,
            self.um_1,
            self.um_2pt5,
            self.um_5,
            self.um_10,
        ]
    }
}

/// The value of field `k` of a particulate frame: the big-endian pair of
/// bytes at offset `0x0a + 2k`.
pub open spec fn pmsa003i_field(f: Seq<u8>, k: int) -> int {
    be16(f[0x0a + 2 * k], f[0x0a + 2 * k + 1])
}

/// The reading that a 32-byte particulate frame encodes.
pub open spec fn pmsa003i_of(f: Seq<u8>) -> Pmsa003iReading {
    Pmsa003iReading {
        pm1: pmsa003i_field(f, 0) as u16,
        pm25: pmsa003i_field(f, 1) as u16,
        pm10: pmsa003i_field(f, 2) as u16,
        um_pt3: pmsa003i_field(f, 3) as u16,
        um_pt5: pmsa003i_field(f, 4) as u16,
        um_1: pmsa003i_field(f, 5) as u16,
        um_2pt5: pmsa003i_field(f, 6) as u16,
        um_5: pmsa003i_field(f, 7) as u16,
        um_10: pmsa003i_field(f, 8) as u16,
    }
}

/// Decodes a particulate frame. Every frame decodes; no value is range-checked.
pub fn parse_pmsa003i(b: [u8; 32]) -> (r: Pmsa003iReading)
    ensures
        r == pmsa003i_of(b@),
        forall|k: int| 0 <= k < 9 ==> #[trigger] r.fields()[k] as int == pmsa003i_field(b@, k),
{
    let r = Pmsa003iReading {
        pm1: read_int([b[0x0a], b[0x0b]]),
        pm25: read_int([b[0x0c], b[0x0d]]),
        pm10: read_int([b[0x0e], b[0x0f]]),
        um_pt3: read_int([b[0x10], b[0x11]]),
        um_pt5: read_int([b[0x12], b[0x13]]),
        um_1: read_int([b[0x14], b[0x15]]),
        um_2pt5: read_int([b[0x16], b[0x17]]),
        um_5: read_int([b[0x18], b[0x19]]),
        um_10: read_int([b[0x1a], b[0x1b]]),
    };
    r
}

/// The synthetic frame that carries `x`: each field big-endian at its
/// offset, every other byte zero.
pub open spec fn pmsa003i_frame(x: Pmsa003iReading) -> Seq<u8> {
    seq![
        0u8, 0u8, 0u8, 0u8, 0u8, 0u8, 0u8, 0u8, 0u8, 0u8,
        hi_byte(x.pm1), lo_byte(x.pm1),
        hi_byte(x.pm25), lo_byte(x.pm25),
        hi_byte(x.pm10), lo_byte(x.pm10),
        hi_byte(x.um_pt3), lo_byte(x.um_pt3),
        hi_byte(x.um_pt5), lo_byte(x.um_pt5),
        hi_byte(x.um_1), lo_byte(x.um_1),
        hi_byte(x.um_2pt5), lo_byte(x.um_2pt5),
        hi_byte(x.um_5), lo_byte(x.um_5),
        hi_byte(x.um_10), lo_byte(x.um_10),
        0u8, 0u8, 0u8, 0u8,
    ]
}

/// Builds the synthetic 32-byte frame that carries a reading, as a sensor
/// would send it, with zero in every byte outside the measurement fields.
pub fn encode_pmsa003i(x: Pmsa003iReading) -> (r: [u8; 32])
    ensures
        r@ == pmsa003i_frame(x),
{
    let pm1 = int_bytes(x.pm1);
    let pm25 = int_bytes(x.pm25);
    let pm10 = int_bytes(x.pm10);
    let um_pt3 = int_bytes(x.um_pt3);
    let um_pt5 = int_bytes(x.um_pt5);
    let um_1 = int_bytes(x.um_1);
    let um_2pt5 = int_bytes(x.um_2pt5);
    let um_5 = int_bytes(x.um_5);
    let um_10 = int_bytes(x.um_10);
    let r: [u8; 32] = [
        0, 0, 0, 0, 0, 0, 0, 0, 0, 0,
        pm1[0], pm1[1],
        pm25[0], pm25[1],
        pm10[0], pm10[1],
        um_pt3[0], um_pt3[1],
        um_pt5[0], um_pt5[1],
        um_1[0], um_1[1],
        um_2pt5[0], um_2pt5[1],
        um_5[0], um_5[1],
        um_10[0], um_10[1],
        0, 0, 0, 0,
    ];
    assert(r@ =~= pmsa003i_frame(x));
    r
}

/// Decoding the synthetic frame of a reading gives that reading back.
pub proof fn lemma_pmsa003i_round_trip(x: Pmsa003iReading)
    ensures
        pmsa003i_of(pmsa003i_frame(x)) == x,
{
    lemma_be16_of_bytes(x.pm1);
    lemma_be16_of_bytes(x.pm25);
    lemma_be16_of_bytes(x.pm10);
    lemma_be16_of_bytes(x.um_pt3);
    lemma_be16_of_bytes(x.um_pt5);
    lemma_be16_of_bytes(x.um_1);
    lemma_be16_of_bytes(x.um_2pt5);
    lemma_be16_of_bytes(x.um_5);
    lemma_be16_of_bytes(x.um_10);
}

/// Two frames that agree on the bytes `0x0a..0x1c` decode to the same
/// reading, whatever they hold elsewhere; and each field of that reading is
/// the big-endian pair at its fixed offset.
pub proof fn lemma_pmsa003i_only_fields(a: [u8; 32], b: [u8; 32])
    requires
        forall|i: int| 0x0a <= i < 0x1c ==> a@[i] == b@[i],
    ensures
        pmsa003i_of(a@) == pmsa003i_of(b@),
        forall|k: int|
            0 <= k < 9 ==> #[trigger] pmsa003i_of(a@).fields()[k] as int == pmsa003i_field(a@, k),
{
    assert(forall|k: int| 0 <= k < 9 ==> pmsa003i_field(a@, k) == #[trigger] pmsa003i_field(b@, k));
    assert forall|k: int| 0 <= k < 9 implies #[trigger] pmsa003i_of(a@).fields()[k] as int == pmsa003i_field(a@, k) by {
        assert(0 <= pmsa003i_field(a@, k) < 0x1_0000);
    }
}

} // verus!

use airsense::pmsa003i::{encode_pmsa003i, parse_pmsa003i, Pmsa003iReading};

fn sample() -> Pmsa003iReading {
    Pmsa003iReading {
        pm1: 5,
        pm25: 16,
        pm10: 0x0102,
        um_pt3: 0xffff,
        um_pt5: 300,
        um_1: 0,
        um_2pt5: 7,
        um_5: 0x8000,
        um_10: 1,
    }
}

#[test]
fn pm1_and_pm25_from_offsets() {
    let mut f = [0u8; 32];
    f[0x0a] = 0x00;
    f[0x0b] = 0x05;
    f[0x0c] = 0x00;
    f[0x0d] = 0x10;
    let r = parse_pmsa003i(f);
    assert_eq!(r.pm1, 5);
    assert_eq!(r.pm25, 16);
    assert_eq!(r.pm10, 0);
}

#[test]
fn every_field_at_its_offset() {
    let mut f = [0u8; 32];
    for i in 0..32 {
        f[i] = i as u8;
    }
    let r = parse_pmsa003i(f);
    assert_eq!(r.pm1, 0x0a0b);
    assert_eq!(r.pm25, 0x0c0d);
    assert_eq!(r.pm10, 0x0e0f);
    assert_eq!(r.um_pt3, 0x1011);
    assert_eq!(r.um_pt5, 0x1213);
    assert_eq!(r.um_1, 0x1415);
    assert_eq!(r.um_2pt5, 0x1617);
    assert_eq!(r.um_5, 0x1819);
    assert_eq!(r.um_10, 0x1a1b);
}

#[test]
fn bytes_outside_fields_are_ignored() {
    let mut a = encode_pmsa003i(sample());
    let base = parse_pmsa003i(a);
    a[0] = 0x42;
    a[1] = 0x4d;
    a[0x09] = 0xaa;
    a[0x1c] = 0x55;
    a[0x1f] = 0xff;
    assert_eq!(parse_pmsa003i(a), base);
}

#[test]
fn pmsa003i_round_trip() {
    let f = encode_pmsa003i(sample());
    assert_eq!(f[0x0a], 0x00);
    assert_eq!(f[0x0b], 0x05);
    assert_eq!(f[0x0e], 0x01);
    assert_eq!(f[0x0f], 0x02);
    assert_eq!(f[0], 0);
    assert_eq!(parse_pmsa003i(f), sample());
}

#[test]
fn all_ones_frame_decodes_to_max() {
    let r = parse_pmsa003i([0xff; 32]);
    assert_eq!(r.pm1, u16::MAX);
    assert_eq!(r.um_10, u16::MAX);
}

use airsense::scd30::{
    encode_scd30, parse_scd30, scd30_is_ready, scd30_read_command, scd30_start_command,
    scd30_status_command, Scd30Words, SCD30_ADDRESS,
};

fn frame_of(co2: f32, temp_c: f32, hum: f32) -> [u8; 18] {
    let c = co2.to_be_bytes();
    let t = temp_c.to_be_bytes();
    let h = hum.to_be_bytes();
    [
        c[0], c[1], 0x11, c[2], c[3], 0x22, t[0], t[1], 0x33, t[2], t[3], 0x44, h[0], h[1], 0x55,
        h[2], h[3], 0x66,
    ]
}

#[test]
fn decodes_known_floats() {
    let w = parse_scd30(frame_of(400.0, 25.0, 50.0));
    assert_eq!(f32::from_bits(w.co2), 400.0);
    assert_eq!(f32::from_bits(w.temp_c), 25.0);
    assert_eq!(f32::from_bits(w.humidity), 50.0);
    assert_eq!(w.co2, 0x43c8_0000);
}

#[test]
fn integrity_bytes_are_ignored() {
    let a = frame_of(412.5, 21.25, 38.0);
    let mut b = a;
    for i in [2usize, 5, 8, 11, 14, 17] {
        b[i] = !b[i];
    }
    assert_eq!(parse_scd30(a), parse_scd30(b));
}

#[test]
fn payload_byte_changes_reading() {
    let a = frame_of(412.5, 21.25, 38.0);
    let mut b = a;
    b[4] ^= 1;
    assert_ne!(parse_scd30(a), parse_scd30(b));
}

#[test]
fn scd30_round_trip() {
    let w = Scd30Words { co2: 0x0102_0304, temp_c: 0xa0b0_c0d0, humidity: 0xffff_0000 };
    let f = encode_scd30(w);
    assert_eq!(f, [1, 2, 0, 3, 4, 0, 0xa0, 0xb0, 0, 0xc0, 0xd0, 0, 0xff, 0xff, 0, 0, 0, 0]);
    assert_eq!(parse_scd30(f), w);
}

#[test]
fn ready_only_on_flag_one() {
    assert!(scd30_is_ready([0x00, 0x01]));
    assert!(scd30_is_ready([0xff, 0x01]));
    assert!(!scd30_is_ready([0x00, 0x00]));
    assert!(!scd30_is_ready([0x01, 0x00]));
    assert!(!scd30_is_ready([0x00, 0x02]));
    assert!(!scd30_is_ready([0x00, 0xff]));
}

#[test]
fn commands_and_address() {
    assert_eq!(SCD30_ADDRESS, 0x61);
    assert_eq!(scd30_start_command(), [0x00, 0x10, 0x00, 0x00, 0x81]);
    assert_eq!(scd30_status_command(), [0x02, 0x02]);
    assert_eq!(scd30_read_command(), [0x03, 0x00]);
}

use rost::pc_speaker::{speaker_gate_off, speaker_gate_on, tone_divisor, tone_divisor_bytes};

#[test]
fn divisor_for_one_kilohertz() {
    assert_eq!(tone_divisor(1000), 1193);
    assert_eq!(tone_divisor_bytes(1000), (169, 4));
}

#[test]
fn divisor_for_concert_pitch() {
    assert_eq!(tone_divisor(440), 2711);
    assert_eq!(tone_divisor_bytes(440), ((2711 % 256) as u8, (2711 / 256) as u8));
}

#[test]
fn lowest_frequency_still_fits_two_bytes() {
    assert_eq!(tone_divisor(19), 62798);
    assert!(tone_divisor(19) <= 0xffff);
    assert_eq!(tone_divisor_bytes(19), ((62798 % 256) as u8, (62798 / 256) as u8));
}

#[test]
fn gate_on_sets_the_two_low_bits_once() {
    assert_eq!(speaker_gate_on(0x30), Some(0x33));
    assert_eq!(speaker_gate_on(0x00), Some(0x03));
    assert_eq!(speaker_gate_on(0x01), Some(0x03));
    assert_eq!(speaker_gate_on(0x33), None);
    assert_eq!(speaker_gate_on(0xff), None);
}

#[test]
fn gate_off_clears_only_the_two_low_bits() {
    assert_eq!(speaker_gate_off(0x33), 0x30);
    assert_eq!(speaker_gate_off(0xff), 0xfc);
    assert_eq!(speaker_gate_off(0x00), 0x00);
}

use rost::io::{DecodedKey, InputBuffer};

#[test]
fn write_unicode_lands_in_slot_zero() {
    let mut buf = InputBuffer::new();
    buf.write_key(DecodedKey::Unicode('e'));
    assert_eq!(buf.buffer[0], DecodedKey::Unicode('e'));
}

#[test]
fn write_rawkey_lands_in_slot_zero() {
    let mut buf = InputBuffer::new();
    buf.write_key(DecodedKey::RawKey(0x4c));
    assert_eq!(buf.buffer[0], DecodedKey::RawKey(0x4c));
}

#[test]
fn write_key_shifts_older_entries_back() {
    let mut buf = InputBuffer::new();
    buf.write_key(DecodedKey::Unicode('a'));
    buf.write_key(DecodedKey::Unicode('b'));
    buf.write_key(DecodedKey::Unicode('c'));
    assert_eq!(buf.buffer[0], DecodedKey::Unicode('c'));
    assert_eq!(buf.buffer[1], DecodedKey::Unicode('b'));
    assert_eq!(buf.buffer[2], DecodedKey::Unicode('a'));
    assert_eq!(buf.buffer[3], DecodedKey::Unicode('0'));
    assert_eq!(buf.unread_char_count, 3);
}

#[test]
fn count_matches_writes_below_capacity() {
    let mut buf = InputBuffer::new();
    for i in 0..200u32 {
        let c = char::from_u32('a' as u32 + i % 26).unwrap();
        buf.write_key(DecodedKey::Unicode(c));
        assert_eq!(buf.buffer[0], DecodedKey::Unicode(c));
    }
    assert_eq!(buf.unread_char_count, 200);
}

#[test]
fn count_saturates_and_newest_events_are_kept_in_order() {
    let mut buf = InputBuffer::new();
    for i in 0..300usize {
        buf.write_key(DecodedKey::RawKey((i % 200) as u8));
    }
    assert_eq!(buf.unread_char_count, 255);
    for i in 0..255usize {
        assert_eq!(buf.buffer[i], DecodedKey::RawKey(((299 - i) % 200) as u8));
    }
}

#[test]
fn drain_reports_count_and_contents() {
    let mut buf = InputBuffer::new();
    buf.write_key(DecodedKey::Unicode('x'));
    buf.write_key(DecodedKey::Unicode('y'));
    let drained = buf.read();
    assert_eq!(drained.0, 2);
    assert_eq!(drained.1[0], DecodedKey::Unicode('y'));
    assert_eq!(drained.1[1], DecodedKey::Unicode('x'));
}

#[test]
fn second_drain_in_a_row_reports_zero_unread() {
    let mut buf = InputBuffer::new();
    buf.write_key(DecodedKey::Unicode('x'));
    buf.write_key(DecodedKey::Unicode('y'));
    let first = buf.read();
    assert_eq!(first.0, 2);
    let second = buf.read();
    assert_eq!(second.0, 0);
    assert_eq!(second.1[0], DecodedKey::Unicode('y'));
}

#[test]
fn drain_then_write_counts_from_zero_again() {
    let mut buf = InputBuffer::new();
    for _ in 0..10 {
        buf.write_key(DecodedKey::Unicode('k'));
    }
    buf.read();
    buf.write_key(DecodedKey::Unicode('z'));
    assert_eq!(buf.unread_char_count, 1);
    assert_eq!(buf.buffer[0], DecodedKey::Unicode('z'));
    assert_eq!(buf.buffer[1], DecodedKey::Unicode('k'));
}

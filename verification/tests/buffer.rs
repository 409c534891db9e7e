use live_reload::StateBuffer;

#[test]
fn new_buffer_is_empty() {
    let b = StateBuffer::new();
    assert_eq!(b.len(), 0);
}

#[test]
fn size_hint_rounds_up_to_words() {
    let mut b = StateBuffer::new();
    b.size_hint(3);
    assert_eq!(b.len(), 8);
    b.size_hint(8);
    assert_eq!(b.len(), 8);
    b.size_hint(9);
    assert_eq!(b.len(), 16);
    b.size_hint(0);
    assert_eq!(b.len(), 0);
}

#[test]
fn size_hint_zero_fills_new_bytes() {
    let mut b = StateBuffer::new();
    b.size_hint(16);
    for i in 0..16 {
        assert_eq!(b.byte(i), 0);
    }
}

#[test]
fn growth_preserves_prefix_and_zero_fills() {
    let mut b = StateBuffer::new();
    b.size_hint(8);
    for i in 0..8 {
        b.set_byte(i, (i as u8) + 1);
    }
    b.size_hint(16);
    assert_eq!(b.len(), 16);
    for i in 0..8 {
        assert_eq!(b.byte(i), (i as u8) + 1);
    }
    for i in 8..16 {
        assert_eq!(b.byte(i), 0);
    }
}

#[test]
fn truncation_discards_tail_for_good() {
    let mut b = StateBuffer::new();
    b.size_hint(16);
    for i in 0..16 {
        b.set_byte(i, 0xAA);
    }
    b.size_hint(8);
    assert_eq!(b.len(), 8);
    for i in 0..8 {
        assert_eq!(b.byte(i), 0xAA);
    }
    b.size_hint(16);
    for i in 0..8 {
        assert_eq!(b.byte(i), 0xAA);
    }
    for i in 8..16 {
        assert_eq!(b.byte(i), 0);
    }
}

#[test]
fn word_round_trip() {
    let mut b = StateBuffer::new();
    b.size_hint(16);
    b.write_word(0, 12345678901234567890);
    b.write_word(8, 7);
    assert_eq!(b.read_word(0), 12345678901234567890);
    assert_eq!(b.read_word(8), 7);
}

#[test]
fn word_is_stored_little_endian() {
    let mut b = StateBuffer::new();
    b.size_hint(8);
    b.write_word(0, 0x0102030405060708);
    assert_eq!(b.byte(0), 0x08);
    assert_eq!(b.byte(1), 0x07);
    assert_eq!(b.byte(2), 0x06);
    assert_eq!(b.byte(3), 0x05);
    assert_eq!(b.byte(4), 0x04);
    assert_eq!(b.byte(5), 0x03);
    assert_eq!(b.byte(6), 0x02);
    assert_eq!(b.byte(7), 0x01);
    assert_eq!(b.read_word(0), 0x0102030405060708);
}

#[test]
fn zeroed_word_reads_zero() {
    let mut b = StateBuffer::new();
    b.size_hint(8);
    assert_eq!(b.read_word(0), 0);
    b.write_word(0, u64::MAX);
    assert_eq!(b.read_word(0), u64::MAX);
}

#[test]
fn write_word_leaves_other_bytes_alone() {
    let mut b = StateBuffer::new();
    b.size_hint(24);
    for i in 0..24 {
        b.set_byte(i, 0x11);
    }
    b.write_word(8, 0);
    for i in 0..8 {
        assert_eq!(b.byte(i), 0x11);
    }
    for i in 8..16 {
        assert_eq!(b.byte(i), 0);
    }
    for i in 16..24 {
        assert_eq!(b.byte(i), 0x11);
    }
}

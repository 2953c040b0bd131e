use nrf24l01_commands::bits::{get_field, get_flag, set_field, set_flag};

#[test]
fn get_field_shifts_and_cuts() {
    assert_eq!(get_field(0b1010_0110, 0, 8), 0b1010_0110);
    assert_eq!(get_field(0b1010_0110, 1, 3), 0b011);
    assert_eq!(get_field(0b1010_0110, 4, 4), 0b1010);
    assert_eq!(get_field(0b1010_0110, 7, 1), 1);
    assert_eq!(get_field(0b1010_0110, 0, 1), 0);
    assert_eq!(get_field(0b1111_1111, 2, 5), 0b1_1111);
}

#[test]
fn set_field_replaces_the_span_only() {
    assert_eq!(set_field(0b0000_0000, 1, 2, 0b11), 0b0000_0110);
    assert_eq!(set_field(0b1111_1111, 1, 2, 0b00), 0b1111_1001);
    assert_eq!(set_field(0b1010_0101, 4, 4, 0b0110), 0b0110_0101);
    assert_eq!(set_field(0b1010_0101, 0, 8, 0x3C), 0x3C);
    assert_eq!(set_field(0b0000_0010, 0, 7, 85), 85);
}

#[test]
fn set_field_drops_the_bits_that_do_not_fit() {
    assert_eq!(set_field(0b0000_0000, 0, 4, 0b1111_0011), 0b0000_0011);
    assert_eq!(set_field(0b1000_0000, 0, 7, 200), 0b1000_0000 | (200 & 0x7F));
    assert_eq!(set_field(0b0000_0000, 6, 2, 0b111), 0b1100_0000);
}

#[test]
fn flags_read_and_write_one_bit() {
    for offset in 0..8u8 {
        assert!(get_flag(1 << offset, offset));
        assert!(!get_flag(!(1 << offset), offset));
        assert_eq!(set_flag(0, offset, true), 1 << offset);
        assert_eq!(set_flag(0xFF, offset, false), !(1 << offset));
        assert_eq!(set_flag(0xFF, offset, true), 0xFF);
        assert_eq!(set_flag(0, offset, false), 0);
    }
}

#[test]
fn a_written_field_reads_back() {
    for offset in 0..8u8 {
        for width in 1..=(8 - offset) {
            let mask = 0xFFu8 >> (8 - width);
            for raw in [0x00u8, 0xFF, 0xA5, 0x3C] {
                for value in 0..=255u8 {
                    let replaced = set_field(raw, offset, width, value);
                    assert_eq!(get_field(replaced, offset, width), value & mask);
                }
            }
        }
    }
}

#[test]
fn a_written_field_leaves_the_other_bits() {
    for offset in 0..8u8 {
        for width in 1..=(8 - offset) {
            let span = (0xFFu8 >> (8 - width)) << offset;
            for raw in [0x00u8, 0xFF, 0xA5, 0x3C] {
                for value in [0x00u8, 0xFF, 0x5A, 0x01] {
                    let replaced = set_field(raw, offset, width, value);
                    assert_eq!(replaced & !span, raw & !span);
                }
            }
        }
    }
}

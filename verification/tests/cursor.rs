use mov_decoder::bits::BitCursor;
use mov_decoder::mode::Mode;
use mov_decoder::register::Register;

#[test]
fn cursor_covers_every_bit_of_the_buffer() {
    let bytes = [0xA5u8, 0x0F];
    let cursor = BitCursor::new(&bytes).unwrap();
    assert_eq!(cursor.len(), 16);
    let empty: [u8; 0] = [];
    assert_eq!(BitCursor::new(&empty).unwrap().len(), 0);
}

#[test]
fn flags_are_read_most_significant_bit_first() {
    let bytes = [0xA5u8, 0x0F];
    let cursor = BitCursor::new(&bytes).unwrap();
    let expected = [
        true, false, true, false, false, true, false, true, false, false, false, false, true,
        true, true, true,
    ];
    for i in 0..16 {
        assert_eq!(cursor.flag(i), expected[i], "bit {}", i);
    }
}

#[test]
fn fields_are_unsigned_numbers_of_any_width() {
    let bytes = [0xA5u8, 0x0F];
    let cursor = BitCursor::new(&bytes).unwrap();
    assert_eq!(cursor.field(0, 8), 0xA5);
    assert_eq!(cursor.field(8, 8), 0x0F);
    assert_eq!(cursor.field(0, 1), 1);
    assert_eq!(cursor.field(1, 1), 0);
    assert_eq!(cursor.field(2, 3), 0b100);
    assert_eq!(cursor.field(0, 16), 0xA50F);
    assert_eq!(cursor.field(5, 6), 0b101000);
}

#[test]
fn fields_may_start_inside_a_byte_and_span_three() {
    let bytes = [0b1111_0010u8, 0x01, 0x8F];
    let cursor = BitCursor::new(&bytes).unwrap();
    assert_eq!(cursor.field(4, 16), 0x2018);
    assert_eq!(cursor.byte(4), 0x20);
    assert_eq!(cursor.byte(12), 0x18);
}

#[test]
fn bytes_are_read_back_as_laid_down() {
    let bytes = [0x00u8, 0xFF, 0x80, 0x01, 0x5A];
    let cursor = BitCursor::new(&bytes).unwrap();
    for i in 0..bytes.len() {
        assert_eq!(cursor.byte(8 * i), bytes[i]);
    }
}

#[test]
fn window_holds_the_bits_of_its_range() {
    let bytes = [0x12u8, 0x34, 0x56];
    let cursor = BitCursor::new(&bytes).unwrap();
    let window = cursor.window(8, 24);
    assert_eq!(window.len(), 16);
    assert_eq!(window.byte(0), 0x34);
    assert_eq!(window.byte(8), 0x56);
    let inner = window.window(4, 12);
    assert_eq!(inner.len(), 8);
    assert_eq!(inner.byte(0), 0x45);
    assert_eq!(cursor.window(24, 24).len(), 0);
    assert_eq!(cursor.window(0, 24).len(), 24);
}

#[test]
fn mode_follows_the_two_bit_table() {
    assert_eq!(Mode::from(&[false, false]), Mode::Memory);
    assert_eq!(Mode::from(&[false, true]), Mode::Displace8Bits);
    assert_eq!(Mode::from(&[true, false]), Mode::Displace16Bits);
    assert_eq!(Mode::from(&[true, true]), Mode::Register);
}

#[test]
fn register_table_names_all_sixteen() {
    let narrow = ["al", "cl", "dl", "bl", "ah", "ch", "dh", "bh"];
    let wide = ["ax", "cx", "dx", "bx", "sp", "bp", "si", "di"];
    for code in 0..8usize {
        let bits = [code & 4 != 0, code & 2 != 0, code & 1 != 0];
        assert_eq!(Register::from_bits(&bits, false).name(), narrow[code]);
        assert_eq!(Register::from_bits(&bits, true).name(), wide[code]);
    }
}

#[test]
fn register_table_is_injective_within_each_width() {
    for wide in [false, true] {
        for a in 0..8usize {
            for b in 0..8usize {
                let ra = Register::from_bits(&[a & 4 != 0, a & 2 != 0, a & 1 != 0], wide);
                let rb = Register::from_bits(&[b & 4 != 0, b & 2 != 0, b & 1 != 0], wide);
                assert_eq!(ra == rb, a == b);
                assert_eq!(ra.name() == rb.name(), a == b);
            }
        }
    }
}

#[test]
fn register_code_picks_the_expected_variants() {
    assert_eq!(Register::from_bits(&[false, true, true], true), Register::BX);
    assert_eq!(Register::from_bits(&[false, false, false], true), Register::AX);
    assert_eq!(Register::from_bits(&[true, false, false], false), Register::AH);
    assert_eq!(Register::from_bits(&[true, true, true], false), Register::BH);
    assert_eq!(Register::from_bits(&[true, false, false], true), Register::SP);
}

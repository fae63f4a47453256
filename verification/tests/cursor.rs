use wasm_interpreter::cursor::Cursor;
use wasm_interpreter::error::{DecodeError, ErrorKind};

fn starved(offset: usize) -> DecodeError {
    DecodeError { kind: ErrorKind::MalformedStream, offset, context: Vec::new() }
}

#[test]
fn new_cursor_starts_at_zero() {
    let bytes = [1u8, 2, 3];
    assert_eq!(Cursor::new(&bytes).position(), 0);
}

#[test]
fn read_byte_advances_by_one() {
    let bytes = [0xAAu8, 0xBB];
    let mut cursor = Cursor::new(&bytes);
    assert_eq!(cursor.read_byte(), Ok(0xAA));
    assert_eq!(cursor.position(), 1);
    assert_eq!(cursor.read_byte(), Ok(0xBB));
    assert_eq!(cursor.position(), 2);
}

#[test]
fn read_byte_at_the_end_fails_and_stays() {
    let bytes = [0xAAu8];
    let mut cursor = Cursor::new(&bytes);
    cursor.read_byte().unwrap();
    assert_eq!(cursor.read_byte(), Err(starved(1)));
    assert_eq!(cursor.position(), 1);
    assert_eq!(cursor.read_byte(), Err(starved(1)));
}

#[test]
fn read_byte_of_nothing_fails_at_zero() {
    let bytes: [u8; 0] = [];
    let mut cursor = Cursor::new(&bytes);
    assert_eq!(cursor.read_byte(), Err(starved(0)));
    assert_eq!(cursor.position(), 0);
}

#[test]
fn read_bytes_gives_exactly_that_many() {
    let bytes = [1u8, 2, 3, 4, 5];
    let mut cursor = Cursor::new(&bytes);
    cursor.read_byte().unwrap();
    assert_eq!(cursor.read_bytes(3), Ok(vec![2, 3, 4]));
    assert_eq!(cursor.position(), 4);
    assert_eq!(cursor.read_bytes(0), Ok(vec![]));
    assert_eq!(cursor.position(), 4);
}

#[test]
fn read_bytes_past_the_end_fails_and_stays() {
    let bytes = [1u8, 2, 3];
    let mut cursor = Cursor::new(&bytes);
    cursor.read_byte().unwrap();
    assert_eq!(cursor.read_bytes(3), Err(starved(1)));
    assert_eq!(cursor.position(), 1);
    assert_eq!(cursor.read_bytes(usize::MAX), Err(starved(1)));
    assert_eq!(cursor.read_bytes(2), Ok(vec![2, 3]));
}

#[test]
fn read_le_u32_is_little_endian() {
    let bytes = [0x78u8, 0x56, 0x34, 0x12, 0xFF];
    let mut cursor = Cursor::new(&bytes);
    assert_eq!(cursor.read_le_u32(), Ok(0x1234_5678));
    assert_eq!(cursor.position(), 4);
    assert_eq!(cursor.read_le_u32(), Err(starved(4)));
    assert_eq!(cursor.position(), 4);
}

#[test]
fn read_le_u32_of_all_ones() {
    let bytes = [0xFFu8; 4];
    assert_eq!(Cursor::new(&bytes).read_le_u32(), Ok(u32::MAX));
}

#[test]
fn read_le_f32_gives_the_bit_pattern() {
    let bytes = 1.5f32.to_le_bytes();
    let mut cursor = Cursor::new(&bytes);
    let bits = cursor.read_le_f32().unwrap();
    assert_eq!(f32::from_bits(bits), 1.5f32);
    assert_eq!(bits, 0x3FC0_0000);
    assert_eq!(cursor.position(), 4);
}

#[test]
fn read_le_f64_gives_the_bit_pattern() {
    let bytes = (-2.25f64).to_le_bytes();
    let mut cursor = Cursor::new(&bytes);
    let bits = cursor.read_le_f64().unwrap();
    assert_eq!(f64::from_bits(bits), -2.25f64);
    assert_eq!(bits, 0xC002_0000_0000_0000);
    assert_eq!(cursor.position(), 8);
}

#[test]
fn read_le_f64_needs_eight_bytes() {
    let bytes = [0u8; 7];
    let mut cursor = Cursor::new(&bytes);
    assert_eq!(cursor.read_le_f64(), Err(starved(0)));
    assert_eq!(cursor.position(), 0);
}

#[test]
fn read_le_f64_of_mixed_bytes() {
    let bytes = [0x01u8, 0x23, 0x45, 0x67, 0x89, 0xAB, 0xCD, 0xEF];
    assert_eq!(Cursor::new(&bytes).read_le_f64(), Ok(0xEFCD_AB89_6745_2301));
}

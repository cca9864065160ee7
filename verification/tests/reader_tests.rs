use chariot_formats::reader::{DecodeError, Reader};

#[test]
fn read_u8_advances_one_byte() {
    let mut r = Reader::new(vec![0xAB, 0xCD]);
    assert_eq!(r.read_u8().unwrap(), 0xAB);
    assert_eq!(r.position(), 1);
    assert_eq!(r.read_u8().unwrap(), 0xCD);
    assert_eq!(r.position(), 2);
}

#[test]
fn read_u16_is_little_endian() {
    let mut r = Reader::new(vec![0x34, 0x12]);
    assert_eq!(r.read_u16().unwrap(), 0x1234);
    assert_eq!(r.position(), 2);
}

#[test]
fn read_u32_is_little_endian() {
    let mut r = Reader::new(vec![0x78, 0x56, 0x34, 0x12]);
    assert_eq!(r.read_u32().unwrap(), 0x12345678);
    assert_eq!(r.position(), 4);
}

#[test]
fn read_i8_sign_interprets() {
    let mut r = Reader::new(vec![0xFF, 0x7F]);
    assert_eq!(r.read_i8().unwrap(), -1);
    assert_eq!(r.read_i8().unwrap(), 127);
}

#[test]
fn read_i16_sign_interprets() {
    let mut r = Reader::new((-2i16).to_le_bytes().to_vec());
    assert_eq!(r.read_i16().unwrap(), -2);
}

#[test]
fn read_i32_sign_interprets() {
    let mut r = Reader::new((-123456i32).to_le_bytes().to_vec());
    assert_eq!(r.read_i32().unwrap(), -123456);
}

#[test]
fn reads_past_end_fail_with_truncated_and_keep_cursor() {
    let mut r = Reader::new(vec![0x01]);
    assert_eq!(r.read_u32(), Err(DecodeError::Truncated));
    assert_eq!(r.position(), 0);
    assert_eq!(r.read_u8().unwrap(), 1);
    assert_eq!(r.read_u8(), Err(DecodeError::Truncated));
    assert_eq!(r.position(), 1);
}

#[test]
fn skip_advances_exactly_and_fails_past_end() {
    let mut r = Reader::new(vec![0; 10]);
    r.skip(7).unwrap();
    assert_eq!(r.position(), 7);
    assert_eq!(r.skip(4), Err(DecodeError::Truncated));
    assert_eq!(r.position(), 7);
    r.skip(3).unwrap();
    assert_eq!(r.position(), 10);
}

#[test]
fn read_bytes_returns_exact_slice() {
    let mut r = Reader::new(vec![1, 2, 3, 4, 5]);
    r.skip(1).unwrap();
    assert_eq!(r.read_bytes(3).unwrap(), vec![2, 3, 4]);
    assert_eq!(r.position(), 4);
}

#[test]
fn read_sized_str_trims_at_first_nul_but_consumes_all() {
    let mut r = Reader::new(vec![b'a', b'b', 0, b'z', b'!', 9]);
    assert_eq!(r.read_sized_str(5).unwrap(), vec![b'a', b'b']);
    assert_eq!(r.position(), 5);
    assert_eq!(r.read_u8().unwrap(), 9);
}

#[test]
fn read_sized_str_without_nul_keeps_everything() {
    let mut r = Reader::new(vec![b'x', b'y', b'z']);
    assert_eq!(r.read_sized_str(3).unwrap(), vec![b'x', b'y', b'z']);
}

#[test]
fn read_sized_str_of_zero_width_is_empty() {
    let mut r = Reader::new(vec![5]);
    assert_eq!(r.read_sized_str(0).unwrap(), Vec::<u8>::new());
    assert_eq!(r.position(), 0);
}

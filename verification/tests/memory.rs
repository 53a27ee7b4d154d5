use wai_bindgen::memory::{load, load_many, load_string, store, store_many, store_string};
use wai_bindgen::rt::RuntimeError;

#[test]
fn loads_and_stores_are_little_endian() {
    let mut mem = vec![0u8; 16];
    assert_eq!(store(&mut mem, 4, 0, 0x1122_3344u32), Ok(()));
    assert_eq!(&mem[4..8], &[0x44, 0x33, 0x22, 0x11]);
    assert_eq!(load::<u32>(&mem, 4, 0), Ok(0x1122_3344));
    assert_eq!(load::<u16>(&mem, 4, 1), Ok(0x2233));
    assert_eq!(load::<u8>(&mem, 0, 7), Ok(0x11));
    assert_eq!(store(&mut mem, 8, 0, -2i64), Ok(()));
    assert_eq!(&mem[8..16], &[0xfe, 0xff, 0xff, 0xff, 0xff, 0xff, 0xff, 0xff]);
    assert_eq!(load::<i64>(&mem, 8, 0), Ok(-2));
    assert_eq!(load::<u64>(&mem, 8, 0), Ok(u64::MAX - 1));
    assert_eq!(load::<i32>(&mem, 8, 4), Ok(-1));
    assert_eq!(store(&mut mem, 0, 0, 0xabcdu16), Ok(()));
    assert_eq!(&mem[0..4], &[0xcd, 0xab, 0, 0]);
}

#[test]
fn access_beyond_the_memory_is_a_bounds_error() {
    let mut mem = vec![7u8; 8];
    assert_eq!(load::<u32>(&mem, 4, 0), Ok(0x0707_0707));
    assert_eq!(load::<u32>(&mem, 5, 0), Err(RuntimeError::OutOfBounds));
    assert_eq!(load::<u32>(&mem, 4, 1), Err(RuntimeError::OutOfBounds));
    assert_eq!(load::<u8>(&mem, 8, 0), Err(RuntimeError::OutOfBounds));
    assert_eq!(load::<u8>(&mem, 7, 0), Ok(7));
    assert_eq!(load::<u8>(&mem, -1, 0), Err(RuntimeError::OutOfBounds));
    assert_eq!(load::<u8>(&mem, 0, -1), Err(RuntimeError::OutOfBounds));
    assert_eq!(load::<u64>(&mem, 0, 0), Ok(0x0707_0707_0707_0707));
    assert_eq!(load::<u64>(&mem, 0, 1), Err(RuntimeError::OutOfBounds));
    assert_eq!(
        store(&mut mem, 6, 0, 1u32),
        Err(RuntimeError::OutOfBounds)
    );
    assert_eq!(mem, vec![7u8; 8]);
    assert_eq!(
        store(&mut mem, i32::MAX, i32::MAX, 1u8),
        Err(RuntimeError::OutOfBounds)
    );
    assert_eq!(
        store_many(&mut mem, 4, &vec![1u16, 2, 3]),
        Err(RuntimeError::OutOfBounds)
    );
    assert_eq!(mem, vec![7u8; 8]);
    assert_eq!(load_many::<u16>(&mem, 4, 3), Err(RuntimeError::OutOfBounds));
    assert_eq!(load_many::<u8>(&mem, 0, -1), Err(RuntimeError::OutOfBounds));
    assert_eq!(load_string(&mem, 1, 8), Err(RuntimeError::OutOfBounds));
    assert_eq!(
        store_string(&mut mem, 7, "ab"),
        Err(RuntimeError::OutOfBounds)
    );
    assert_eq!(mem, vec![7u8; 8]);
    let empty: Vec<u8> = Vec::new();
    assert_eq!(load::<u8>(&empty, 0, 0), Err(RuntimeError::OutOfBounds));
    assert_eq!(load_many::<u64>(&empty, 0, 0), Ok(vec![]));
}

#[test]
fn a_list_comes_back_as_it_went() {
    let mut mem = vec![0xeeu8; 64];
    let list: Vec<u32> = vec![1, 0xffff_ffff, 0x0102_0304, 0];
    assert_eq!(store_many(&mut mem, 8, &list), Ok(()));
    assert_eq!(&mem[..8], &[0xee; 8]);
    assert_eq!(&mem[8..12], &[1, 0, 0, 0]);
    assert_eq!(&mem[16..20], &[4, 3, 2, 1]);
    assert_eq!(&mem[24..], &[0xee; 40]);
    assert_eq!(load_many::<u32>(&mem, 8, list.len() as i32), Ok(list));
    let bytes: Vec<u8> = (0..=255).collect();
    let mut mem = vec![0u8; 256];
    assert_eq!(store_many(&mut mem, 0, &bytes), Ok(()));
    assert_eq!(load_many::<u8>(&mem, 0, 256), Ok(bytes));
    let wide: Vec<i64> = vec![i64::MIN, -1, 0, 1, i64::MAX];
    let mut mem = vec![0u8; 41];
    assert_eq!(store_many(&mut mem, 1, &wide), Ok(()));
    assert_eq!(load_many::<i64>(&mem, 1, 5), Ok(wide));
    let none: Vec<u16> = Vec::new();
    let mut mem = vec![3u8; 4];
    assert_eq!(store_many(&mut mem, 4, &none), Ok(()));
    assert_eq!(mem, vec![3u8; 4]);
    assert_eq!(load_many::<u16>(&mem, 4, 0), Ok(none));
}

#[test]
fn a_string_comes_back_as_it_went() {
    let mut mem = vec![0u8; 32];
    let text = "h\u{e9}llo \u{1F600}";
    assert_eq!(store_string(&mut mem, 3, text), Ok(text.len()));
    assert_eq!(&mem[3..3 + text.len()], text.as_bytes());
    assert_eq!(
        load_string(&mem, 3, text.len() as i32),
        Ok(text.to_string())
    );
    assert_eq!(load_string(&mem, 3, 0), Ok(String::new()));
    assert_eq!(load_string(&mem, 3, 3), Ok("h\u{e9}".to_string()));
    assert_eq!(load_string(&mem, 3, 2), Err(RuntimeError::InvalidUtf8));
    mem[0] = 0xff;
    assert_eq!(load_string(&mem, 0, 1), Err(RuntimeError::InvalidUtf8));
}

#[test]
fn signed_bytes_and_halves_go_through_memory() {
    let mut mem = vec![0u8; 8];
    assert_eq!(store(&mut mem, 0, 0, -1i8), Ok(()));
    assert_eq!(store(&mut mem, 0, 1, i8::MIN), Ok(()));
    assert_eq!(store(&mut mem, 2, 0, -2i16), Ok(()));
    assert_eq!(store(&mut mem, 2, 2, i16::MIN), Ok(()));
    assert_eq!(&mem[..6], &[0xff, 0x80, 0xfe, 0xff, 0x00, 0x80]);
    assert_eq!(load::<i8>(&mem, 0, 0), Ok(-1));
    assert_eq!(load::<i8>(&mem, 1, 0), Ok(i8::MIN));
    assert_eq!(load::<i16>(&mem, 2, 0), Ok(-2));
    assert_eq!(load::<i16>(&mem, 4, 0), Ok(i16::MIN));
    assert_eq!(load::<i16>(&mem, 7, 0), Err(RuntimeError::OutOfBounds));
    let bytes: Vec<i8> = vec![i8::MIN, -1, 0, 1, i8::MAX];
    let halves: Vec<i16> = vec![i16::MIN, -1, 0, 1, i16::MAX];
    let mut mem = vec![0u8; 16];
    assert_eq!(store_many(&mut mem, 0, &bytes), Ok(()));
    assert_eq!(store_many(&mut mem, 6, &halves), Ok(()));
    assert_eq!(load_many::<i8>(&mem, 0, 5), Ok(bytes));
    assert_eq!(load_many::<i16>(&mem, 6, 5), Ok(halves.clone()));
    assert_eq!(store_many(&mut mem, 8, &halves), Err(RuntimeError::OutOfBounds));
}

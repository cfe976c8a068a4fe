use autosplitter::process::{terminator_position, CSTR_BUF_LEN, CSTR_READ_LEN};
use autosplitter::{Error, Pod, Process};

fn attached() -> Process {
    Process::attach(42).unwrap()
}

#[test]
fn attach_zero_is_not_found() {
    assert!(Process::attach(0).is_none());
}

#[test]
fn attach_keeps_handle() {
    let p = Process::attach(42).unwrap();
    assert_eq!(p.handle(), 42);
    assert_eq!(p.into_handle(), 42);
}

#[test]
fn module_zero_is_absent() {
    let p = attached();
    assert_eq!(p.module(0), None);
    assert_eq!(p.module(0x7ff6_0000_1000), Some(0x7ff6_0000_1000));
}

#[test]
fn read_into_buf_status() {
    let p = attached();
    assert_eq!(p.read_into_buf(1), Ok(()));
    assert_eq!(p.read_into_buf(0xffff_ffff), Ok(()));
    assert_eq!(p.read_into_buf(0), Err(Error::FailedRead));
}

#[test]
fn read_u32_little_endian() {
    let p = attached();
    let v: u32 = p.read(1, &[0x78, 0x56, 0x34, 0x12]).unwrap();
    assert_eq!(v, 0x1234_5678);
}

#[test]
fn read_round_trips_bytes() {
    let p = attached();
    let bytes = [1u8, 2, 3, 4, 5, 6, 7, 8];
    let v: u64 = p.read(1, &bytes).unwrap();
    assert_eq!(v.to_le_bytes(), bytes);
    let w: i64 = p.read(1, &bytes).unwrap();
    assert_eq!(w.to_le_bytes(), bytes);
    let h: u16 = p.read(1, &bytes[..2]).unwrap();
    assert_eq!(h, 0x0201);
    let b: u8 = p.read(1, &bytes[..1]).unwrap();
    assert_eq!(b, 1);
}

#[test]
fn read_signed_values() {
    let p = attached();
    let v: i32 = p.read(1, &[0xff, 0xff, 0xff, 0xff]).unwrap();
    assert_eq!(v, -1);
    let s: i16 = p.read(1, &[0x00, 0x80]).unwrap();
    assert_eq!(s, i16::MIN);
}

#[test]
fn failed_read_yields_error() {
    let p = attached();
    let r: Result<u32, Error> = p.read(0, &[1, 2, 3, 4]);
    assert_eq!(r, Err(Error::FailedRead));
    let r: Result<u8, Error> = p.read(0, &[0]);
    assert_eq!(r, Err(Error::FailedRead));
}

#[test]
fn pod_sizes() {
    assert_eq!(<u8 as Pod>::size(), 1);
    assert_eq!(<u16 as Pod>::size(), 2);
    assert_eq!(<i16 as Pod>::size(), 2);
    assert_eq!(<u32 as Pod>::size(), 4);
    assert_eq!(<i32 as Pod>::size(), 4);
    assert_eq!(<u64 as Pod>::size(), 8);
    assert_eq!(<i64 as Pod>::size(), 8);
}

#[test]
fn cstr_stops_at_terminator() {
    let p = attached();
    let mut buf = vec![0xaau8; CSTR_BUF_LEN];
    buf[..3].copy_from_slice(b"OK\0");
    assert_eq!(p.read_cstr(1, &buf), Ok("OK".to_string()));
}

#[test]
fn cstr_empty_string() {
    let p = attached();
    let buf = vec![0u8; CSTR_BUF_LEN];
    assert_eq!(p.read_cstr(1, &buf), Ok(String::new()));
}

#[test]
fn cstr_longest_string() {
    let p = attached();
    let mut buf = vec![b'a'; CSTR_BUF_LEN];
    buf[CSTR_READ_LEN - 1] = 0;
    let s = p.read_cstr(1, &buf).unwrap();
    assert_eq!(s.len(), CSTR_READ_LEN - 1);
}

#[test]
fn cstr_without_terminator_fails() {
    let p = attached();
    let mut buf = vec![b'a'; CSTR_BUF_LEN];
    buf[CSTR_READ_LEN] = 0;
    assert_eq!(p.read_cstr(1, &buf), Err(Error::Unterminated));
}

#[test]
fn cstr_failed_read() {
    let p = attached();
    let buf = vec![0u8; CSTR_BUF_LEN];
    assert_eq!(p.read_cstr(0, &buf), Err(Error::FailedRead));
}

#[test]
fn cstr_invalid_utf8_is_replaced() {
    let p = attached();
    let mut buf = vec![0u8; CSTR_BUF_LEN];
    buf[0] = b'A';
    buf[1] = 0xff;
    buf[2] = b'B';
    assert_eq!(p.read_cstr(1, &buf), Ok("A\u{FFFD}B".to_string()));
}

#[test]
fn terminator_positions() {
    assert_eq!(terminator_position(b"OK\0x"), Some(2));
    assert_eq!(terminator_position(b"\0"), Some(0));
    assert_eq!(terminator_position(b"abc"), None);
    assert_eq!(terminator_position(&[]), None);
}

#[test]
fn read_byte_array() {
    let p = attached();
    let v: [u8; 3] = p.read(1, &[9, 8, 7]).unwrap();
    assert_eq!(v, [9, 8, 7]);
    assert_eq!(<[u8; 16] as Pod>::size(), 16);
}

#[test]
fn read_i8() {
    let p = attached();
    let v: i8 = p.read(1, &[0x80]).unwrap();
    assert_eq!(v, -128);
    assert_eq!(<i8 as Pod>::size(), 1);
}

#[test]
fn read_array_of_u32() {
    let p = attached();
    let bytes = [1u8, 0, 0, 0, 0x78, 0x56, 0x34, 0x12];
    let v: [u32; 2] = p.read(1, &bytes).unwrap();
    assert_eq!(v, [1, 0x1234_5678]);
    assert_eq!(<[u32; 2] as Pod>::size(), 8);
    assert_eq!(<[[u16; 3]; 2] as Pod>::size(), 12);
}

#[test]
fn read_empty_array() {
    let p = attached();
    let v: [u64; 0] = p.read(1, &[]).unwrap();
    assert_eq!(v, []);
}

#[test]
fn read_128_bit_values() {
    let p = attached();
    let mut bytes = [0u8; 16];
    bytes[0] = 2;
    bytes[15] = 0x80;
    let u: u128 = p.read(1, &bytes).unwrap();
    assert_eq!(u, (1u128 << 127) | 2);
    let i: i128 = p.read(1, &bytes).unwrap();
    assert_eq!(i, i128::MIN + 2);
    assert_eq!(<u128 as Pod>::size(), 16);
    assert_eq!(<i128 as Pod>::size(), 16);
}

#[test]
fn zeroed_values() {
    assert_eq!(<u32 as Pod>::zeroed(), 0);
    assert_eq!(<i64 as Pod>::zeroed(), 0);
    assert_eq!(<[u16; 4] as Pod>::zeroed(), [0; 4]);
}

#[test]
fn result_alias_names_read_errors() {
    let p = attached();
    let r: autosplitter::Result<u16> = p.read(0, &[1, 2]);
    assert_eq!(r, Err(Error::FailedRead));
}

use sealevel_checks::bytes::{bytes_eq_at, read_key, read_u16_le, read_u64_le, u64_to_le_bytes, write_bytes, write_u16_le, write_u64_le};

#[test]
fn little_endian_round_trip() {
    let v = 0x0102_0304_0506_0708u64;
    assert_eq!(u64_to_le_bytes(v), v.to_le_bytes());
    assert_eq!(read_u64_le(&v.to_le_bytes(), 0), v);
    let mut data = vec![0xaa; 12];
    write_u64_le(&mut data, 2, v);
    assert_eq!(read_u64_le(&data, 2), v);
    assert_eq!((data[0], data[1], data[10], data[11]), (0xaa, 0xaa, 0xaa, 0xaa));
    write_u16_le(&mut data, 0, 0xbeef);
    assert_eq!(read_u16_le(&data, 0), 0xbeef);
}

#[test]
fn byte_windows() {
    let mut data = vec![0u8; 40];
    write_bytes(&mut data, 4, &[7; 32]);
    assert_eq!(read_key(&data, 4), [7; 32]);
    assert!(bytes_eq_at(&data, 4, &[7, 7, 7]));
    assert!(!bytes_eq_at(&data, 3, &[7, 7, 7]));
}

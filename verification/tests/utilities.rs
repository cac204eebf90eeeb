use regedit::codec::u32_from_be_bytes;
use regedit::codec::u32_from_le_bytes;
use regedit::codec::u32_to_be_bytes;
use regedit::codec::u32_to_le_bytes;
use regedit::codec::u64_from_le_bytes;
use regedit::codec::u64_to_le_bytes;
use regedit::render::bytes_to_listing;
use regedit::render::u64_to_decimal;
use regedit::text::decode_text;
use regedit::text::strip_zeros;

#[test]
fn u32_little_endian_bytes() {
    assert_eq!(u32_to_le_bytes(0x01020304), vec![4, 3, 2, 1]);
    assert_eq!(u32_from_le_bytes(&vec![4, 3, 2, 1]), 0x01020304);
    assert_eq!(u32_to_le_bytes(0), vec![0, 0, 0, 0]);
    assert_eq!(u32_to_le_bytes(u32::MAX), vec![255, 255, 255, 255]);
}

#[test]
fn u32_big_endian_bytes() {
    assert_eq!(u32_to_be_bytes(0x01020304), vec![1, 2, 3, 4]);
    assert_eq!(u32_from_be_bytes(&vec![1, 2, 3, 4]), 0x01020304);
}

#[test]
fn u64_little_endian_bytes() {
    assert_eq!(
        u64_to_le_bytes(0x0102030405060708),
        vec![8, 7, 6, 5, 4, 3, 2, 1]
    );
    assert_eq!(
        u64_from_le_bytes(&vec![8, 7, 6, 5, 4, 3, 2, 1]),
        0x0102030405060708
    );
}

#[test]
fn decimal_rendering() {
    assert_eq!(u64_to_decimal(0), "0");
    assert_eq!(u64_to_decimal(9), "9");
    assert_eq!(u64_to_decimal(10), "10");
    assert_eq!(u64_to_decimal(1234567890123), "1234567890123");
    assert_eq!(u64_to_decimal(u64::MAX), "18446744073709551615");
}

#[test]
fn byte_listing_rendering() {
    assert_eq!(bytes_to_listing(&vec![]), "[]");
    assert_eq!(bytes_to_listing(&vec![0]), "[0]");
    assert_eq!(bytes_to_listing(&vec![65, 0, 255]), "[65, 0, 255]");
}

#[test]
fn zero_stripping() {
    assert_eq!(strip_zeros(&vec![]), Vec::<u8>::new());
    assert_eq!(strip_zeros(&vec![0, 0, 0]), Vec::<u8>::new());
    assert_eq!(strip_zeros(&vec![0x41, 0x00, 0x42, 0x00]), vec![0x41, 0x42]);
}

#[test]
fn text_decoding() {
    assert_eq!(decode_text(&b"hi\0".to_vec()), Some("hi".to_string()));
    assert_eq!(decode_text(&vec![0xff, 0xfe]), None);
    // Zero bytes are stripped before validation, so a multi-byte encoding
    // interrupted by a zero byte is joined back together and decodes.
    assert_eq!(decode_text(&vec![0xc3, 0x00, 0xa9]), Some("é".to_string()));
    assert_eq!(decode_text(&vec![0xc3, 0xa9, 0x00]), Some("é".to_string()));
}

use regedit::expected_buffer_size;
use regedit::ErrorKind;
use regedit::RegistryValue;
use regedit::REG_BINARY;
use regedit::REG_DWORD;
use regedit::REG_DWORD_BIG_ENDIAN;
use regedit::REG_EXPAND_SZ;
use regedit::REG_LINK;
use regedit::REG_MULTI_SZ;
use regedit::REG_NONE;
use regedit::REG_QWORD;
use regedit::REG_SZ;

fn round_trip(v: RegistryValue) -> RegistryValue {
    let tag = v.size();
    let bytes = v.val_as_vec_u8();
    RegistryValue::new_from_value(tag, bytes).expect("decoding an encoded value must succeed")
}

#[test]
fn round_trip_binary() {
    let v = RegistryValue::Binary(vec![0, 1, 2, 254, 255, 0]);
    assert_eq!(round_trip(v), RegistryValue::Binary(vec![0, 1, 2, 254, 255, 0]));
}

#[test]
fn round_trip_none() {
    let v = RegistryValue::RegNone(vec![9, 0, 8]);
    assert_eq!(round_trip(v), RegistryValue::RegNone(vec![9, 0, 8]));
}

#[test]
fn round_trip_dword() {
    assert_eq!(round_trip(RegistryValue::Dword(0)), RegistryValue::Dword(0));
    assert_eq!(round_trip(RegistryValue::Dword(1)), RegistryValue::Dword(1));
    assert_eq!(
        round_trip(RegistryValue::Dword(u32::MAX)),
        RegistryValue::Dword(u32::MAX)
    );
    assert_eq!(
        round_trip(RegistryValue::Dword(0x12345678)),
        RegistryValue::Dword(0x12345678)
    );
}

#[test]
fn round_trip_dword_big_endian() {
    assert_eq!(
        round_trip(RegistryValue::DwordBE(0x12345678)),
        RegistryValue::DwordBE(0x12345678)
    );
    assert_eq!(
        round_trip(RegistryValue::DwordBE(u32::MAX)),
        RegistryValue::DwordBE(u32::MAX)
    );
}

#[test]
fn round_trip_qword() {
    assert_eq!(
        round_trip(RegistryValue::Qword(0x123456789abcdef0)),
        RegistryValue::Qword(0x123456789abcdef0)
    );
    assert_eq!(
        round_trip(RegistryValue::Qword(u64::MAX)),
        RegistryValue::Qword(u64::MAX)
    );
}

#[test]
fn round_trip_text_kinds() {
    let s = "Example string".to_string();
    assert_eq!(
        round_trip(RegistryValue::Sz(s.clone())),
        RegistryValue::Sz(s.clone())
    );
    assert_eq!(
        round_trip(RegistryValue::ExpandSz(s.clone())),
        RegistryValue::ExpandSz(s.clone())
    );
    assert_eq!(
        round_trip(RegistryValue::MultiSz(s.clone())),
        RegistryValue::MultiSz(s.clone())
    );
    assert_eq!(
        round_trip(RegistryValue::Link(s.clone())),
        RegistryValue::Link(s)
    );
}

#[test]
fn round_trip_text_multibyte() {
    let s = "héllo wörld \u{1F600}".to_string();
    assert_eq!(round_trip(RegistryValue::Sz(s.clone())), RegistryValue::Sz(s));
}

#[test]
fn round_trip_text_empty() {
    let s = String::new();
    assert_eq!(round_trip(RegistryValue::Sz(s.clone())), RegistryValue::Sz(s));
}

#[test]
fn round_trip_text_drops_embedded_null() {
    // Text holding a NUL is the one round-trip exception: the store's zero
    // stripping removes it, and the text comes back without it.
    let v = RegistryValue::Sz("AB\0".to_string());
    assert_eq!(round_trip(v), RegistryValue::Sz("AB".to_string()));
}

#[test]
fn text_decode_tolerates_null_termination_and_padding() {
    let mut bytes = b"Example string".to_vec();
    bytes.push(0);
    bytes.push(0);
    let v = RegistryValue::new_from_value(REG_SZ, bytes).unwrap();
    assert_eq!(v, RegistryValue::Sz("Example string".to_string()));
}

#[test]
fn scratch_buffer_is_trimmed_to_the_reported_length() {
    // The read protocol fills a 4096-byte scratch buffer; only the reported
    // length counts.
    let mut scratch = vec![0u8; 4096];
    scratch[0] = 1;
    let v = RegistryValue::new_from_scratch_buffer(REG_DWORD, scratch, 4).unwrap();
    assert_eq!(v, RegistryValue::Dword(1));

    let mut scratch = vec![0u8; 4096];
    scratch[..2].copy_from_slice(b"AB");
    let v = RegistryValue::new_from_scratch_buffer(REG_SZ, scratch, 3).unwrap();
    assert_eq!(v, RegistryValue::Sz("AB".to_string()));
}

#[test]
fn scratch_buffer_shorter_than_the_report_is_zero_padded() {
    let scratch = vec![7u8];
    let v = RegistryValue::new_from_scratch_buffer(REG_DWORD, scratch, 4).unwrap();
    assert_eq!(v, RegistryValue::Dword(7));
}

#[test]
fn fixed_width_length_mismatch() {
    for bad in [vec![], vec![1u8], vec![1, 2, 3], vec![1, 2, 3, 4, 5]] {
        let e = RegistryValue::new_from_value(REG_DWORD, bad.clone()).unwrap_err();
        assert_eq!(e.kind, ErrorKind::LengthMismatch);
        let e = RegistryValue::new_from_value(REG_DWORD_BIG_ENDIAN, bad).unwrap_err();
        assert_eq!(e.kind, ErrorKind::LengthMismatch);
    }
    for bad in [vec![], vec![1u8; 4], vec![1; 7], vec![1; 9]] {
        let e = RegistryValue::new_from_value(REG_QWORD, bad).unwrap_err();
        assert_eq!(e.kind, ErrorKind::LengthMismatch);
    }
}

#[test]
fn unrecognized_tag_always_fails() {
    for tag in [8u32, 9, 10, 12, 100, u32::MAX] {
        let e = RegistryValue::new_from_value(tag, vec![]).unwrap_err();
        assert_eq!(e.kind, ErrorKind::UnrecognizedTag);
        let e = RegistryValue::new_from_value(tag, vec![1, 2, 3, 4]).unwrap_err();
        assert_eq!(e.kind, ErrorKind::UnrecognizedTag);
    }
}

#[test]
fn text_decode_strips_zero_bytes() {
    let v = RegistryValue::new_from_value(REG_SZ, vec![0x41, 0x00, 0x42, 0x00]).unwrap();
    assert_eq!(v, RegistryValue::Sz("AB".to_string()));
}

#[test]
fn text_decode_keeps_kind_distinct() {
    let bytes = vec![0x41, 0x00];
    assert_eq!(
        RegistryValue::new_from_value(REG_EXPAND_SZ, bytes.clone()).unwrap(),
        RegistryValue::ExpandSz("A".to_string())
    );
    assert_eq!(
        RegistryValue::new_from_value(REG_MULTI_SZ, bytes.clone()).unwrap(),
        RegistryValue::MultiSz("A".to_string())
    );
    assert_eq!(
        RegistryValue::new_from_value(REG_LINK, bytes).unwrap(),
        RegistryValue::Link("A".to_string())
    );
}

#[test]
fn text_decode_rejects_invalid_utf8() {
    let e = RegistryValue::new_from_value(REG_SZ, vec![0xff, 0xfe]).unwrap_err();
    assert_eq!(e.kind, ErrorKind::Decode);
    // The zero bytes are stripped first; what remains is still invalid.
    let e = RegistryValue::new_from_value(REG_EXPAND_SZ, vec![0x00, 0xc3, 0x00]).unwrap_err();
    assert_eq!(e.kind, ErrorKind::Decode);
}

#[test]
fn dword_encoding_is_little_endian_on_this_target() {
    assert_eq!(RegistryValue::Dword(1).val_as_vec_u8(), vec![1, 0, 0, 0]);
    assert_eq!(
        RegistryValue::Dword(0x12345678).val_as_vec_u8(),
        vec![0x78, 0x56, 0x34, 0x12]
    );
}

#[test]
fn dword_big_endian_encoding() {
    assert_eq!(RegistryValue::DwordBE(1).val_as_vec_u8(), vec![0, 0, 0, 1]);
    assert_eq!(
        RegistryValue::DwordBE(0x12345678).val_as_vec_u8(),
        vec![0x12, 0x34, 0x56, 0x78]
    );
}

#[test]
fn qword_encoding_is_little_endian_on_this_target() {
    assert_eq!(
        RegistryValue::Qword(0x0102030405060708).val_as_vec_u8(),
        vec![8, 7, 6, 5, 4, 3, 2, 1]
    );
}

#[test]
fn text_encoding_is_utf8_without_terminator() {
    assert_eq!(
        RegistryValue::Sz("Example string".to_string()).val_as_vec_u8(),
        b"Example string".to_vec()
    );
    assert_eq!(
        RegistryValue::ExpandSz("é".to_string()).val_as_vec_u8(),
        vec![0xc3, 0xa9]
    );
}

#[test]
fn canonical_tags() {
    assert_eq!(RegistryValue::Binary(vec![]).size(), REG_BINARY);
    assert_eq!(RegistryValue::Dword(0).size(), REG_DWORD);
    assert_eq!(RegistryValue::DwordBE(0).size(), REG_DWORD_BIG_ENDIAN);
    assert_eq!(RegistryValue::ExpandSz(String::new()).size(), REG_EXPAND_SZ);
    assert_eq!(RegistryValue::Link(String::new()).size(), REG_LINK);
    assert_eq!(RegistryValue::MultiSz(String::new()).size(), REG_MULTI_SZ);
    assert_eq!(RegistryValue::RegNone(vec![]).size(), REG_NONE);
    assert_eq!(RegistryValue::Qword(0).size(), REG_QWORD);
    assert_eq!(RegistryValue::Sz(String::new()).size(), REG_SZ);
}

#[test]
fn expected_buffer_sizes() {
    assert_eq!(expected_buffer_size(REG_DWORD).unwrap(), 4);
    assert_eq!(expected_buffer_size(REG_DWORD_BIG_ENDIAN).unwrap(), 4);
    assert_eq!(expected_buffer_size(REG_QWORD).unwrap(), 8);
    assert_eq!(expected_buffer_size(REG_BINARY).unwrap(), 4096);
    assert_eq!(expected_buffer_size(REG_SZ).unwrap(), 4096);
    assert_eq!(expected_buffer_size(REG_EXPAND_SZ).unwrap(), 4096);
    assert_eq!(expected_buffer_size(REG_MULTI_SZ).unwrap(), 4096);
    assert_eq!(expected_buffer_size(REG_LINK).unwrap(), 4096);
    assert_eq!(expected_buffer_size(REG_NONE).unwrap(), 4096);
    let e = expected_buffer_size(8).unwrap_err();
    assert_eq!(e.kind, ErrorKind::UnrecognizedTag);
    let e = expected_buffer_size(u32::MAX).unwrap_err();
    assert_eq!(e.kind, ErrorKind::UnrecognizedTag);
}

#[test]
fn render_integers_as_decimal() {
    assert_eq!(RegistryValue::Dword(0).val_as_string(), "0");
    assert_eq!(RegistryValue::Dword(1234567890).val_as_string(), "1234567890");
    assert_eq!(RegistryValue::DwordBE(42).val_as_string(), "42");
    assert_eq!(
        RegistryValue::Qword(u64::MAX).val_as_string(),
        "18446744073709551615"
    );
}

#[test]
fn render_text_verbatim() {
    assert_eq!(
        RegistryValue::Sz("Example string".to_string()).val_as_string(),
        "Example string"
    );
    assert_eq!(RegistryValue::MultiSz(String::new()).val_as_string(), "");
}

#[test]
fn render_bytes_as_listing() {
    assert_eq!(RegistryValue::Binary(vec![1, 2, 3]).val_as_string(), "[1, 2, 3]");
    assert_eq!(RegistryValue::Binary(vec![]).val_as_string(), "[]");
    assert_eq!(RegistryValue::RegNone(vec![255]).val_as_string(), "[255]");
    assert_eq!(RegistryValue::Binary(vec![0, 10, 200]).val_as_string(), "[0, 10, 200]");
}

#[test]
fn type_names() {
    assert_eq!(RegistryValue::Binary(vec![]).type_as_string(), "REG_BINARY");
    assert_eq!(RegistryValue::Dword(0).type_as_string(), "REG_DWORD");
    assert_eq!(RegistryValue::DwordBE(0).type_as_string(), "REG_DWORDBE");
    assert_eq!(RegistryValue::ExpandSz(String::new()).type_as_string(), "REG_EXPANDSZ");
    assert_eq!(RegistryValue::Link(String::new()).type_as_string(), "REG_LINK");
    assert_eq!(RegistryValue::MultiSz(String::new()).type_as_string(), "REG_MULTISZ");
    assert_eq!(RegistryValue::RegNone(vec![]).type_as_string(), "REG_NONE");
    assert_eq!(RegistryValue::Qword(0).type_as_string(), "REG_QWORD");
    assert_eq!(RegistryValue::Sz(String::new()).type_as_string(), "REG_SZ");
}

use exif_reader::ByteOrder;
use exif_reader::ExifRational;
use exif_reader::ExifSRational;
use exif_reader::ExifValue;
use exif_reader::to_exif_value;

#[test]
fn short_little_endian() {
    let data = Some(vec![0x34u8, 0x12u8]);
    let v = to_exif_value(3, &data, ByteOrder::Intel);
    assert_eq!(v.as_short(), Some(0x1234));
}

#[test]
fn short_big_endian() {
    let data = Some(vec![0x12u8, 0x34u8]);
    let v = to_exif_value(3, &data, ByteOrder::Motorola);
    assert_eq!(v.as_short(), Some(0x1234));
}

#[test]
fn missing_data_is_error() {
    for format in [1u16, 2, 3, 4, 5, 6, 7, 8, 9, 10, 11, 12, 0, 99] {
        let v = to_exif_value(format, &None, ByteOrder::Intel);
        assert!(matches!(v, ExifValue::Error));
    }
}

#[test]
fn empty_data_is_error() {
    for format in [1u16, 2, 3, 7, 99] {
        let v = to_exif_value(format, &Some(Vec::new()), ByteOrder::Motorola);
        assert!(matches!(v, ExifValue::Error));
    }
}

#[test]
fn unknown_format_is_undefined() {
    let data = Some(vec![1u8, 2, 3, 4, 5, 6, 7, 8]);
    for format in [0u16, 13, 99, 65535] {
        let v = to_exif_value(format, &data, ByteOrder::Intel);
        assert!(v.is_undefined());
    }
}

#[test]
fn declared_but_undecoded_formats_are_undefined() {
    let data = Some(vec![1u8, 2, 3, 4, 5, 6, 7, 8]);
    for format in [7u16, 11, 12] {
        let v = to_exif_value(format, &data, ByteOrder::Intel);
        assert!(v.is_undefined());
    }
}

#[test]
fn byte_reads_first_byte() {
    let data = Some(vec![0xABu8, 0xCD]);
    let v = to_exif_value(1, &data, ByteOrder::Motorola);
    assert_eq!(v.as_u8(), Some(0xAB));
}

#[test]
fn sbyte_is_twos_complement() {
    let data = Some(vec![0xFFu8]);
    let v = to_exif_value(6, &data, ByteOrder::Intel);
    assert!(matches!(v, ExifValue::SByte(-1)));
}

#[test]
fn long_little_endian() {
    let data = Some(vec![0x78u8, 0x56, 0x34, 0x12]);
    let v = to_exif_value(4, &data, ByteOrder::Intel);
    assert_eq!(v.as_long(), Some(0x12345678));
}

#[test]
fn long_big_endian() {
    let data = Some(vec![0x12u8, 0x34, 0x56, 0x78]);
    let v = to_exif_value(4, &data, ByteOrder::Motorola);
    assert_eq!(v.as_long(), Some(0x12345678));
}

#[test]
fn sshort_negative() {
    // 0xFFFE as two's complement is -2
    let data = Some(vec![0xFEu8, 0xFF]);
    let v = to_exif_value(8, &data, ByteOrder::Intel);
    assert_eq!(v.as_sshort(), Some(-2));
}

#[test]
fn slong_negative() {
    // 0xFFFFFFFF as two's complement is -1
    let data = Some(vec![0xFFu8, 0xFF, 0xFF, 0xFF]);
    let v = to_exif_value(9, &data, ByteOrder::Motorola);
    assert_eq!(v.as_slong(), Some(-1));
}

#[test]
fn rational_zero_denominator_preserved() {
    let data = Some(vec![28u8, 0, 0, 0, 0, 0, 0, 0]);
    let v = to_exif_value(5, &data, ByteOrder::Intel);
    assert_eq!(v.as_ratio(), Some(ExifRational { num: 28, den: 0 }));
}

#[test]
fn rational_both_orders() {
    let le = Some(vec![28u8, 0, 0, 0, 10, 0, 0, 0]);
    let v = to_exif_value(5, &le, ByteOrder::Intel);
    assert_eq!(v.as_ratio(), Some(ExifRational { num: 28, den: 10 }));
    let be = Some(vec![0u8, 0, 0, 28, 0, 0, 0, 10]);
    let w = to_exif_value(5, &be, ByteOrder::Motorola);
    assert_eq!(w.as_ratio(), Some(ExifRational { num: 28, den: 10 }));
}

#[test]
fn srational_negative_numerator() {
    // -3 over 10, little-endian
    let data = Some(vec![0xFDu8, 0xFF, 0xFF, 0xFF, 10, 0, 0, 0]);
    let v = to_exif_value(10, &data, ByteOrder::Intel);
    assert_eq!(v.as_sratio(), Some(ExifSRational { num: -3, den: 10 }));
}

#[test]
fn ascii_text() {
    let data = Some(vec![0x41u8, 0x42, 0x43, 0]);
    let v = to_exif_value(2, &data, ByteOrder::Intel);
    assert_eq!(v.as_text(), Some("ABC"));
}

#[test]
fn ascii_stops_at_first_nul() {
    let data = Some(vec![0x41u8, 0x42, 0, 0x43, 0x44]);
    let v = to_exif_value(2, &data, ByteOrder::Motorola);
    assert_eq!(v.as_text(), Some("AB"));
}

#[test]
fn ascii_without_nul_takes_all() {
    let data = Some(vec![0x41u8, 0x42, 0x43]);
    let v = to_exif_value(2, &data, ByteOrder::Intel);
    assert_eq!(v.as_text(), Some("ABC"));
}

#[test]
fn ascii_bad_utf8_placeholder() {
    let data = Some(vec![0xFFu8, 0xFE, 0x41]);
    let v = to_exif_value(2, &data, ByteOrder::Intel);
    assert_eq!(v.as_text(), Some("bad ASCII"));
}

#[test]
fn value_getters_reject_other_variants() {
    let v = ExifValue::Short(7);
    assert_eq!(v.as_u8(), None);
    assert_eq!(v.as_text(), None);
    assert_eq!(v.as_long(), None);
    assert_eq!(v.as_ratio(), None);
    assert_eq!(v.as_sshort(), None);
    assert_eq!(v.as_slong(), None);
    assert_eq!(v.as_sratio(), None);
    assert_eq!(v.as_float_bits(), None);
    assert_eq!(v.as_double_bits(), None);
    assert!(!v.is_undefined());
    let f = ExifValue::Float(0x3F800000);
    assert_eq!(f.as_float_bits(), Some(0x3F800000));
    let d = ExifValue::Double(0x3FF0000000000000);
    assert_eq!(d.as_double_bits(), Some(0x3FF0000000000000));
}

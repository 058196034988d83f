use exif_reader::ByteOrder;
use exif_reader::ExifContent;
use exif_reader::ExifEntry;
use exif_reader::ReadBody;
use exif_reader::build_table;
use exif_reader::walker::read_exif_content;
use exif_reader::walker::read_exif_entry;

fn named(name: &str, format: u16, data: Vec<u8>) -> ExifEntry {
    ExifEntry { name: Some(name.to_owned()), format, data: Some(data) }
}

#[test]
fn model_round_trip() {
    let content = ExifContent {
        ifd: 0,
        entries: vec![named("Model", 2, vec![0x41, 0x42, 0x43, 0])],
    };
    let t = build_table(ByteOrder::Intel, &vec![content]);
    assert_eq!(t.camera_model(), Some("ABC"));
}

#[test]
fn build_table_is_idempotent() {
    let make = || {
        vec![
            ExifContent {
                ifd: 0,
                entries: vec![
                    named("ISOSpeedRatings", 3, vec![200, 0]),
                    named("Model", 2, vec![0x58, 0x59, 0]),
                ],
            },
            ExifContent { ifd: 1, entries: vec![named("FNumber", 5, vec![28, 0, 0, 0, 10, 0, 0, 0])] },
        ]
    };
    let t1 = build_table(ByteOrder::Intel, &make());
    let t2 = build_table(ByteOrder::Intel, &make());
    assert_eq!(t1.len(), t2.len());
    assert_eq!(t1.iso(), t2.iso());
    assert_eq!(t1.camera_model(), t2.camera_model());
    assert_eq!(t1.aperture(), t2.aperture());
}

#[test]
fn last_write_wins_across_contents() {
    let first = ExifContent { ifd: 0, entries: vec![named("ISOSpeedRatings", 3, vec![100, 0])] };
    let second = ExifContent { ifd: 1, entries: vec![named("ISOSpeedRatings", 3, vec![0x90, 0x01])] };
    let t = build_table(ByteOrder::Intel, &vec![first, second]);
    assert_eq!(t.len(), 1);
    assert_eq!(t.iso(), Some(400));
}

#[test]
fn unnamed_entry_is_skipped() {
    let content = ExifContent {
        ifd: 0,
        entries: vec![
            ExifEntry { name: None, format: 3, data: Some(vec![1, 0]) },
            named("ISOSpeedRatings", 3, vec![200, 0]),
        ],
    };
    let t = build_table(ByteOrder::Intel, &vec![content]);
    assert_eq!(t.len(), 1);
    assert_eq!(t.iso(), Some(200));
}

#[test]
fn content_records_directory_id() {
    let mut body = ReadBody::new(ByteOrder::Motorola);
    assert_eq!(body.ifd, 0);
    let content = ExifContent { ifd: 3, entries: vec![named("Model", 2, vec![0x41, 0])] };
    read_exif_content(&mut body, &content);
    assert_eq!(body.ifd, 3);
    assert_eq!(body.entries.camera_model(), Some("A"));
}

#[test]
fn entry_decodes_under_byte_order() {
    let mut body = ReadBody::new(ByteOrder::Motorola);
    let entry = named("ISOSpeedRatings", 3, vec![1, 0]);
    read_exif_entry(&mut body, &entry);
    assert_eq!(body.entries.iso(), Some(256));
}

#[test]
fn absent_entry_data_becomes_error_value() {
    let content = ExifContent {
        ifd: 0,
        entries: vec![ExifEntry { name: Some("Model".to_owned()), format: 2, data: None }],
    };
    let t = build_table(ByteOrder::Intel, &vec![content]);
    assert_eq!(t.len(), 1);
    // the error sentinel is not text, so the accessor answers nothing
    assert_eq!(t.camera_model(), None);
}

use exif_reader::ExifEntries;
use exif_reader::ExifValue;

#[test]
fn new_table_is_empty() {
    let t = ExifEntries::new();
    assert_eq!(t.len(), 0);
    assert!(t.get(&"Model".to_owned()).is_none());
}

#[test]
fn insert_then_get() {
    let mut t = ExifEntries::new();
    t.insert("Model".to_owned(), ExifValue::Text("ABC".to_owned()));
    t.insert("ISOSpeedRatings".to_owned(), ExifValue::Short(200));
    assert_eq!(t.len(), 2);
    assert_eq!(t.get(&"Model".to_owned()).unwrap().as_text(), Some("ABC"));
    assert_eq!(t.get(&"ISOSpeedRatings".to_owned()).unwrap().as_short(), Some(200));
}

#[test]
fn get_missing_is_none() {
    let mut t = ExifEntries::new();
    t.insert("Model".to_owned(), ExifValue::Short(1));
    assert!(t.get(&"FNumber".to_owned()).is_none());
}

#[test]
fn insert_overwrites_same_name() {
    let mut t = ExifEntries::new();
    t.insert("ExposureTime".to_owned(), ExifValue::Short(1));
    t.insert("ExposureTime".to_owned(), ExifValue::Short(2));
    assert_eq!(t.len(), 1);
    assert_eq!(t.get(&"ExposureTime".to_owned()).unwrap().as_short(), Some(2));
}

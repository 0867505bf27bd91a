use std::io::Cursor;
use std::io::Write;

use google_timeline_parser::model::TimelineError;
use google_timeline_parser::read_timeline_records_from_archive;
use zip::write::SimpleFileOptions;
use zip::ZipArchive;
use zip::ZipWriter;

fn archive_with_entry(name: &str, body: &str) -> ZipArchive<Cursor<Vec<u8>>> {
    let mut writer = ZipWriter::new(Cursor::new(Vec::new()));
    writer
        .start_file(name, SimpleFileOptions::default())
        .unwrap();
    writer.write_all(body.as_bytes()).unwrap();
    let cursor = writer.finish().unwrap();
    ZipArchive::new(cursor).unwrap()
}

#[test]
fn reads_records_out_of_an_archive() {
    let json = r#"{
  "locations": [{
    "latitudeE7": 525163702,
    "longitudeE7": 133779641,
    "timestamp": "2023-10-10T07:59:55Z"
  },{
    "latitudeE7": 488583736,
    "longitudeE7": 22919064,
    "timestamp": "2023-10-10T07:59:55Z"
  }]
}"#;
    let mut archive = archive_with_entry("Takeout/Location History/Records.json", json);
    let mut records_iter = read_timeline_records_from_archive(&mut archive).unwrap();

    assert!(records_iter.next().unwrap().is_some());
    assert!(records_iter.next().unwrap().is_some());
    assert!(records_iter.next().unwrap().is_none());
}

#[test]
fn archive_without_records_entry_fails() {
    let mut archive = archive_with_entry("Takeout/Other.json", r#"{"locations": []}"#);

    assert!(matches!(
        read_timeline_records_from_archive(&mut archive),
        Err(TimelineError::NoArchiveEntry)
    ));
}

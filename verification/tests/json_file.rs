use chrono::TimeZone;
use chrono::Utc;

use google_timeline_parser::model::TimelineError;
use google_timeline_parser::model::UtcInstant;
use google_timeline_parser::read_timeline_records_from_json;
use google_timeline_parser::TimelineActivity;
use google_timeline_parser::TimelineRecord;

#[test]
fn parse_multiple_locations_from_string() {
    let json = r#"{
  "locations": [{
    "latitudeE7": 525163702,
    "longitudeE7": 133779641,
    "timestamp": "2023-10-10T07:59:55Z"
  },{
    "latitudeE7": 488583736,
    "longitudeE7": 22919064,
    "timestamp": "2023-10-10T07:59:55Z"
  }]
}"#;
    let mut records_iter = read_timeline_records_from_json(json.as_bytes()).unwrap();

    assert!(records_iter.next().unwrap().is_some());
    assert!(records_iter.next().unwrap().is_some());
    assert!(records_iter.next().unwrap().is_none());
}

#[test]
fn recovers_after_broken_item() {
    let json = r#"{
  "locations": [{}, {
    "latitudeE7": 488583736,
    "longitudeE7": 22919064,
    "timestamp": "2023-10-10T07:59:55Z"
  }]
}"#;

    let mut records_iter = read_timeline_records_from_json(json.as_bytes()).unwrap();
    assert!(records_iter.next().unwrap().is_some());
    assert!(records_iter.next().unwrap().is_none());
}

#[test]
fn single_record_comes_out_whole() {
    let json = r#"{
  "locations": [{
    "latitudeE7": 525163702,
    "longitudeE7": 133779641,
    "accuracy": 14,
    "timestamp": "2023-10-10T07:59:55Z"
  }]
}"#;
    let mut records_iter = read_timeline_records_from_json(json.as_bytes()).unwrap();

    assert_eq!(
        records_iter.next().unwrap(),
        Some(TimelineRecord {
            lat_e7: 525163702,
            lon_e7: 133779641,
            accuracy: Some(14),
            activity: TimelineActivity::Unknown,
            timestamp: UtcInstant {
                secs: Utc.with_ymd_and_hms(2023, 10, 10, 7, 59, 55).unwrap().timestamp(),
                nanos: 0,
            },
        })
    );
    assert_eq!(records_iter.next().unwrap(), None);
}

#[test]
fn skips_malformed_elements_and_keeps_order() {
    let json = r#"{
  "locations": [
    {"latitudeE7": 1, "longitudeE7": 2, "timestamp": "2023-10-10T07:59:55Z"},
    {},
    {"latitudeE7": "bad", "longitudeE7": 4, "timestamp": "2023-10-10T07:59:55Z"},
    {"latitudeE7": 5, "longitudeE7": 6, "timestamp": "2023-10-10T07:59:55Z"}
  ]
}"#;
    let mut records_iter = read_timeline_records_from_json(json.as_bytes()).unwrap();

    let first = records_iter.next().unwrap().unwrap();
    assert_eq!((first.lat_e7, first.lon_e7), (1, 2));
    let second = records_iter.next().unwrap().unwrap();
    assert_eq!((second.lat_e7, second.lon_e7), (5, 6));
    assert!(records_iter.next().unwrap().is_none());
}

#[test]
fn exhaustion_is_idempotent() {
    let json = r#"{"locations": []}"#;
    let mut records_iter = read_timeline_records_from_json(json.as_bytes()).unwrap();

    assert!(records_iter.next().unwrap().is_none());
    assert!(records_iter.next().unwrap().is_none());
    assert!(records_iter.next().unwrap().is_none());
}

#[test]
fn document_without_locations_array_fails() {
    let json = r#"{"places": [1, 2, 3]}"#;
    assert!(matches!(
        read_timeline_records_from_json(json.as_bytes()),
        Err(TimelineError::Document)
    ));

    let json = r#"{"locations": 17}"#;
    assert!(matches!(
        read_timeline_records_from_json(json.as_bytes()),
        Err(TimelineError::Document)
    ));

    let json = r#"[1, 2, 3]"#;
    assert!(matches!(
        read_timeline_records_from_json(json.as_bytes()),
        Err(TimelineError::Document)
    ));
}

#[test]
fn last_window_decides_the_activity() {
    let json = r#"{
  "locations": [{
    "latitudeE7": 525163702,
    "longitudeE7": 133779641,
    "timestamp": "2023-10-10T07:59:55Z",
    "activity": [
      {"activity": [{"type": "ON_BICYCLE", "confidence": 100}], "timestamp": "2023-10-10T07:00:00Z"},
      {"activity": [{"type": "STILL", "confidence": 100}], "timestamp": "2023-10-10T07:30:00Z"}
    ]
  }]
}"#;
    let mut records_iter = read_timeline_records_from_json(json.as_bytes()).unwrap();

    let record = records_iter.next().unwrap().unwrap();
    assert_eq!(record.activity, TimelineActivity::Still);
    assert!(records_iter.next().unwrap().is_none());
}

#[test]
fn unmapped_label_is_fatal() {
    let json = r#"{
  "locations": [{
    "latitudeE7": 525163702,
    "longitudeE7": 133779641,
    "timestamp": "2023-10-10T07:59:55Z",
    "activity": [
      {"activity": [{"type": "FLYING", "confidence": 95}], "timestamp": "2023-10-10T07:00:00Z"}
    ]
  }]
}"#;
    let mut records_iter = read_timeline_records_from_json(json.as_bytes()).unwrap();

    assert_eq!(
        records_iter.next(),
        Err(TimelineError::UnmappedActivity("FLYING".to_string()))
    );
}

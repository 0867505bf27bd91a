use chrono::TimeZone;
use chrono::Utc;

use google_timeline_parser::model::RawGuess;
use google_timeline_parser::model::RawWindow;
use google_timeline_parser::model::TimelineError;
use google_timeline_parser::model::UtcInstant;
use google_timeline_parser::parser::classify;
use google_timeline_parser::parser::read_timeline_record;
use google_timeline_parser::parser::reduce_activity;
use google_timeline_parser::parser::LabelClass;
use google_timeline_parser::tokens::JsonTokens;
use google_timeline_parser::TimelineActivity;
use google_timeline_parser::TimelineRecord;

fn instant(y: i32, mo: u32, d: u32, h: u32, mi: u32, s: u32) -> UtcInstant {
    UtcInstant {
        secs: Utc.with_ymd_and_hms(y, mo, d, h, mi, s).unwrap().timestamp(),
        nanos: 0,
    }
}

#[test]
fn parse_minimal_valid_record() {
    let json = r#"{
        "latitudeE7": 525163702,
        "longitudeE7": 133779641,
        "timestamp": "2023-10-10T07:59:55Z"
    }"#;
    let mut tokens = JsonTokens::new(json.as_bytes());

    assert_eq!(
        read_timeline_record(&mut tokens).unwrap(),
        TimelineRecord {
            lat_e7: 525163702,
            lon_e7: 133779641,
            accuracy: None,
            activity: TimelineActivity::Unknown,
            timestamp: instant(2023, 10, 10, 7, 59, 55),
        }
    );
}

#[test]
fn parse_valid_record_1() {
    let json = r#"{
        "latitudeE7": 525163702,
        "longitudeE7": 133779641,
        "accuracy": 14,
        "activity": [{
            "activity": [{
              "type": "WALKING",
              "confidence": 41
            }],
            "timestamp": "2023-10-10T07:59:55Z"
        }],
        "timestamp": "2023-10-10T07:59:55Z"
    }"#;
    let mut tokens = JsonTokens::new(json.as_bytes());

    assert_eq!(
        read_timeline_record(&mut tokens).unwrap(),
        TimelineRecord {
            lat_e7: 525163702,
            lon_e7: 133779641,
            accuracy: Some(14),
            activity: TimelineActivity::Unknown,
            timestamp: instant(2023, 10, 10, 7, 59, 55),
        }
    );
}

#[test]
fn parse_valid_record_2() {
    let json = r#"{
        "latitudeE7": -785542265,
        "longitudeE7": -1732126463,
        "timestamp": "2023-10-10T07:59:55Z",
        "accuracy": 100,
        "activity": [
            {
                "activity": [
                    {
                        "type": "STILL",
                        "confidence": 96
                    }, {
                        "type": "ON_FOOT",
                        "confidence": 2
                    }, {
                        "type": "WALKING",
                        "confidence": 2
                    }
                ],
                "timestamp": "2023-10-10T08:43:58.954Z"
            },
            {
                "activity": [
                    {
                        "type": "STILL",
                        "confidence": 100
                    }
                ],
                "timestamp": "2023-10-10T08:46:02.957Z"
            }
        ]
    }"#;
    let mut tokens = JsonTokens::new(json.as_bytes());

    assert_eq!(
        read_timeline_record(&mut tokens).unwrap(),
        TimelineRecord {
            lat_e7: -785542265,
            lon_e7: -1732126463,
            accuracy: Some(100),
            activity: TimelineActivity::Still,
            timestamp: instant(2023, 10, 10, 7, 59, 55),
        }
    );
}

#[test]
fn empty_element_misses_mandatory_fields() {
    let json = "{}";
    let mut tokens = JsonTokens::new(json.as_bytes());

    match read_timeline_record(&mut tokens) {
        Err(TimelineError::MissingMandatory(raw)) => {
            assert_eq!(raw.latitude_e7, None);
            assert_eq!(raw.longitude_e7, None);
            assert_eq!(raw.timestamp, None);
            assert_eq!(raw.accuracy, None);
            assert!(raw.activity.is_empty());
        }
        other => panic!("expected a missing-mandatory error, got {:?}", other),
    }
}

#[test]
fn wrongly_typed_field_is_malformed() {
    let json = r#"{
        "latitudeE7": "not a number",
        "longitudeE7": 133779641,
        "timestamp": "2023-10-10T07:59:55Z"
    }"#;
    let mut tokens = JsonTokens::new(json.as_bytes());

    assert_eq!(read_timeline_record(&mut tokens), Err(TimelineError::Malformed));
}

#[test]
fn bad_timestamp_is_malformed() {
    let json = r#"{
        "latitudeE7": 525163702,
        "longitudeE7": 133779641,
        "timestamp": "yesterday at noon"
    }"#;
    let mut tokens = JsonTokens::new(json.as_bytes());

    assert_eq!(read_timeline_record(&mut tokens), Err(TimelineError::Malformed));
}

#[test]
fn classify_follows_the_fixed_table() {
    let mapped = [
        ("STILL", TimelineActivity::Still),
        ("WALKING", TimelineActivity::OnFoot),
        ("ON_FOOT", TimelineActivity::OnFoot),
        ("ON_BICYCLE", TimelineActivity::OnBike),
        ("IN_ROAD_VEHICLE", TimelineActivity::InRoadVehicle),
        ("IN_RAIL_VEHICLE", TimelineActivity::InRoadVehicle),
    ];
    for (label, activity) in mapped {
        assert_eq!(classify(&label.to_string()), LabelClass::Mapped(activity));
    }
    for label in ["UNKNOWN", "IN_VEHICLE", "EXITING_VEHICLE", "TILTING"] {
        assert_eq!(classify(&label.to_string()), LabelClass::Ignored);
    }
    assert_eq!(classify(&"FLYING".to_string()), LabelClass::Unmapped);
}

fn window(guesses: Vec<(&str, u8)>) -> RawWindow {
    let mut out = Vec::new();
    for (label, confidence) in guesses {
        out.push(RawGuess { label: label.to_string(), confidence });
    }
    RawWindow { guesses: out }
}

#[test]
fn reduction_takes_first_qualifying_guess_of_last_window() {
    let windows = vec![
        window(vec![("ON_BICYCLE", 100)]),
        window(vec![("UNKNOWN", 99), ("STILL", 90), ("WALKING", 91)]),
    ];
    assert_eq!(reduce_activity(&windows), Ok(TimelineActivity::OnFoot));
}

#[test]
fn reduction_of_empty_history_is_unknown() {
    assert_eq!(reduce_activity(&Vec::new()), Ok(TimelineActivity::Unknown));
    let windows = vec![window(vec![("STILL", 90), ("ON_FOOT", 2)])];
    assert_eq!(reduce_activity(&windows), Ok(TimelineActivity::Unknown));
}

#[test]
fn reduction_reports_unmapped_label() {
    let windows = vec![window(vec![("TILTING", 95), ("FLYING", 94)])];
    assert_eq!(
        reduce_activity(&windows),
        Err(TimelineError::UnmappedActivity("FLYING".to_string()))
    );
}

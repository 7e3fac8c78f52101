use api_v1::date_time::{DateTime, DateTimeError, WireToken};
use std::cmp::Ordering;

fn token_of(v: &serde_json::Value) -> WireToken {
    match v {
        serde_json::Value::String(s) => WireToken::Text(s.clone()),
        serde_json::Value::Number(n) => WireToken::Integer(n.as_i64().unwrap()),
        serde_json::Value::Null => WireToken::Null,
        other => panic!("not a scalar: {other}"),
    }
}

#[test]
fn test_datetime_ser() {
    let dt = DateTime::from_rfc3339("2023-01-02T03:04:05.000Z").unwrap();
    let ser = serde_json::ser::to_string(&dt.encode());
    assert!(ser.is_ok());
    assert_eq!(ser.unwrap(), "\"2023-01-02T03:04:05Z\"");
}

#[test]
fn test_datetime_ser_with_tz() {
    let dt = DateTime::from_rfc3339("2023-01-02T03:04:05.000+05:30").unwrap();
    let ser = serde_json::ser::to_string(&dt.encode());
    assert!(ser.is_ok());
    assert_eq!(ser.unwrap(), "\"2023-01-01T21:34:05Z\"");
}

#[test]
fn test_datetime_de_string() {
    let mut object = serde_json::Map::new();
    object.insert("a".to_string(), serde_json::Value::from("2023-01-02T03:04:05.000Z"));
    let string_json = serde_json::Value::Object(object);
    let date = DateTime::decode(&token_of(&string_json["a"]));
    assert!(date.is_ok())
}

#[test]
fn test_datetime_de_number() {
    let mut object = serde_json::Map::new();
    object.insert("a".to_string(), serde_json::Value::from(1686489749i64));
    let number_json = serde_json::Value::Object(object);
    let date = DateTime::decode(&token_of(&number_json["a"]));
    assert_eq!(date.unwrap().to_rfc3339().unwrap(), "2023-06-11T13:22:29Z");
}

#[test]
fn instant_round_trip_normalizes_to_utc() {
    let d = DateTime::decode_text("2023-01-02T03:04:05.000+05:30").unwrap();
    assert_eq!(d.encode(), "2023-01-01T21:34:05Z");
    assert_eq!(d.to_rfc3339().unwrap(), d.encode());
    let again = DateTime::decode_text(&d.encode()).unwrap();
    assert_eq!(again, d);
}

#[test]
fn fractional_seconds_are_kept() {
    let d = DateTime::from_rfc3339("2023-01-02T03:04:05.5Z").unwrap();
    assert_eq!(d.encode(), "2023-01-02T03:04:05.5Z");
}

#[test]
fn sentinels_decode_and_encode() {
    assert_eq!(DateTime::decode_text("null").unwrap(), DateTime::Absent);
    assert_eq!(DateTime::Absent.encode(), "null");
    assert_eq!(DateTime::decode_text("0000-00-00 00:00:00").unwrap(), DateTime::Indefinite);
    assert_eq!(DateTime::Indefinite.encode(), "0000-00-00 00:00:00");
    assert_eq!(DateTime::decode(&WireToken::Null).unwrap(), DateTime::Absent);
}

#[test]
fn epoch_decodes_to_utc_text() {
    let d = DateTime::decode(&WireToken::Integer(1686489749)).unwrap();
    assert_eq!(d.to_rfc3339().unwrap(), "2023-06-11T13:22:29Z");
    assert_eq!(DateTime::from_unix_timestamp(0).unwrap().encode(), "1970-01-01T00:00:00Z");
}

#[test]
fn epoch_range_edges() {
    let last = DateTime::from_unix_timestamp(253_402_300_799).unwrap();
    assert_eq!(last.encode(), "9999-12-31T23:59:59Z");
    let first = DateTime::from_unix_timestamp(-62_167_219_200).unwrap();
    assert_eq!(first.encode(), "0000-01-01T00:00:00Z");
    assert!(matches!(
        DateTime::from_unix_timestamp(253_402_300_800),
        Err(DateTimeError::BadUnixTimestamp(253_402_300_800))
    ));
    assert!(matches!(
        DateTime::from_unix_timestamp(-62_167_219_201),
        Err(DateTimeError::BadUnixTimestamp(-62_167_219_201))
    ));
    assert!(matches!(
        DateTime::from_unix_timestamp(i64::MAX),
        Err(DateTimeError::BadUnixTimestamp(i64::MAX))
    ));
}

#[test]
fn bad_text_carries_the_text() {
    match DateTime::decode_text("yesterday") {
        Err(DateTimeError::BadDateTimeString(s)) => assert_eq!(s, "yesterday"),
        other => panic!("unexpected {other:?}"),
    }
    match DateTime::decode_text("2023-01-02 03:04:05") {
        Err(DateTimeError::BadDateTimeString(s)) => assert_eq!(s, "2023-01-02 03:04:05"),
        other => panic!("unexpected {other:?}"),
    }
    match DateTime::decode_text("") {
        Err(DateTimeError::BadDateTimeString(s)) => assert_eq!(s, ""),
        other => panic!("unexpected {other:?}"),
    }
}

#[test]
fn text_past_the_last_renderable_instant_is_refused() {
    match DateTime::from_rfc3339("9999-12-31T23:59:59-01:00") {
        Err(DateTimeError::BadDateTimeString(s)) => assert_eq!(s, "9999-12-31T23:59:59-01:00"),
        other => panic!("unexpected {other:?}"),
    }
}

#[test]
fn sentinels_have_no_rfc3339_form() {
    assert!(matches!(DateTime::Absent.to_rfc3339(), Err(DateTimeError::NoRfc3339Equivalent)));
    assert!(matches!(DateTime::Indefinite.to_rfc3339(), Err(DateTimeError::NoRfc3339Equivalent)));
}

#[test]
fn instants_order_by_time() {
    let a = DateTime::from_unix_timestamp(100).unwrap();
    let b = DateTime::from_rfc3339("1970-01-01T00:01:41Z").unwrap();
    assert_eq!(a.partial_cmp(&b), Some(Ordering::Less));
    assert_eq!(b.partial_cmp(&a), Some(Ordering::Greater));
    assert_eq!(a.partial_cmp(&a), Some(Ordering::Equal));
    assert!(a < b);
    let c = DateTime::from_rfc3339("1970-01-01T01:01:40+01:00").unwrap();
    assert_eq!(a.partial_cmp(&c), Some(Ordering::Equal));
    assert_eq!(a, c);
}

#[test]
fn sentinels_compare_with_nothing() {
    let a = DateTime::from_unix_timestamp(100).unwrap();
    assert_eq!(DateTime::Absent.partial_cmp(&DateTime::Absent), None);
    assert_eq!(DateTime::Indefinite.partial_cmp(&DateTime::Indefinite), None);
    assert_eq!(DateTime::Absent.partial_cmp(&a), None);
    assert_eq!(a.partial_cmp(&DateTime::Indefinite), None);
    assert!(!(DateTime::Absent < a) && !(DateTime::Absent > a));
}

#[test]
fn display_differs_from_wire_for_never() {
    assert_eq!(DateTime::Indefinite.to_string(), "never");
    assert_eq!(DateTime::Indefinite.encode(), "0000-00-00 00:00:00");
    assert_eq!(DateTime::Absent.to_string(), "null");
    let d = DateTime::from_unix_timestamp(1686489749).unwrap();
    assert_eq!(d.to_string(), "2023-06-11T13:22:29Z");
}

use unical::error::FetchError;
use unical::json::Json;
use unical::models::{ApiResponse, Holiday, HolidayDate};

#[test]
fn test_deserialize_holiday_date() {
    let json = r#"{ "iso": "2025-01-01" }"#;
    let holiday_date: HolidayDate = HolidayDate::from_json_text(json).unwrap();
    assert_eq!(holiday_date.iso, "2025-01-01");
}

#[test]
fn test_deserialize_holiday() {
    let json = r#"
        {
            "name": "Test Holiday",
            "description": "A holiday for testing",
            "date": { "iso": "2025-01-01" },
            "type": ["National holiday"],
            "locations": "All",
            "states": "All"
        }
        "#;
    let holiday: Holiday = Holiday::from_json_text(json).unwrap();
    assert_eq!(holiday.name, "Test Holiday");
    assert_eq!(holiday.description.as_deref(), Some("A holiday for testing"));
    assert_eq!(holiday.date.iso, "2025-01-01");
    assert!(holiday.types.is_some());
    assert_eq!(holiday.types.unwrap()[0], "National holiday");
    assert_eq!(holiday.locations.as_deref(), Some("All"));
    assert_eq!(holiday.states.as_deref(), Some("All"));
}

fn full_holiday() -> Holiday {
    Holiday {
        name: "Madaraka Day".to_string(),
        description: Some("Self-rule".to_string()),
        date: HolidayDate { iso: "2025-06-01".to_string() },
        types: Some(vec!["National holiday".to_string(), "Observance".to_string()]),
        locations: Some("All".to_string()),
        states: Some("All".to_string()),
    }
}

#[test]
fn round_trip_through_json_keeps_every_field() {
    let h = full_holiday();
    let back = Holiday::from_json(&h.to_json()).unwrap();
    assert_eq!(back, h);
}

#[test]
fn round_trip_keeps_absent_values_absent() {
    let h = Holiday {
        name: "Quiet Day".to_string(),
        description: None,
        date: HolidayDate { iso: "2025-02-02".to_string() },
        types: None,
        locations: None,
        states: None,
    };
    let back = Holiday::from_json(&h.to_json()).unwrap();
    assert_eq!(back, h);
}

#[test]
fn written_holiday_uses_type_key() {
    let j = full_holiday().to_json();
    match j {
        Json::Object(members) => {
            let keys: Vec<&str> = members.iter().map(|(k, _)| k.as_str()).collect();
            assert_eq!(keys, vec!["name", "description", "date", "type", "locations", "states"]);
            match &members[3].1 {
                Json::Array(items) => {
                    assert_eq!(items.len(), 2);
                    assert!(matches!(&items[0], Json::Str(s) if s == "National holiday"));
                }
                _ => panic!("category tags are not an array"),
            }
        }
        _ => panic!("a holiday is not written as an object"),
    }
}

#[test]
fn date_is_written_as_iso_object() {
    let d = HolidayDate { iso: "2025-12-25".to_string() };
    let back = HolidayDate::from_json(&d.to_json()).unwrap();
    assert_eq!(back, d);
}

#[test]
fn optional_members_may_be_omitted() {
    let json = r#"{ "name": "Bare", "date": { "iso": "2025-03-03" } }"#;
    let h = Holiday::from_json_text(json).unwrap();
    assert_eq!(h.name, "Bare");
    assert_eq!(h.date.iso, "2025-03-03");
    assert_eq!(h.description, None);
    assert_eq!(h.types, None);
    assert_eq!(h.locations, None);
    assert_eq!(h.states, None);
}

#[test]
fn optional_members_may_be_null() {
    let json = r#"{ "name": "Nulls", "description": null, "date": { "iso": "2025-03-03" },
                    "type": null, "locations": null, "states": null }"#;
    let h = Holiday::from_json_text(json).unwrap();
    assert_eq!(h.description, None);
    assert_eq!(h.types, None);
    assert_eq!(h.locations, None);
    assert_eq!(h.states, None);
}

#[test]
fn empty_strings_stay_present() {
    let json = r#"{ "name": "E", "description": "", "date": { "iso": "x" }, "type": [] }"#;
    let h = Holiday::from_json_text(json).unwrap();
    assert_eq!(h.description.as_deref(), Some(""));
    assert_eq!(h.types, Some(vec![]));
}

#[test]
fn missing_name_is_malformed() {
    let json = r#"{ "date": { "iso": "2025-01-01" } }"#;
    assert_eq!(Holiday::from_json_text(json), Err(FetchError::MalformedPayload));
}

#[test]
fn missing_date_iso_is_malformed() {
    let json = r#"{ "name": "No date", "date": {} }"#;
    assert_eq!(Holiday::from_json_text(json), Err(FetchError::MalformedPayload));
    let json = r#"{ "name": "No date" }"#;
    assert_eq!(Holiday::from_json_text(json), Err(FetchError::MalformedPayload));
}

#[test]
fn null_name_is_malformed() {
    let json = r#"{ "name": null, "date": { "iso": "2025-01-01" } }"#;
    assert_eq!(Holiday::from_json_text(json), Err(FetchError::MalformedPayload));
}

#[test]
fn wrongly_typed_members_are_malformed() {
    let json = r#"{ "name": "N", "date": { "iso": "d" }, "type": "National holiday" }"#;
    assert_eq!(Holiday::from_json_text(json), Err(FetchError::MalformedPayload));
    let json = r#"{ "name": "N", "date": { "iso": "d" }, "type": ["a", 1] }"#;
    assert_eq!(Holiday::from_json_text(json), Err(FetchError::MalformedPayload));
    let json = r#"{ "name": "N", "date": { "iso": "d" }, "states": 3 }"#;
    assert_eq!(Holiday::from_json_text(json), Err(FetchError::MalformedPayload));
}

#[test]
fn text_that_is_not_json_is_malformed() {
    assert_eq!(Holiday::from_json_text("{ name: "), Err(FetchError::MalformedPayload));
    assert_eq!(HolidayDate::from_json_text(""), Err(FetchError::MalformedPayload));
}

#[test]
fn type_key_fills_category_tags() {
    let json = r#"{ "name": "N", "date": { "iso": "d" }, "type": ["National holiday"] }"#;
    let h = Holiday::from_json_text(json).unwrap();
    assert_eq!(h.types.unwrap()[0], "National holiday");
}

#[test]
fn unknown_members_are_passed_over() {
    let json = r#"{ "name": "N", "urlid": "x", "date": { "iso": "d", "datetime": {"year": 2025} } }"#;
    let h = Holiday::from_json_text(json).unwrap();
    assert_eq!(h.name, "N");
    assert_eq!(h.date.iso, "d");
}

#[test]
fn envelope_reads_meta_code() {
    let json = r#"{ "meta": { "code": 200 }, "response": { "holidays": [] } }"#;
    let r = ApiResponse::from_json_text(json).unwrap();
    assert_eq!(r.meta.code, 200);
    assert!(r.response.holidays.is_empty());
    let json = r#"{ "meta": { "code": -2147483648 }, "response": { "holidays": [] } }"#;
    assert_eq!(ApiResponse::from_json_text(json).unwrap().meta.code, i32::MIN);
}

#[test]
fn envelope_with_code_out_of_range_is_malformed() {
    let json = r#"{ "meta": { "code": 2147483648 }, "response": { "holidays": [] } }"#;
    assert_eq!(ApiResponse::from_json_text(json), Err(FetchError::MalformedPayload));
    let json = r#"{ "meta": { "code": 200.5 }, "response": { "holidays": [] } }"#;
    assert_eq!(ApiResponse::from_json_text(json), Err(FetchError::MalformedPayload));
}

#[test]
fn envelope_without_response_is_malformed() {
    let json = r#"{ "meta": { "code": 200 } }"#;
    assert_eq!(ApiResponse::from_json_text(json), Err(FetchError::MalformedPayload));
}

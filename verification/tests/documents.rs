use spacetraders::envelope::{read_field, read_optional, ApiResponse, Payload, ShapeError};
use spacetraders::json::Json;

fn text(s: &str) -> Json {
    Json::Text(s.to_string())
}

fn object(members: Vec<(&str, Json)>) -> Json {
    Json::Object(members.into_iter().map(|(k, v)| (k.to_string(), v)).collect())
}

#[test]
fn parse_reads_every_kind_of_value() {
    assert_eq!(Json::parse(b"null").ok(), Some(Json::Null));
    assert_eq!(Json::parse(b"true").ok(), Some(Json::Bool(true)));
    assert_eq!(Json::parse(b"false").ok(), Some(Json::Bool(false)));
    assert_eq!(Json::parse(b"0").ok(), Some(Json::Int(0)));
    assert_eq!(Json::parse(b"-17").ok(), Some(Json::Int(-17)));
    assert_eq!(Json::parse(b"\"a\\nb\"").ok(), Some(text("a\nb")));
    assert_eq!(Json::parse(b"[]").ok(), Some(Json::Array(vec![])));
    assert_eq!(Json::parse(b"{}").ok(), Some(Json::Object(vec![])));
    assert_eq!(
        Json::parse(b" [1, \"two\", [null], {\"k\": false}] ").ok(),
        Some(Json::Array(vec![
            Json::Int(1),
            text("two"),
            Json::Array(vec![Json::Null]),
            object(vec![("k", Json::Bool(false))]),
        ]))
    );
}

#[test]
fn parse_keeps_the_range_of_i64() {
    assert_eq!(Json::parse(b"9223372036854775807").ok(), Some(Json::Int(i64::MAX)));
    assert_eq!(Json::parse(b"-9223372036854775808").ok(), Some(Json::Int(i64::MIN)));
}

#[test]
fn parse_holds_other_numbers_as_text() {
    assert_eq!(
        Json::parse(b"9223372036854775808").ok(),
        Some(Json::Decimal("9223372036854775808".to_string()))
    );
    assert_eq!(
        Json::parse(b"18446744073709551615").ok(),
        Some(Json::Decimal("18446744073709551615".to_string()))
    );
    assert_eq!(Json::parse(b"1.5").ok(), Some(Json::Decimal("1.5".to_string())));
    assert_eq!(Json::parse(b"-0.25").ok(), Some(Json::Decimal("-0.25".to_string())));
    assert_eq!(Json::parse(b"100.0").ok(), Some(Json::Decimal("100.0".to_string())));
}

#[test]
fn parse_orders_members_by_key_and_keeps_the_last_of_equal_keys() {
    assert_eq!(
        Json::parse(br#"{"b":1,"a":2,"c":3}"#).ok(),
        Some(object(vec![("a", Json::Int(2)), ("b", Json::Int(1)), ("c", Json::Int(3))]))
    );
    assert_eq!(
        Json::parse(br#"{"k":1,"k":2}"#).ok(),
        Some(object(vec![("k", Json::Int(2))]))
    );
}

#[test]
fn parse_rejects_what_is_no_json() {
    for bad in ["", " ", "nul", "{\"a\":1,}", "[1 2]", "'single'", "{\"a\" 1}", "1 2", "\u{feff}1"] {
        let r = Json::parse(bad.as_bytes());
        match r {
            Err(e) => assert!(!e.message.is_empty(), "{:?}", bad),
            Ok(json) => panic!("{:?} was read as {:?}", bad, json),
        }
    }
    assert!(Json::parse(&[0xff]).is_err());
    assert!(Json::parse(&[b'"', 0xc3, 0x28, b'"']).is_err());
}

#[test]
fn parse_reports_where_it_stopped() {
    let e = Json::parse(b"{\n  \"a\": ?\n}").err().expect("an error");
    assert!(e.message.contains("line 2"), "{}", e.message);
    assert!(e.message.contains("column"), "{}", e.message);
}

#[test]
fn get_finds_the_first_member_of_that_name() {
    let json = object(vec![("a", Json::Int(1)), ("b", Json::Int(2)), ("a", Json::Int(3))]);
    assert_eq!(json.get("a"), Some(&Json::Int(1)));
    assert_eq!(json.get("b"), Some(&Json::Int(2)));
    assert_eq!(json.get("c"), None);
    assert_eq!(json.get(""), None);
    assert_eq!(json.get("A"), None);
}

#[test]
fn get_is_none_outside_objects() {
    for json in [Json::Null, Json::Bool(true), Json::Int(1), text("a"), Json::Array(vec![text("a")])] {
        assert_eq!(json.get("a"), None);
        assert!(!json.is_object());
    }
    assert!(object(vec![]).is_object());
    assert_eq!(object(vec![]).get("a"), None);
}

#[test]
fn get_tells_names_apart_by_every_character() {
    let json = object(vec![("naïve", Json::Int(1)), ("naive", Json::Int(2)), ("nai", Json::Int(3))]);
    assert_eq!(json.get("naive"), Some(&Json::Int(2)));
    assert_eq!(json.get("naïve"), Some(&Json::Int(1)));
    assert_eq!(json.get("nai"), Some(&Json::Int(3)));
    assert_eq!(json.get("naiv"), None);
}

#[test]
fn clone_copies_the_whole_document() {
    let json = object(vec![
        ("list", Json::Array(vec![Json::Int(1), Json::Decimal("2.5".to_string()), Json::Null])),
        ("inner", object(vec![("flag", Json::Bool(true)), ("name", text("x"))])),
    ]);
    assert_eq!(json.clone(), json);
}

#[test]
fn text_shape() {
    assert_eq!(String::from_json(&text("abc")), Some("abc".to_string()));
    assert_eq!(String::from_json(&text("")), Some(String::new()));
    assert_eq!(String::from_json(&Json::Int(1)), None);
    assert_eq!(String::from_json(&Json::Null), None);
    assert_eq!(String::from_json(&Json::Array(vec![text("a")])), None);
}

#[test]
fn bool_shape() {
    assert_eq!(bool::from_json(&Json::Bool(true)), Some(true));
    assert_eq!(bool::from_json(&Json::Bool(false)), Some(false));
    assert_eq!(bool::from_json(&Json::Int(1)), None);
    assert_eq!(bool::from_json(&text("true")), None);
}

#[test]
fn integer_shapes() {
    assert_eq!(i64::from_json(&Json::Int(i64::MIN)), Some(i64::MIN));
    assert_eq!(i64::from_json(&Json::Int(i64::MAX)), Some(i64::MAX));
    assert_eq!(i64::from_json(&Json::Decimal("1.0".to_string())), None);
    assert_eq!(i64::from_json(&text("1")), None);
    assert_eq!(i32::from_json(&Json::Int(2147483647)), Some(i32::MAX));
    assert_eq!(i32::from_json(&Json::Int(-2147483648)), Some(i32::MIN));
    assert_eq!(i32::from_json(&Json::Int(2147483648)), None);
    assert_eq!(i32::from_json(&Json::Int(-2147483649)), None);
    assert_eq!(i32::from_json(&Json::Int(0)), Some(0));
    assert_eq!(i32::from_json(&Json::Decimal("3".to_string())), None);
}

#[test]
fn option_shape() {
    assert_eq!(Option::<String>::from_json(&Json::Null), Some(None));
    assert_eq!(Option::<String>::from_json(&text("a")), Some(Some("a".to_string())));
    assert_eq!(Option::<String>::from_json(&Json::Int(1)), None);
}

#[test]
fn list_shape() {
    assert_eq!(Vec::<i64>::from_json(&Json::Array(vec![])), Some(vec![]));
    assert_eq!(
        Vec::<i64>::from_json(&Json::Array(vec![Json::Int(1), Json::Int(2)])),
        Some(vec![1, 2])
    );
    assert_eq!(Vec::<i64>::from_json(&Json::Array(vec![Json::Int(1), text("2")])), None);
    assert_eq!(Vec::<i64>::from_json(&Json::Int(1)), None);
    assert_eq!(Vec::<i64>::from_json(&Json::Null), None);
    assert_eq!(
        Vec::<Option<bool>>::from_json(&Json::Array(vec![Json::Null, Json::Bool(true)])),
        Some(vec![None, Some(true)])
    );
}

#[test]
fn document_shape_is_the_document() {
    let json = object(vec![("a", Json::Array(vec![Json::Int(1)]))]);
    assert_eq!(Json::from_json(&json), Some(json.clone()));
    assert_eq!(Json::from_json(&Json::Null), Some(Json::Null));
}

#[test]
fn fields_required_and_optional() {
    let json = object(vec![("name", text("n")), ("count", Json::Int(2)), ("none", Json::Null)]);
    assert_eq!(read_field::<String>(&json, "name"), Some("n".to_string()));
    assert_eq!(read_field::<i32>(&json, "count"), Some(2));
    assert_eq!(read_field::<String>(&json, "count"), None);
    assert_eq!(read_field::<String>(&json, "missing"), None);
    assert_eq!(read_field::<String>(&json, "none"), None);
    assert_eq!(read_optional::<String>(&json, "name"), Some(Some("n".to_string())));
    assert_eq!(read_optional::<String>(&json, "missing"), Some(None));
    assert_eq!(read_optional::<String>(&json, "none"), Some(None));
    assert_eq!(read_optional::<String>(&json, "count"), None);
    assert_eq!(read_field::<String>(&Json::Int(1), "name"), None);
    assert_eq!(read_optional::<String>(&Json::Int(1), "name"), Some(None));
}

#[test]
fn envelope_round_trip_on_values() {
    for payload in [Json::Null, Json::Int(5), text("p"), object(vec![("data", Json::Int(1))])] {
        let wrapped = object(vec![("data", payload.clone())]);
        assert_eq!(ApiResponse::<Json>::decode(&wrapped), Ok(ApiResponse { data: payload }));
    }
    let wrapped = object(vec![("data", Json::Array(vec![Json::Int(1), Json::Int(2)]))]);
    assert_eq!(ApiResponse::<Vec<i64>>::decode(&wrapped), Ok(ApiResponse { data: vec![1, 2] }));
}

#[test]
fn envelope_ignores_other_members() {
    let json = object(vec![("meta", Json::Int(1)), ("data", text("p")), ("data", Json::Int(2))]);
    assert_eq!(ApiResponse::<String>::decode(&json), Ok(ApiResponse { data: "p".to_string() }));
}

#[test]
fn envelope_failures() {
    assert_eq!(ApiResponse::<String>::decode(&Json::Null), Err(ShapeError::NotAnObject));
    assert_eq!(
        ApiResponse::<String>::decode(&Json::Array(vec![text("p")])),
        Err(ShapeError::NotAnObject)
    );
    assert_eq!(ApiResponse::<String>::decode(&text("data")), Err(ShapeError::NotAnObject));
    assert_eq!(ApiResponse::<String>::decode(&object(vec![])), Err(ShapeError::MissingData));
    assert_eq!(
        ApiResponse::<String>::decode(&object(vec![("Data", text("p"))])),
        Err(ShapeError::MissingData)
    );
    assert_eq!(
        ApiResponse::<String>::decode(&object(vec![("data", Json::Int(1))])),
        Err(ShapeError::Mismatch)
    );
    assert_eq!(
        ApiResponse::<Option<String>>::decode(&object(vec![("data", Json::Null)])),
        Ok(ApiResponse { data: None })
    );
    assert_eq!(
        ApiResponse::<String>::decode(&object(vec![("data", Json::Null)])),
        Err(ShapeError::Mismatch)
    );
}

#[test]
fn envelope_as_a_payload() {
    let json = object(vec![("data", object(vec![("data", Json::Int(7))]))]);
    assert_eq!(
        ApiResponse::<ApiResponse<i64>>::from_json(&json),
        Some(ApiResponse { data: ApiResponse { data: 7 } })
    );
    assert_eq!(ApiResponse::<i64>::from_json(&json), None);
}

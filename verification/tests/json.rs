use dispatch::json::{Fields, Json, JsonNumber};

#[test]
fn later_entry_counts() {
    let j = Fields::new()
        .with("a", Json::number(1))
        .with("b", Json::text("x"))
        .with("a", Json::number(2))
        .object();
    assert_eq!(j.u64_field("a"), Some(2));
    assert_eq!(j.str_field("b"), Some("x".to_string()));
    assert_eq!(j.get("c"), None);
    assert_eq!(j.str_field("a"), None);
    assert_eq!(j.u64_field("b"), None);
    assert_eq!(Json::Null.get("a"), None);
}

#[test]
fn numbers_and_texts() {
    assert_eq!(Json::Number(JsonNumber::PosInt(7)).as_u64(), Some(7));
    assert_eq!(Json::Number(JsonNumber::NegInt(7)).as_u64(), Some(7));
    assert_eq!(Json::Number(JsonNumber::NegInt(-7)).as_u64(), None);
    assert_eq!(Json::Number(JsonNumber::Float("7.0".to_string())).as_u64(), None);
    assert_eq!(Json::text("t").as_str(), Some("t"));
    assert_eq!(Json::Bool(true).as_str(), None);
}

#[test]
fn blank_values() {
    assert!(Json::Null.is_blank());
    assert!(Fields::new().object().is_blank());
    assert!(!Json::Array(vec![]).is_blank());
    assert!(!Json::text("").is_blank());
    assert!(!Fields::new().with("k", Json::Null).object().is_blank());
}

#[test]
fn clones_are_equal() {
    let j = Fields::new()
        .with("list", Json::Array(vec![Json::Null, Json::Bool(false), Json::number(3)]))
        .with("f", Json::Number(JsonNumber::Float("1.5".to_string())))
        .with("inner", Fields::new().with("t", Json::text("u")).object())
        .object();
    assert_eq!(j.clone(), j);
}

use team_platformer::json::Json;

fn text(s: &str) -> Json {
    Json::Text(s.to_string())
}

#[test]
fn from_text_reads_an_unsigned_number() {
    assert_eq!(Json::from_text(b"7"), Some(Json::Unsigned(7)));
}

#[test]
fn from_text_reads_a_negative_number() {
    assert_eq!(Json::from_text(b"-3"), Some(Json::Negative(-3)));
}

#[test]
fn from_text_keeps_a_real_as_its_literal() {
    assert_eq!(Json::from_text(b"1.5"), Some(Json::Real("1.5".to_string())));
}

#[test]
fn from_text_rejects_a_truncated_document() {
    assert_eq!(Json::from_text(b"{"), None);
}

#[test]
fn from_text_rejects_trailing_garbage() {
    assert_eq!(Json::from_text(b"1 2"), None);
}

#[test]
fn from_text_reads_nested_documents() {
    let doc = Json::from_text(b"{\"a\":[1,true,null,\"x\"],\"b\":{\"c\":-1}}").unwrap();
    let expected = Json::Object(vec![
        (
            "a".to_string(),
            Json::Array(vec![Json::Unsigned(1), Json::Bool(true), Json::Null, text("x")]),
        ),
        ("b".to_string(), Json::Object(vec![("c".to_string(), Json::Negative(-1))])),
    ]);
    assert_eq!(doc, expected);
}

#[test]
fn to_text_writes_what_from_text_reads() {
    let doc = Json::Object(vec![
        ("a".to_string(), Json::Unsigned(18446744073709551615)),
        ("b".to_string(), Json::Real("0.25".to_string())),
        ("c".to_string(), text("line\nbreak \"quoted\"")),
    ]);
    let bytes = doc.to_text().unwrap();
    assert_eq!(Json::from_text(&bytes), Some(doc));
}

#[test]
fn to_text_writes_compact_json() {
    let doc = Json::Object(vec![("k".to_string(), Json::Array(vec![Json::Null]))]);
    assert_eq!(doc.to_text().unwrap(), b"{\"k\":[null]}".to_vec());
}

#[test]
fn to_text_refuses_a_real_that_is_no_number() {
    assert_eq!(Json::Real("abc".to_string()).to_text(), None);
}

#[test]
fn get_finds_the_last_member_with_a_key() {
    let doc = Json::Object(vec![
        ("k".to_string(), Json::Unsigned(1)),
        ("other".to_string(), Json::Null),
        ("k".to_string(), Json::Unsigned(2)),
    ]);
    assert_eq!(doc.get("k"), Some(&Json::Unsigned(2)));
    assert_eq!(doc.get("other"), Some(&Json::Null));
    assert_eq!(doc.get("missing"), None);
}

#[test]
fn get_on_anything_but_an_object_is_none() {
    assert_eq!(Json::Array(vec![]).get("k"), None);
    assert_eq!(Json::Null.get("k"), None);
}

#[test]
fn as_u64_takes_non_negative_integers_only() {
    assert_eq!(Json::Unsigned(9).as_u64(), Some(9));
    assert_eq!(Json::Negative(9).as_u64(), Some(9));
    assert_eq!(Json::Negative(-1).as_u64(), None);
    assert_eq!(Json::Real("9.0".to_string()).as_u64(), None);
    assert_eq!(text("9").as_u64(), None);
}

#[test]
fn sized_accessors_check_the_range() {
    let doc = Json::Object(vec![
        ("small".to_string(), Json::Unsigned(65535)),
        ("big".to_string(), Json::Unsigned(65536)),
        ("huge".to_string(), Json::Unsigned(4294967296)),
    ]);
    assert_eq!(doc.u16_at("small"), Some(65535));
    assert_eq!(doc.u16_at("big"), None);
    assert_eq!(doc.u32_at("big"), Some(65536));
    assert_eq!(doc.u32_at("huge"), None);
    assert_eq!(doc.u64_at("huge"), Some(4294967296));
    assert_eq!(doc.usize_at("small"), Some(65535));
}

#[test]
fn optional_members_may_be_absent_or_null() {
    let doc = Json::Object(vec![
        ("n".to_string(), Json::Null),
        ("s".to_string(), text("hi")),
        ("i".to_string(), Json::Unsigned(1)),
    ]);
    assert_eq!(doc.optional_text_at("absent"), Some(None));
    assert_eq!(doc.optional_text_at("n"), Some(None));
    assert_eq!(doc.optional_text_at("s"), Some(Some("hi".to_string())));
    assert_eq!(doc.optional_text_at("i"), None);
    assert_eq!(doc.optional_at("n"), None);
    assert_eq!(doc.optional_at("i"), Some(&Json::Unsigned(1)));
}

#[test]
fn duplicate_copies_the_whole_tree() {
    let doc = Json::from_text(b"{\"a\":[1,{\"b\":[2.5,\"x\"]}],\"c\":false}").unwrap();
    assert_eq!(doc.duplicate(), doc);
}

#[test]
fn text_and_bool_accessors() {
    assert_eq!(text("a").as_text(), Some(&"a".to_string()));
    assert_eq!(Json::Null.as_text(), None);
    assert_eq!(Json::Bool(true).as_bool(), Some(true));
    assert_eq!(Json::Unsigned(1).as_bool(), None);
    assert!(Json::Null.is_null());
    assert!(!Json::Bool(false).is_null());
}

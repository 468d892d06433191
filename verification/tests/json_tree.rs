use discord_client::json::Json;

#[test]
fn parse_reads_an_object_with_its_members_in_key_order() {
    let parsed = Json::parse("{\"b\": 1, \"a\": [true, null, -2, \"x\", 1.5]}");
    let expected = Json::Object(vec![
        (
            "a".to_string(),
            Json::Array(vec![
                Json::Bool(true),
                Json::Null,
                Json::Negative(-2),
                Json::Text("x".to_string()),
                Json::Real,
            ]),
        ),
        ("b".to_string(), Json::Unsigned(1)),
    ]);
    assert_eq!(parsed, Some(expected));
}

#[test]
fn parse_rejects_text_that_is_not_json() {
    assert_eq!(Json::parse("not json"), None);
    assert_eq!(Json::parse(""), None);
}

#[test]
fn parse_tells_the_kinds_of_number_apart() {
    assert_eq!(Json::parse("0"), Some(Json::Unsigned(0)));
    assert_eq!(Json::parse("18446744073709551615"), Some(Json::Unsigned(18446744073709551615)));
    assert_eq!(Json::parse("-1"), Some(Json::Negative(-1)));
    assert_eq!(Json::parse("-9223372036854775808"), Some(Json::Negative(-9223372036854775808)));
    assert_eq!(Json::parse("1.0"), Some(Json::Real));
    assert_eq!(Json::parse("18446744073709551616"), Some(Json::Real));
    assert_eq!(Json::parse("1e3"), Some(Json::Real));
}

#[test]
fn parse_reads_strings_with_their_escapes() {
    assert_eq!(Json::parse("\"a\\n\\u00fc\\\"\""), Some(Json::Text("a\n\u{fc}\"".to_string())));
    assert_eq!(Json::parse("[]"), Some(Json::Array(vec![])));
    assert_eq!(Json::parse("{}"), Some(Json::Object(vec![])));
    assert_eq!(Json::parse(" null "), Some(Json::Null));
}

#[test]
fn parse_keeps_the_last_of_two_members_with_one_name() {
    assert_eq!(
        Json::parse("{\"a\":1,\"a\":2}"),
        Some(Json::Object(vec![("a".to_string(), Json::Unsigned(2))]))
    );
}

use bun_docs_mcp_proxy::json::{Json, JsonMember, ObjectBuilder};

#[test]
fn parse_reads_an_object() {
    let tree = Json::parse(r#"{"result": {"tools": []}, "n": -12, "x": 1.5}"#).unwrap();
    let result = tree.get("result").unwrap();
    assert_eq!(result.get("tools"), Some(&Json::Array(vec![])));
    assert_eq!(tree.get("n"), Some(&Json::integer(-12)));
    assert_eq!(tree.get("x"), Some(&Json::Number("1.5".to_owned())));
    assert_eq!(tree.get("missing"), None);
}

#[test]
fn parse_reads_every_kind_of_value() {
    assert_eq!(Json::parse("null"), Some(Json::Null));
    assert_eq!(Json::parse(" true "), Some(Json::Bool(true)));
    assert_eq!(Json::parse("\"a\\u00e9\""), Some(Json::string("aé")));
    assert_eq!(Json::parse("18446744073709551615"), Some(Json::Number("18446744073709551615".to_owned())));
    assert_eq!(Json::parse("1e2"), Some(Json::Number("100.0".to_owned())));
    assert_eq!(
        Json::parse("[1, [2]]"),
        Some(Json::array(vec![
            Json::integer(1),
            Json::array_of(Json::integer(2))
        ]))
    );
    assert_eq!(
        Json::parse_bytes(br#"{"b": 1, "a": {"c": null}}"#),
        Some(
            ObjectBuilder::new()
                .with("a", ObjectBuilder::new().with("c", Json::Null).build())
                .with("b", Json::integer(1))
                .build()
        )
    );
}

#[test]
fn parse_refuses_what_is_no_json() {
    assert_eq!(Json::parse("not valid json"), None);
    assert_eq!(Json::parse(""), None);
    assert_eq!(Json::parse("{} {}"), None);
    assert_eq!(Json::parse_bytes(b"not valid json {]"), None);
    assert_eq!(Json::parse_bytes(&[b'"', 0xff, b'"']), None);
}

#[test]
fn text_round_trip_keeps_the_tree() {
    let tree = Json::object(vec![
        JsonMember::new("b", Json::integer(2)),
        JsonMember::new("a", Json::array(vec![Json::Null, Json::Bool(true), Json::string("x")])),
    ]);
    let text = tree.to_text().unwrap();
    assert_eq!(text, r#"{"a":[null,true,"x"],"b":2}"#);
    let back = Json::parse(&text).unwrap();
    assert_eq!(back.get("b"), Some(&Json::integer(2)));
    assert_eq!(back.get("a"), tree.get("a"));
}

#[test]
fn pretty_text_is_indented() {
    let tree = Json::parse(r#"{"content": [{"text": "test"}]}"#).unwrap();
    assert_eq!(
        tree.to_pretty_text(),
        Ok("{\n  \"content\": [\n    {\n      \"text\": \"test\"\n    }\n  ]\n}".to_owned())
    );
}

#[test]
fn the_last_of_two_equal_keys_counts() {
    let tree = ObjectBuilder::new()
        .with("k", Json::integer(1))
        .with("other", Json::Null)
        .with("k", Json::integer(2))
        .build();
    assert_eq!(tree.get("k"), Some(&Json::integer(2)));
    assert_eq!(tree.to_text(), Ok(r#"{"k":2,"other":null}"#.to_owned()));
    assert_eq!(
        Json::parse(r#"{"k": 1, "k": 2}"#).unwrap().get("k"),
        Some(&Json::integer(2))
    );
}

#[test]
fn only_objects_have_members() {
    for tree in [
        Json::Null,
        Json::Bool(false),
        Json::integer(0),
        Json::string("result"),
        Json::array_of(Json::string("result")),
    ] {
        assert_eq!(tree.get("result"), None);
    }
}

#[test]
fn only_strings_have_text_and_only_arrays_items() {
    assert_eq!(Json::string("x").as_str(), Some("x"));
    assert_eq!(Json::integer(5).as_str(), None);
    assert_eq!(Json::Null.as_str(), None);
    assert_eq!(Json::array(vec![]).as_array(), Some(&vec![]));
    assert_eq!(Json::string("[]").as_array(), None);
    assert_eq!(ObjectBuilder::new().build().as_array(), None);
}

#[test]
fn a_copy_is_equal_to_its_source() {
    let tree = Json::parse(r#"{"a": [1, {"b": "c"}, null, true, 2.5], "d": {}}"#).unwrap();
    assert_eq!(tree.clone(), tree);
    let member = JsonMember::new("k", tree);
    assert_eq!(member.clone(), member);
}

#[test]
fn integers_are_written_in_decimal() {
    assert_eq!(Json::integer(0), Json::Number("0".to_owned()));
    assert_eq!(Json::integer(-32603), Json::Number("-32603".to_owned()));
    assert_eq!(Json::integer(i64::MIN).to_text(), Ok(i64::MIN.to_string()));
}

#[test]
fn a_number_that_is_none_is_written_as_null() {
    assert_eq!(Json::Number("12abc".to_owned()).to_text(), Ok("null".to_owned()));
    assert_eq!(Json::Number("{}".to_owned()).to_text(), Ok("null".to_owned()));
    assert_eq!(Json::Number("1.50".to_owned()).to_text(), Ok("1.5".to_owned()));
}

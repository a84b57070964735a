use plate_handler::json::{child_of, parse, render, text_in, Json, Member, Number};

fn sample() -> Json {
    parse("{\"a\":{\"b\":\"deep\"},\"n\":7,\"neg\":-7,\"x\":0.25,\"ok\":true,\"list\":[1,\"two\",null]}")
        .unwrap()
}

#[test]
fn parse_reads_scalars() {
    assert_eq!(parse("null"), Some(Json::Null));
    assert_eq!(parse("true"), Some(Json::Bool(true)));
    assert_eq!(parse("7"), Some(Json::Number(Number::Unsigned(7))));
    assert_eq!(parse("-7"), Some(Json::Number(Number::Signed(-7))));
    assert_eq!(parse("0.9"), Some(Json::Number(Number::Real("0.9".to_string()))));
    assert_eq!(parse("\"a\""), Some(Json::Str("a".to_string())));
}

#[test]
fn parse_reads_nested_values() {
    let doc = parse("{\"k\":[{\"z\":1},[]]}").unwrap();
    let expected = Json::Object(vec![Member {
        key: "k".to_string(),
        value: Json::Array(vec![
            Json::Object(vec![Member { key: "z".to_string(), value: Json::Number(Number::Unsigned(1)) }]),
            Json::Array(vec![]),
        ]),
    }]);
    assert_eq!(doc, expected);
}

#[test]
fn parse_rejects_what_is_not_json() {
    assert_eq!(parse(""), None);
    assert_eq!(parse("{"), None);
    assert_eq!(parse("{} x"), None);
    assert_eq!(parse("{'a':1}"), None);
}

#[test]
fn parse_keeps_the_later_of_two_equal_keys() {
    let doc = parse("{\"a\":1,\"a\":2}").unwrap();
    assert_eq!(doc.member("a").and_then(|v| v.as_u64()), Some(2));
}

#[test]
fn render_writes_compact_text() {
    let doc = Json::Object(vec![
        Member { key: "type".to_string(), value: Json::Str("auth".to_string()) },
        Member {
            key: "n".to_string(),
            value: Json::Array(vec![Json::Number(Number::Real("0.5".to_string())), Json::Null]),
        },
    ]);
    assert_eq!(render(&doc), "{\"n\":[0.5,null],\"type\":\"auth\"}");
}

#[test]
fn render_escapes_text() {
    assert_eq!(render(&Json::text("a\"b\\c\n")), "\"a\\\"b\\\\c\\n\"");
}

#[test]
fn render_writes_numbers() {
    assert_eq!(render(&Json::unsigned(18446744073709551615)), "18446744073709551615");
    assert_eq!(render(&Json::Number(Number::Signed(-3))), "-3");
    assert_eq!(render(&Json::Number(Number::Real("1e-7".to_string()))), "1e-7");
    assert_eq!(render(&Json::Number(Number::Real("not a number".to_string()))), "null");
}

#[test]
fn render_then_parse_gives_the_document_back() {
    let doc = sample();
    assert_eq!(parse(&render(&doc)), Some(doc));
}

#[test]
fn member_finds_the_last_member_of_that_name() {
    let doc = Json::object(vec![
        Member::new("a", Json::unsigned(1)),
        Member::new("b", Json::unsigned(2)),
        Member::new("a", Json::unsigned(3)),
    ]);
    assert_eq!(doc.member("a"), Some(&Json::unsigned(3)));
    assert_eq!(doc.member("b"), Some(&Json::unsigned(2)));
    assert_eq!(doc.member("c"), None);
}

#[test]
fn member_of_what_is_no_object_is_none() {
    assert_eq!(Json::Null.member("a"), None);
    assert_eq!(Json::text("a").member("a"), None);
    assert_eq!(Json::Array(vec![Json::Null]).member("0"), None);
}

#[test]
fn accessors_tell_the_kinds_apart() {
    let doc = sample();
    assert_eq!(doc.member("n").unwrap().as_u64(), Some(7));
    assert_eq!(doc.member("neg").unwrap().as_u64(), None);
    assert_eq!(doc.member("x").unwrap().as_u64(), None);
    assert_eq!(doc.member("ok").unwrap().as_bool(), Some(true));
    assert_eq!(doc.member("n").unwrap().as_bool(), None);
    assert_eq!(doc.member("ok").unwrap().as_str(), None);
    assert_eq!(doc.member("list").unwrap().as_array().map(|a| a.len()), Some(3));
    assert_eq!(doc.member("a").unwrap().as_array(), None);
    assert_eq!(doc.member("x").unwrap().as_number(), Some(&Number::Real("0.25".to_string())));
    assert_eq!(doc.member("ok").unwrap().as_number(), None);
}

#[test]
fn as_u64_takes_a_signed_number_that_is_not_negative() {
    assert_eq!(Json::Number(Number::Signed(5)).as_u64(), Some(5));
    assert_eq!(Json::Number(Number::Signed(-1)).as_u64(), None);
    assert_eq!(Json::Number(Number::Signed(0)).as_u64(), Some(0));
}

#[test]
fn child_of_walks_down_a_path() {
    let doc = sample();
    assert_eq!(text_in(child_of(doc.member("a"), "b")), Some("deep"));
    assert_eq!(text_in(child_of(doc.member("a"), "c")), None);
    assert_eq!(text_in(child_of(doc.member("missing"), "b")), None);
    assert_eq!(text_in(child_of(doc.member("n"), "b")), None);
    assert_eq!(text_in(doc.member("n")), None);
}

#[test]
fn clone_copies_the_whole_document() {
    let doc = sample();
    assert_eq!(doc.clone(), doc);
    assert_eq!(Number::Real("0.5".to_string()).clone(), Number::Real("0.5".to_string()));
}

#[test]
fn render_writes_the_later_of_two_equal_keys() {
    let doc = Json::object(vec![
        Member::new("a", Json::unsigned(1)),
        Member::new("b", Json::unsigned(2)),
        Member::new("a", Json::unsigned(3)),
    ]);
    assert_eq!(render(&doc), "{\"a\":3,\"b\":2}");
}

#[test]
fn render_sorts_the_keys() {
    let doc = Json::object(vec![
        Member::new("type", Json::text("auth")),
        Member::new("access_token", Json::text("T")),
    ]);
    assert_eq!(render(&doc), "{\"access_token\":\"T\",\"type\":\"auth\"}");
}

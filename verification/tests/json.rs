use bandcamp::error::Error;
use bandcamp::json::parse;
use bandcamp::tree::Payload;

#[test]
fn parse_reads_a_record_with_sorted_fields() {
    let got = parse("{\"b\": [1, 2.5, null], \"a\": \"x\"}");
    let want = Payload::Record(vec![
        ("a".to_string(), Payload::Text("x".to_string())),
        (
            "b".to_string(),
            Payload::List(vec![
                Payload::Number("1".to_string()),
                Payload::Number("2.5".to_string()),
                Payload::Null,
            ]),
        ),
    ]);
    assert_eq!(got, Ok(want));
}

#[test]
fn parse_rejects_text_that_is_not_json() {
    assert_eq!(parse("{\"a\": "), Err(Error::PayloadDecodeError));
}

#[test]
fn parse_reads_every_kind_of_value() {
    assert_eq!(parse("null"), Ok(Payload::Null));
    assert_eq!(parse("true"), Ok(Payload::Bool(true)));
    assert_eq!(parse("false"), Ok(Payload::Bool(false)));
    assert_eq!(parse("\"a\\u00e9\\n\""), Ok(Payload::Text("a\u{e9}\n".to_string())));
    assert_eq!(parse("[]"), Ok(Payload::List(vec![])));
    assert_eq!(parse("{}"), Ok(Payload::Record(vec![])));
    assert_eq!(parse(" [ [ ] ] "), Ok(Payload::List(vec![Payload::List(vec![])])));
}

#[test]
fn parse_keeps_a_number_as_its_decimal_text() {
    let number = |s: &str| Ok(Payload::Number(s.to_string()));
    assert_eq!(parse("0"), number("0"));
    assert_eq!(parse("18446744073709551615"), number("18446744073709551615"));
    assert_eq!(parse("-5"), number("-5"));
    assert_eq!(parse("7.0"), number("7.0"));
    assert_eq!(parse("7.50"), number("7.5"));
    assert_eq!(parse("12.99"), number("12.99"));
    assert_eq!(parse("185.3"), number("185.3"));
}

#[test]
fn parse_keeps_the_last_of_fields_with_one_name() {
    assert_eq!(
        parse("{\"a\": 1, \"a\": 2}"),
        Ok(Payload::Record(vec![("a".to_string(), Payload::Number("2".to_string()))]))
    );
}

#[test]
fn parse_rejects_what_is_not_one_document() {
    for text in ["", " ", "{", "[1,]", "{\"a\"}", "nul", "1 2", "{} x", "'a'", "{a: 1}"] {
        assert_eq!(parse(text), Err(Error::PayloadDecodeError), "{}", text);
    }
}

use tella::json::Json;

#[test]
fn decode_reads_an_object_with_every_kind_of_value() {
    let doc = Json::decode("{\"s\":\"x\",\"b\":true,\"n\":null,\"k\":1.5,\"a\":[\"p\",2],\"o\":{\"i\":\"q\"}}")
        .unwrap();
    assert_eq!(doc.text_member("s").map(|s| s.as_str()), Some("x"));
    assert_eq!(doc.flag_member("b"), Some(true));
    assert!(doc.member("n").unwrap().is_null());
    assert!(matches!(doc.member("k"), Some(Json::Number)));
    let a = doc.member("a").unwrap();
    assert_eq!(a.length(), Some(2));
    assert_eq!(a.element(0).unwrap().text().map(|s| s.as_str()), Some("p"));
    assert!(a.element(2).is_none());
    assert_eq!(doc.member("o").unwrap().text_member("i").map(|s| s.as_str()), Some("q"));
}

#[test]
fn lookups_on_the_wrong_kind_find_nothing() {
    let doc = Json::decode("[1]").unwrap();
    assert!(doc.member("x").is_none());
    assert!(doc.text().is_none());
    assert!(doc.flag().is_none());
    let text = Json::decode("\"hi\"").unwrap();
    assert!(text.element(0).is_none());
    assert_eq!(text.length(), None);
    assert_eq!(text.text().map(|s| s.as_str()), Some("hi"));
    let object = Json::decode("{\"a\":1}").unwrap();
    assert!(object.member("b").is_none());
    assert!(object.text_member("a").is_none());
    assert_eq!(object.flag_member("a"), None);
}

#[test]
fn decode_fails_with_the_decoders_message() {
    let e = Json::decode("```json").unwrap_err();
    assert_eq!(e, "expected value at line 1 column 1");
    assert!(Json::decode("").is_err());
    assert!(Json::decode("{\"a\":1} trailing").is_err());
    assert!(Json::decode("  {\"a\":1}\n").is_ok());
}

#[test]
fn escapes_in_strings_are_decoded() {
    let doc = Json::decode("{\"c\":\"echo \\\"hi\\\"\\n\"}").unwrap();
    assert_eq!(doc.text_member("c").map(|s| s.as_str()), Some("echo \"hi\"\n"));
}

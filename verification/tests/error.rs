use fingerprint_kit::{Error, JsonErrorCategory};

#[test]
fn json_errors_do_not_echo_attacker_controlled_payloads() {
    let source = "\"SENTINEL_BIOMETRIC_PAYLOAD\"";
    let raw = serde_json::from_str::<u32>(source).err().unwrap();
    let category = match raw.classify() {
        serde_json::error::Category::Io => JsonErrorCategory::Io,
        serde_json::error::Category::Syntax => JsonErrorCategory::Syntax,
        serde_json::error::Category::Data => JsonErrorCategory::Data,
        serde_json::error::Category::Eof => JsonErrorCategory::Eof,
    };
    let error = Error::json(category, raw.line(), raw.column());
    let rendered = error.message();
    assert!(rendered.contains("JSON data error"));
    assert!(!rendered.contains("SENTINEL_BIOMETRIC_PAYLOAD"));
}

#[test]
fn error_texts_are_exact() {
    assert_eq!(
        Error::json(JsonErrorCategory::Syntax, 3, 17).message(),
        "JSON syntax error at line 3 column 17"
    );
    assert_eq!(Error::json(JsonErrorCategory::Eof, 1, 0).message(), "JSON EOF error at line 1 column 0");
    assert_eq!(Error::json(JsonErrorCategory::Io, 0, 0).message(), "JSON I/O error at line 0 column 0");
    assert_eq!(Error::io("not found").message(), "I/O error: not found");
    assert_eq!(Error::invalid("bad").message(), "bad");
    assert_eq!(Error::labelled("a: ", "b").message(), "a: b");
    assert_eq!(
        Error::processing("quote \" here").debug_text(),
        "Error { message: \"quote \\\" here\" }"
    );
}

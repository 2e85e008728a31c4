use attestation_service::attestation::parse_evidence;
use attestation_service::Error;
use serde_json::Value;

fn evidence_of(v: &Value) -> String {
    v.to_string()
}

fn full_evidence() -> Value {
    let mut m = serde_json::Map::new();
    m.insert("tee".to_string(), Value::String("sample".to_string()));
    m.insert("quote".to_string(), Value::String("{\"svn\": 1}".to_string()));
    m.insert("ehd".to_string(), Value::String("{\"nonce\": \"n\"}".to_string()));
    m.insert("aad".to_string(), Value::String("".to_string()));
    Value::Object(m)
}

#[test]
fn test_parse_evidence_fields() {
    let text = evidence_of(&full_evidence());
    let ev = parse_evidence(&text).unwrap();
    assert_eq!(ev.tee, "sample");
    assert_eq!(ev.quote, "{\"svn\": 1}");
    assert_eq!(ev.ehd, "{\"nonce\": \"n\"}");
    assert_eq!(ev.aad, "");
}

#[test]
fn test_parse_evidence_embedded_escapes() {
    // the quote travels as a JSON string: its quotes arrive escaped and
    // must come back exactly
    let mut v = full_evidence();
    v["quote"] = Value::String("{\"report_data\": \"a\\\"b\\\\c\"}".to_string());
    let text = evidence_of(&v);
    let ev = parse_evidence(&text).unwrap();
    assert_eq!(ev.quote, "{\"report_data\": \"a\\\"b\\\\c\"}");
}

#[test]
fn test_parse_evidence_unicode_escape() {
    let text = "{\"tee\": \"s\\u0061mple\", \"quote\": \"q\", \"ehd\": \"e\", \"aad\": \"\\u00e9\\ud83d\\ude00\"}";
    let ev = parse_evidence(text).unwrap();
    assert_eq!(ev.tee, "sample");
    assert_eq!(ev.aad, "\u{e9}\u{1F600}");
}

#[test]
fn test_parse_evidence_key_order_free() {
    let text = "{\"aad\": \"\", \"ehd\": \"e\", \"quote\": \"q\", \"tee\": \"sample\"}";
    let ev = parse_evidence(text).unwrap();
    assert_eq!(ev.tee, "sample");
    assert_eq!(ev.quote, "q");
}

#[test]
fn test_parse_evidence_rejects_duplicate_field() {
    let text = "{\"tee\": \"a\", \"tee\": \"b\", \"quote\": \"q\", \"ehd\": \"e\", \"aad\": \"\"}";
    assert!(matches!(parse_evidence(text), Err(Error::MalformedEvidence)));
}

#[test]
fn test_parse_evidence_rejects_missing_field() {
    let text = "{\"tee\": \"a\", \"quote\": \"q\", \"ehd\": \"e\"}";
    assert!(matches!(parse_evidence(text), Err(Error::MalformedEvidence)));
}

#[test]
fn test_parse_evidence_rejects_non_string_field() {
    let text = "{\"tee\": 3, \"quote\": \"q\", \"ehd\": \"e\", \"aad\": \"\"}";
    assert!(matches!(parse_evidence(text), Err(Error::MalformedEvidence)));
}

#[test]
fn test_parse_evidence_ignores_unknown_scalar_field() {
    let text = "{\"tee\": \"t\", \"quote\": \"q\", \"ehd\": \"e\", \"aad\": \"\", \"extra\": null, \"n\": -1.5e3}";
    let ev = parse_evidence(text).unwrap();
    assert_eq!(ev.tee, "t");
}

#[test]
fn test_parse_evidence_rejects_trailing_text() {
    let text = "{\"tee\": \"t\", \"quote\": \"q\", \"ehd\": \"e\", \"aad\": \"\"} tail";
    assert!(matches!(parse_evidence(text), Err(Error::MalformedEvidence)));
}

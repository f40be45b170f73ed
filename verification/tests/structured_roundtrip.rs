// Structured mode prints the parsed document verbatim, so the bytes it emits
// must parse back to the same document.

use serde_json::Value;

fn roundtrip(body: &str) {
    let doc: Value = serde_json::from_str(body).expect("well-formed body");
    let emitted = doc.to_string();
    let reparsed: Value = serde_json::from_str(&emitted).expect("emitted output parses");
    assert_eq!(reparsed, doc);
}

#[test]
fn stats_body_roundtrips() {
    roundtrip(r#"{"data":[{"start_time":1000,"requests":5},{"start_time":1060,"requests":7}]}"#);
}

#[test]
fn mixed_body_roundtrips() {
    roundtrip(r#"{"a":null,"b":[1,2.5,"s",true],"c":{"d":{}},"e":18446744073709551615}"#);
}

#[test]
fn non_object_body_roundtrips() {
    roundtrip("[1,2,3]");
    roundtrip("\"just a string\"");
    roundtrip("null");
}

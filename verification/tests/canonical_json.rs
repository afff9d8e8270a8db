use tenant_tail_core::canonical::write_manifest_form;
use tenant_tail_core::inter_stage_manifest::{InterStageManifest, ManifestSigner};
use tenant_tail_core::json::{push_json, push_json_str, JsonValue};
use tenant_tail_core::sorted_map::SortedMap;

/// A serde_json value as the library holds it, members in map order.
fn json_from(v: &serde_json::Value) -> JsonValue {
    match v {
        serde_json::Value::Null => JsonValue::Null,
        serde_json::Value::Bool(b) => JsonValue::Bool(*b),
        serde_json::Value::Number(n) => JsonValue::Number(n.to_string()),
        serde_json::Value::String(s) => JsonValue::Str(s.clone()),
        serde_json::Value::Array(items) => JsonValue::Array(items.iter().map(json_from).collect()),
        serde_json::Value::Object(members) => {
            JsonValue::Object(members.iter().map(|(k, v)| (k.clone(), json_from(v))).collect())
        }
    }
}

const TRICKY: [&str; 8] = [
    "",
    "plain",
    "quote \" and backslash \\",
    "lines\nand\ttabs\rand\u{8}\u{c}",
    "control \u{1}\u{1f} and del \u{7f}",
    "unicode é ß 漢字 🦀",
    "separators \u{2028}\u{2029}",
    "slash / stays",
];

#[test]
fn json_string_text_matches_serde_json() {
    for s in TRICKY {
        let mut out = String::new();
        push_json_str(&mut out, s);
        assert_eq!(out, serde_json::to_string(s).unwrap(), "for {s:?}");
    }
}

#[test]
fn json_value_text_matches_serde_json() {
    let texts = [
        r#"{"b":[1,2.5,-3,true,false,null],"a":{"z":"x\ny","é":"\u0001"},"":{}}"#,
        r#"[{"k":[[],{}]},"\u2028",1e5,-0.0,12345678901234567890]"#,
        r#""just a string""#,
        "0",
    ];
    for t in texts {
        let v: serde_json::Value = serde_json::from_str(t).unwrap();
        let mut out = String::new();
        push_json(&mut out, &json_from(&v));
        assert_eq!(out, serde_json::to_string(&v).unwrap(), "for {t}");
    }
}

#[test]
fn manifest_form_is_the_serde_json_text_of_its_fields() {
    let mut metadata = SortedMap::new();
    metadata.insert("zeta".to_string(), JsonValue::Str("last \"quoted\"".to_string()));
    metadata.insert("alpha".to_string(), JsonValue::Array(vec![JsonValue::Number("1".to_string()), JsonValue::Null]));
    let m = InterStageManifest {
        run_id: "run\u{1}".to_string(),
        from_stage: "build".to_string(),
        to_stage: "test".to_string(),
        produced_at: "2026-07-01T00:00:00Z".to_string(),
        artifact_hashes: SortedMap::from_entries(vec![
            ("b.txt".to_string(), "02".to_string()),
            ("a.txt".to_string(), "01".to_string()),
        ]),
        metadata,
        signer: ManifestSigner { agent_id: "agent://build".to_string(), ephemeral_key_id: "fp".to_string() },
        signature: "sig".to_string(),
    };
    let mut out = String::new();
    write_manifest_form(&mut out, &m, &m.signature);
    // Each field's text is serde_json's text of that field, maps in key order.
    let parsed: serde_json::Value = serde_json::from_str(&out).unwrap();
    assert_eq!(parsed["runId"], "run\u{1}");
    let hashes = serde_json::to_string(&parsed["artifactHashes"]).unwrap();
    assert_eq!(hashes, r#"{"a.txt":"01","b.txt":"02"}"#);
    assert!(out.contains(&format!("\"artifactHashes\":{hashes}")));
    let meta = serde_json::to_string(&parsed["metadata"]).unwrap();
    assert!(out.contains(&format!("\"metadata\":{meta}")));
    assert!(out.contains(&format!("\"runId\":{}", serde_json::to_string("run\u{1}").unwrap())));
}

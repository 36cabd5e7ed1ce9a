use caravel::protocol::{
    decode_response, encode_response, entry_point, parse_response, read_response, resolve,
    response_document, schema_entry_point, CaravelModuleResponse, CaravelModuleResponseState,
    ProtocolError,
};
use caravel::ExecutionPhase;

fn object(members: Vec<(&str, serde_json::Value)>) -> serde_json::Value {
    let mut map = serde_json::Map::new();
    for (key, value) in members {
        map.insert(key.to_string(), value);
    }
    serde_json::Value::Object(map)
}

fn text(s: &str) -> serde_json::Value {
    serde_json::Value::String(s.to_string())
}

#[test]
fn entry_points_append_the_phase() {
    assert_eq!(entry_point("File", ExecutionPhase::Validating), "FileValidate");
    assert_eq!(entry_point("File", ExecutionPhase::Applying), "FileApply");
    assert_eq!(entry_point("", ExecutionPhase::Applying), "Apply");
    assert_eq!(schema_entry_point("File"), "FileDumpLua");
    for name in ["", "File", "FileApply", "Valid"] {
        assert_ne!(
            entry_point(name, ExecutionPhase::Validating),
            entry_point(name, ExecutionPhase::Applying)
        );
    }
}

#[test]
fn success_carries_the_parsed_module() {
    let wire = r#"{"state":"Success","message":"Success","raw_module":"{\"path\":\"/tmp/x\",\"state\":\"present\"}","module":null}"#;
    let response = decode_response(wire.as_bytes()).unwrap();
    assert_eq!(response.state, CaravelModuleResponseState::Success);
    assert_eq!(response.message, "Success");
    assert_eq!(response.raw_module, r#"{"path":"/tmp/x","state":"present"}"#);
    let expected = object(vec![("path", text("/tmp/x")), ("state", text("present"))]);
    assert_eq!(response.module, Some(expected));
}

#[test]
fn module_equals_parse_of_raw_module() {
    for raw in ["null", "17", "[1,2,3]", "\"s\"", "{\"a\":{\"b\":[true,false]}}"] {
        let response = resolve(
            CaravelModuleResponseState::Success,
            "ok".to_string(),
            raw.to_string(),
        )
        .unwrap();
        let parsed: serde_json::Value = serde_json::from_str(raw).unwrap();
        assert_eq!(response.module, Some(parsed));
        assert_eq!(response.raw_module, raw);
        assert_eq!(response.message, "ok");
    }
}

#[test]
fn error_has_no_module() {
    let response = resolve(
        CaravelModuleResponseState::Error,
        "bad mode".to_string(),
        "{\"a\":1}".to_string(),
    )
    .unwrap();
    assert_eq!(response.state, CaravelModuleResponseState::Error);
    assert_eq!(response.module, None);
    assert_eq!(response.raw_module, "{\"a\":1}");

    let wire = r#"{"state":"Error","message":"bad mode","raw_module":"","module":{"x":1}}"#;
    let response = decode_response(wire.as_bytes()).unwrap();
    assert_eq!(response.module, None);
    assert_eq!(response.message, "bad mode");
}

#[test]
fn error_may_leave_raw_module_out() {
    let response = parse_response(r#"{"state":"Error","message":"bad mode"}"#).unwrap();
    assert_eq!(
        response,
        CaravelModuleResponse {
            state: CaravelModuleResponseState::Error,
            message: "bad mode".to_string(),
            raw_module: String::new(),
            module: None,
        }
    );
}

#[test]
fn success_needs_raw_module() {
    assert_eq!(
        parse_response(r#"{"state":"Success","message":"Success"}"#),
        Err(ProtocolError::SchemaMismatch)
    );
    assert_eq!(
        parse_response(r#"{"state":"Success","message":"Success","raw_module":{}}"#),
        Err(ProtocolError::SchemaMismatch)
    );
    assert_eq!(
        parse_response(r#"{"state":"Error","message":"m","raw_module":3}"#),
        Err(ProtocolError::SchemaMismatch)
    );
}

#[test]
fn success_needs_json_in_raw_module() {
    assert_eq!(
        parse_response(r#"{"state":"Success","message":"Success","raw_module":"{oops"}"#),
        Err(ProtocolError::InvalidModule)
    );
    assert_eq!(
        parse_response(r#"{"state":"Success","message":"Success","raw_module":""}"#),
        Err(ProtocolError::InvalidModule)
    );
}

#[test]
fn schema_is_enforced() {
    for wire in [
        r#"{}"#,
        r#"[]"#,
        r#""Success""#,
        r#"null"#,
        r#"{"message":"m","raw_module":"{}"}"#,
        r#"{"state":"success","message":"m","raw_module":"{}"}"#,
        r#"{"state":"Done","message":"m","raw_module":"{}"}"#,
        r#"{"state":1,"message":"m","raw_module":"{}"}"#,
        r#"{"state":"Success","raw_module":"{}"}"#,
        r#"{"state":"Error","message":null}"#,
        r#"{"state":"Error","message":["m"]}"#,
    ] {
        assert_eq!(parse_response(wire), Err(ProtocolError::SchemaMismatch), "{}", wire);
    }
}

#[test]
fn text_must_be_json() {
    for wire in ["", "{", "{\"state\":\"Success\"", "state=Success", "{} {}"] {
        assert_eq!(parse_response(wire), Err(ProtocolError::InvalidJson), "{}", wire);
    }
}

#[test]
fn bytes_must_be_utf8() {
    assert_eq!(decode_response(&[0xff, 0xfe]), Err(ProtocolError::InvalidUtf8));
    assert_eq!(decode_response(&[b'{', 0xc3]), Err(ProtocolError::InvalidUtf8));
    assert_eq!(decode_response(&[0xed, 0xa0, 0x80]), Err(ProtocolError::InvalidUtf8));
    assert_eq!(decode_response(b""), Err(ProtocolError::InvalidJson));
    let wire = "{\"state\":\"Error\",\"message\":\"caf\u{e9} \u{1f980}\"}";
    let response = decode_response(wire.as_bytes()).unwrap();
    assert_eq!(response.message, "caf\u{e9} \u{1f980}");
}

#[test]
fn read_response_takes_a_document() {
    let doc = object(vec![
        ("state", text("Success")),
        ("message", text("fine")),
        ("raw_module", text("[1]")),
        ("extra", text("ignored")),
    ]);
    let response = read_response(&doc).unwrap();
    assert_eq!(response.message, "fine");
    assert_eq!(response.module, Some(serde_json::from_str("[1]").unwrap()));
    assert_eq!(read_response(&text("Success")), Err(ProtocolError::SchemaMismatch));
}

#[test]
fn document_has_the_four_members() {
    let response = CaravelModuleResponse {
        state: CaravelModuleResponseState::Success,
        message: "Success".to_string(),
        raw_module: "{\"a\":1}".to_string(),
        module: None,
    };
    let doc = response_document(response);
    let expected = object(vec![
        ("state", text("Success")),
        ("message", text("Success")),
        ("raw_module", text("{\"a\":1}")),
        ("module", serde_json::Value::Null),
    ]);
    assert_eq!(doc, expected);

    let with_module = CaravelModuleResponse {
        state: CaravelModuleResponseState::Error,
        message: "no".to_string(),
        raw_module: String::new(),
        module: Some(text("kept")),
    };
    let doc = response_document(with_module);
    assert_eq!(doc.get("module"), Some(&text("kept")));
    assert_eq!(doc.get("state"), Some(&text("Error")));
    assert_eq!(doc.as_object().unwrap().len(), 4);
}

#[test]
fn encoded_response_reads_back() {
    let sent = CaravelModuleResponse {
        state: CaravelModuleResponseState::Success,
        message: "Success".to_string(),
        raw_module: "{\"path\":\"/tmp/x\"}".to_string(),
        module: None,
    };
    let wire = encode_response(sent);
    assert_eq!(
        wire,
        r#"{"message":"Success","module":null,"raw_module":"{\"path\":\"/tmp/x\"}","state":"Success"}"#
    );
    let read = decode_response(wire.as_bytes()).unwrap();
    assert_eq!(read.state, CaravelModuleResponseState::Success);
    assert_eq!(read.message, "Success");
    assert_eq!(read.raw_module, "{\"path\":\"/tmp/x\"}");
    assert_eq!(read.module, Some(object(vec![("path", text("/tmp/x"))])));

    let refused = CaravelModuleResponse {
        state: CaravelModuleResponseState::Error,
        message: "bad \"mode\"\n".to_string(),
        raw_module: String::new(),
        module: None,
    };
    let read = decode_response(encode_response(refused.clone()).as_bytes()).unwrap();
    assert_eq!(read, refused);
}

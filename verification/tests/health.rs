use note_backend::cors::headers;
use note_backend::health::{health_check, health_report, json_reply, HealthReport};
use note_backend::reply::{header, Header, Reply};

fn text_member(object: &serde_json::Map<String, serde_json::Value>, name: &str) -> String {
    match object.get(name) {
        Some(serde_json::Value::String(text)) => text.clone(),
        other => panic!("member {} is {:?}", name, other),
    }
}

#[test]
fn report_is_the_fixed_record() {
    let expected = HealthReport {
        status: "ok".to_string(),
        service: "note-backend".to_string(),
        version: "0.1.0".to_string(),
    };
    assert_eq!(health_report(), expected);
}

#[test]
fn report_is_the_same_on_every_call() {
    assert_eq!(health_report(), health_report());
    assert_eq!(health_check(), health_check());
}

#[test]
fn health_check_is_a_success_with_a_json_content_type() {
    let reply: Reply = health_check();
    assert_eq!(reply.status, 200);
    assert_eq!(reply.headers[0], header("content-type", "application/json"));
}

#[test]
fn health_check_body_is_the_json_object_of_the_report() {
    let reply: Reply = health_check();
    let parsed: serde_json::Value = match serde_json::from_slice(&reply.body) {
        Ok(value) => value,
        Err(error) => panic!("the body is not JSON: {}", error),
    };
    let mut members = serde_json::Map::new();
    members.insert("status".to_string(), serde_json::Value::String("ok".to_string()));
    members.insert("service".to_string(), serde_json::Value::String("note-backend".to_string()));
    members.insert("version".to_string(), serde_json::Value::String("0.1.0".to_string()));
    assert_eq!(parsed, serde_json::Value::Object(members));
}

#[test]
fn health_check_body_has_three_text_members_and_no_other() {
    let reply: Reply = health_check();
    let parsed: serde_json::Value = match serde_json::from_slice(&reply.body) {
        Ok(value) => value,
        Err(error) => panic!("the body is not JSON: {}", error),
    };
    let object = match parsed {
        serde_json::Value::Object(object) => object,
        other => panic!("the body is {:?}", other),
    };
    assert_eq!(object.len(), 3);
    assert_eq!(text_member(&object, "status"), "ok");
    assert_eq!(text_member(&object, "service"), "note-backend");
    assert_eq!(text_member(&object, "version"), "0.1.0");
}

#[test]
fn health_check_body_is_compact_text() {
    let reply: Reply = health_check();
    let text = match String::from_utf8(reply.body) {
        Ok(text) => text,
        Err(error) => panic!("the body is not text: {}", error),
    };
    assert!(text.starts_with('{'));
    assert!(text.ends_with('}'));
    assert!(text.contains("\"status\":\"ok\""));
    assert!(text.contains("\"service\":\"note-backend\""));
    assert!(text.contains("\"version\":\"0.1.0\""));
    assert!(!text.contains(' '));
    assert!(!text.contains('\n'));
    assert_eq!(text.len(), 58);
}

#[test]
fn health_check_carries_the_cross_origin_policy() {
    let reply: Reply = health_check();
    let policy: Vec<Header> = headers();
    for line in &policy {
        assert!(reply.headers.contains(line), "{:?}", line);
    }
    assert_eq!(reply.headers.len(), 4);
}

#[test]
fn json_reply_wraps_the_document_unchanged() {
    let document: Vec<u8> = vec![123, 125];
    let reply: Reply = json_reply(document.clone());
    assert_eq!(reply.status, 200);
    assert_eq!(reply.body, document);
    let mut expected: Vec<Header> = vec![header("content-type", "application/json")];
    expected.extend(headers());
    assert_eq!(reply.headers, expected);
}

#[test]
fn report_with_quotes_and_controls_is_escaped_and_reads_back() {
    let report = HealthReport {
        status: "a \"quoted\" word\n".to_string(),
        service: "back\\slash \u{0}\u{1f}".to_string(),
        version: "\u{e9}\u{4e2d}\u{1f680}".to_string(),
    };
    let document: Vec<u8> = report.to_json();
    let parsed: serde_json::Value = match serde_json::from_slice(&document) {
        Ok(value) => value,
        Err(error) => panic!("the document is not JSON: {}", error),
    };
    let object = match parsed {
        serde_json::Value::Object(object) => object,
        other => panic!("the document is {:?}", other),
    };
    assert_eq!(object.len(), 3);
    assert_eq!(text_member(&object, "status"), report.status);
    assert_eq!(text_member(&object, "service"), report.service);
    assert_eq!(text_member(&object, "version"), report.version);
}

#[test]
fn report_is_written_as_the_encoder_writes_the_same_object() {
    let mut members = serde_json::Map::new();
    members.insert("status".to_string(), serde_json::Value::String("ok".to_string()));
    members.insert("service".to_string(), serde_json::Value::String("note-backend".to_string()));
    members.insert("version".to_string(), serde_json::Value::String("0.1.0".to_string()));
    let expected: Vec<u8> = match serde_json::to_vec(&serde_json::Value::Object(members)) {
        Ok(bytes) => bytes,
        Err(error) => panic!("{}", error),
    };
    assert_eq!(health_report().to_json(), expected);
    assert_eq!(health_check().body, expected);
}

#[test]
fn empty_report_is_an_object_of_three_empty_texts() {
    let report = HealthReport {
        status: String::new(),
        service: String::new(),
        version: String::new(),
    };
    let text = match String::from_utf8(report.to_json()) {
        Ok(text) => text,
        Err(error) => panic!("the document is not text: {}", error),
    };
    assert_eq!(text.len(), 39);
    assert!(text.contains("\"status\":\"\""));
    assert!(text.contains("\"service\":\"\""));
    assert!(text.contains("\"version\":\"\""));
}

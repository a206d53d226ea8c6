use voyeur::entries::{create_many_entries, create_one_entry, handle_bad_request_errors};
use voyeur::errors::{ErrorDetail, ErrorMessage};
use voyeur::model::{Entry, Payload, DEFAULT_BUFFER_LIMIT};
use voyeur::namespace::Namespace;
use voyeur::outcome::GuardOutcome;
use voyeur::responders::{CustomResponder, FieldValue};

fn field<'a>(r: &'a CustomResponder, name: &str) -> Option<&'a FieldValue> {
    r.fields().iter().find(|(k, _)| k == name).map(|(_, v)| v)
}

fn field_text(r: &CustomResponder, name: &str) -> Option<String> {
    match field(r, name) {
        Some(FieldValue::Text(t)) => Some(t.clone()),
        _ => None,
    }
}

fn rejected<T>(o: GuardOutcome<T>) -> ErrorDetail {
    match o {
        GuardOutcome::Reject(d) => d,
        GuardOutcome::Accept(_) => panic!("accepted"),
        GuardOutcome::Forward => panic!("forwarded"),
    }
}

fn accepted<T>(o: GuardOutcome<T>) -> T {
    match o {
        GuardOutcome::Accept(v) => v,
        GuardOutcome::Reject(d) => panic!("rejected: {}", d.code),
        GuardOutcome::Forward => panic!("forwarded"),
    }
}

#[test]
fn limit_defaults_to_one_mebibyte() {
    let mut ctx = ErrorMessage::new();
    assert_eq!(accepted(Entry::read_limit(true, None, &mut ctx)), 1048576);
    assert_eq!(DEFAULT_BUFFER_LIMIT, 1048576);
}

#[test]
fn limit_from_header() {
    let mut ctx = ErrorMessage::new();
    assert_eq!(accepted(Entry::read_limit(true, Some("10"), &mut ctx)), 10);
    assert_eq!(accepted(Entry::read_limit(true, Some("4294967295"), &mut ctx)), 4294967295);
    assert_eq!(accepted(Entry::read_limit(true, Some("0"), &mut ctx)), 0);
}

#[test]
fn limit_header_that_does_not_parse() {
    let mut ctx = ErrorMessage::new();
    let d = rejected(Entry::read_limit(true, Some("4294967296"), &mut ctx));
    assert_eq!(d.code, "err_content_length_parse");
    let std_text = "4294967296".parse::<u32>().unwrap_err().to_string();
    assert_eq!(
        d.message,
        format!("Couldn't parse X-Content-Length with error: '{}'!", std_text)
    );
    let mut ctx = ErrorMessage::new();
    let d = rejected(Entry::read_limit(true, Some("-1"), &mut ctx));
    assert_eq!(d.code, "err_content_length_parse");
    assert_eq!(ctx.read().unwrap().code, "err_content_length_parse");
}

#[test]
fn non_json_body_is_forwarded() {
    let mut ctx = ErrorMessage::new();
    assert!(matches!(Entry::read_limit(false, Some("junk"), &mut ctx), GuardOutcome::Forward));
    assert!(ctx.read().is_none());
}

#[test]
fn object_body_is_one_entry() {
    let mut ctx = ErrorMessage::new();
    let body = br#"{"text":"hi"}"#.to_vec();
    match accepted(Entry::from_data(1048576, Ok(body), &mut ctx)) {
        Payload::One(e) => assert_eq!(e.0, serde_json::from_str::<serde_json::Value>(r#"{"text":"hi"}"#).unwrap()),
        Payload::Many(_) => panic!("expected one entry"),
    }
}

#[test]
fn array_body_is_batch_in_order() {
    let mut ctx = ErrorMessage::new();
    let body = b"  \n[{\"a\":1},{\"a\":2}]".to_vec();
    match accepted(Entry::from_data(1048576, Ok(body), &mut ctx)) {
        Payload::Many(v) => {
            assert_eq!(v.len(), 2);
            assert_eq!(v[0].0["a"], 1);
            assert_eq!(v[1].0["a"], 2);
        },
        Payload::One(_) => panic!("expected a batch"),
    }
}

#[test]
fn scalar_body_is_one_entry() {
    let mut ctx = ErrorMessage::new();
    match accepted(Entry::from_data(100, Ok(b" 42 ".to_vec()), &mut ctx)) {
        Payload::One(e) => assert_eq!(e.0, 42),
        Payload::Many(_) => panic!("expected one entry"),
    }
}

#[test]
fn body_of_exactly_the_limit_is_accepted() {
    let body = br#"{"t":"12345"}"#.to_vec();
    let limit = body.len() as u32;
    let mut ctx = ErrorMessage::new();
    assert!(matches!(Entry::from_data(limit, Ok(body.clone()), &mut ctx), GuardOutcome::Accept(Payload::One(_))));
    let mut ctx = ErrorMessage::new();
    let d = rejected(Entry::from_data(limit - 1, Ok(body), &mut ctx));
    assert_eq!(d.code, "err_buffer_too_large");
    assert_eq!(
        d.message,
        "Couldn't parse request body, it's too large! Default accepted size is 1MB. Consider using X-Content-Length header to set expected buffer size."
    );
}

#[test]
fn invalid_json_reports_serde_error() {
    let mut ctx = ErrorMessage::new();
    let text = "{\"a\": }";
    let d = rejected(Entry::from_data(100, Ok(text.as_bytes().to_vec()), &mut ctx));
    assert_eq!(d.code, "err_request_body_parse");
    let serde_text = serde_json::from_str::<serde_json::Value>(text).unwrap_err().to_string();
    assert_eq!(
        d.message,
        format!("Couldn't parse request body into proper JSON with error: '{}'!", serde_text)
    );
    assert!(d.message.contains("line 1 column"));
}

#[test]
fn invalid_batch_reports_serde_error() {
    let mut ctx = ErrorMessage::new();
    let text = "[1, 2";
    let d = rejected(Entry::from_data(100, Ok(text.as_bytes().to_vec()), &mut ctx));
    assert_eq!(d.code, "err_request_body_parse");
    let serde_text = serde_json::from_str::<Vec<serde_json::Value>>(text).unwrap_err().to_string();
    assert!(d.message.contains(&serde_text));
}

#[test]
fn empty_body_is_a_parse_error() {
    let mut ctx = ErrorMessage::new();
    let d = rejected(Entry::from_data(100, Ok(Vec::new()), &mut ctx));
    assert_eq!(d.code, "err_request_body_parse");
}

#[test]
fn failed_read_is_a_read_error() {
    let mut ctx = ErrorMessage::new();
    let d = rejected(Entry::from_data(100, Err("connection reset".to_string()), &mut ctx));
    assert_eq!(d.code, "err_request_body_read");
    assert_eq!(
        d.message,
        "Couldn't read request body into string with error: 'connection reset'!"
    );
}

#[test]
fn bytes_that_are_not_utf8_are_a_read_error() {
    let mut ctx = ErrorMessage::new();
    let d = rejected(Entry::from_data(100, Ok(vec![b'"', 0xff, b'"']), &mut ctx));
    assert_eq!(d.code, "err_request_body_read");
    assert_eq!(
        d.message,
        "Couldn't read request body into string with error: 'stream did not contain valid UTF-8'!"
    );
}

#[test]
fn create_one_scenario() {
    let mut ctx = ErrorMessage::new();
    let ns = accepted(Namespace::from_request(Some("a"), None, &mut ctx));
    assert_eq!(ns.as_str(), "a");
    let limit = accepted(Entry::read_limit(true, None, &mut ctx));
    let payload = accepted(Entry::from_data(limit, Ok(br#"{"text":"hi"}"#.to_vec()), &mut ctx));
    assert!(matches!(payload, Payload::One(_)));
    let reply = create_one_entry(17);
    assert_eq!(reply.status(), 200);
    assert_eq!(field_text(&reply, "code").unwrap(), "info_one_item_ok");
    assert!(matches!(field(&reply, "item_id"), Some(FieldValue::Number(17))));
}

#[test]
fn create_many_scenario() {
    let mut ctx = ErrorMessage::new();
    let _ns = accepted(Namespace::from_request(Some("a"), None, &mut ctx));
    let limit = accepted(Entry::read_limit(true, None, &mut ctx));
    let payload = accepted(Entry::from_data(limit, Ok(br#"[{"a":1},{"a":2}]"#.to_vec()), &mut ctx));
    let n = match payload {
        Payload::Many(v) => v.len(),
        Payload::One(_) => panic!("expected a batch"),
    };
    assert_eq!(n, 2);
    let reply = create_many_entries(vec![3, 4]);
    assert_eq!(reply.status(), 200);
    assert_eq!(field_text(&reply, "code").unwrap(), "info_many_items_ok");
    match field(&reply, "item_ids") {
        Some(FieldValue::Numbers(ids)) => assert_eq!(ids, &vec![3, 4]),
        _ => panic!("expected item_ids"),
    }
}

#[test]
fn oversized_body_scenario() {
    let mut ctx = ErrorMessage::new();
    let _ns = accepted(Namespace::from_request(Some("a"), None, &mut ctx));
    let limit = accepted(Entry::read_limit(true, Some("10"), &mut ctx));
    let body = br#"{"text":"longer than ten"}"#.to_vec();
    let _ = rejected(Entry::from_data(limit, Ok(body), &mut ctx));
    let reply = handle_bad_request_errors(&ctx);
    assert_eq!(reply.status(), 400);
    assert_eq!(field_text(&reply, "code").unwrap(), "err_buffer_too_large");
}

#[test]
fn stored_content_reads_back_equal() {
    let v: serde_json::Value = serde_json::from_str(r#"{"b":[1,2.5,null],"a":"x"}"#).unwrap();
    let entry = Entry(v.clone());
    let text = entry.stored_content();
    let back = Entry::from_row(9, &text).unwrap();
    assert_eq!(back.id, 9);
    assert_eq!(back.content, v);
}

#[test]
fn batch_taken_whole_as_one_entry() {
    let mut ctx = ErrorMessage::new();
    let payload = accepted(Entry::from_data(100, Ok(b"[1, {\"b\": 2}]".to_vec()), &mut ctx));
    let entry = payload.into_entry();
    let expected: serde_json::Value = serde_json::from_str("[1, {\"b\": 2}]").unwrap();
    assert_eq!(entry.0, expected);
    assert_eq!(entry.stored_content(), "[1,{\"b\":2}]");
}

#[test]
fn empty_array_is_empty_batch() {
    let mut ctx = ErrorMessage::new();
    match accepted(Entry::from_data(100, Ok(b"[]".to_vec()), &mut ctx)) {
        Payload::Many(v) => assert!(v.is_empty()),
        Payload::One(_) => panic!("expected a batch"),
    }
}

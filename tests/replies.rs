use voyeur::decimal::{int_error_text, parse_unsigned_text, to_decimal, IntErrorKind};
use voyeur::entries::{delete_all_entries, delete_entry_by_id, get_entry_by_id, get_paginated_entries, health_check_handler, update_entry_by_id};
use voyeur::model::{Entry, EntryResponse};
use voyeur::namespace::Namespace;
use voyeur::pagination::PageSize;
use voyeur::errors::ErrorMessage;
use voyeur::outcome::GuardOutcome;
use voyeur::responders::{CustomResponder, FieldValue};

fn namespace(v: &str) -> Namespace {
    match Namespace::from_request(Some(v), None, &mut ErrorMessage::new()) {
        GuardOutcome::Accept(ns) => ns,
        _ => panic!("namespace rejected"),
    }
}

fn page_size(v: &str) -> PageSize {
    match PageSize::from_request(Some(v), None, &mut ErrorMessage::new()) {
        GuardOutcome::Accept(p) => p,
        _ => panic!("page size rejected"),
    }
}

fn field<'a>(r: &'a CustomResponder, name: &str) -> Option<&'a FieldValue> {
    r.fields().iter().find(|(k, _)| k == name).map(|(_, v)| v)
}

fn field_text(r: &CustomResponder, name: &str) -> Option<String> {
    match field(r, name) {
        Some(FieldValue::Text(t)) => Some(t.clone()),
        _ => None,
    }
}

fn field_number(r: &CustomResponder, name: &str) -> Option<u64> {
    match field(r, name) {
        Some(FieldValue::Number(n)) => Some(*n),
        _ => None,
    }
}

#[test]
fn decimal_text_of_numbers() {
    assert_eq!(to_decimal(0), "0");
    assert_eq!(to_decimal(7), "7");
    assert_eq!(to_decimal(1234567890), "1234567890");
    assert_eq!(to_decimal(u64::MAX), u64::MAX.to_string());
}

#[test]
fn parse_unsigned_like_std() {
    for t in ["", "+", "-", "0", "+0", "007", "65535", "65536", "-1", "1a", "a1", "99999x", "+-1", "١"] {
        let ours = parse_unsigned_text(t, u16::MAX as u64);
        match t.parse::<u16>() {
            Ok(n) => assert_eq!(ours, Ok(n as u64), "{}", t),
            Err(e) => {
                let k = ours.unwrap_err();
                assert_eq!(int_error_text(k), e.to_string(), "{}", t);
            },
        }
    }
    assert_eq!(parse_unsigned_text("", 10), Err(IntErrorKind::Empty));
}

#[test]
fn found_entry_reply() {
    let ns = namespace("alpha");
    let content: serde_json::Value = serde_json::from_str(r#"{"k":1}"#).unwrap();
    let r = get_entry_by_id(&ns, Ok(EntryResponse { id: 4, content: content.clone() }));
    assert_eq!(r.status(), 200);
    assert_eq!(field_text(&r, "code").unwrap(), "no_message");
    assert_eq!(field_text(&r, "namespace").unwrap(), "alpha");
    match field(&r, "data") {
        Some(FieldValue::Item(e)) => {
            assert_eq!(e.id, 4);
            assert_eq!(e.content, content);
        },
        _ => panic!("expected data"),
    }
}

#[test]
fn missing_entry_reply() {
    let ns = namespace("alpha");
    let r = get_entry_by_id(&ns, Err(12));
    assert_eq!(r.status(), 400);
    assert_eq!(field_text(&r, "code").unwrap(), "error_sql_get_one_by_id");
    assert_eq!(field_text(&r, "message").unwrap(), "Entry with ID '12' does not exist!");
    assert_eq!(field_text(&r, "namespace").unwrap(), "alpha");
    assert_eq!(field_number(&r, "id"), Some(12));
}

#[test]
fn page_reply() {
    let ns = namespace("alpha");
    let data = vec![
        EntryResponse { id: 1, content: serde_json::from_str("1").unwrap() },
        EntryResponse { id: 2, content: serde_json::from_str("\"two\"").unwrap() },
    ];
    let r = get_paginated_entries(&ns, 3, &page_size("2"), data);
    assert_eq!(r.status(), 200);
    assert_eq!(field_number(&r, "page_number"), Some(3));
    assert_eq!(field_number(&r, "page_size"), Some(2));
    match field(&r, "data") {
        Some(FieldValue::Items(v)) => {
            assert_eq!(v.len(), 2);
            assert_eq!(v[0].id, 1);
            assert_eq!(v[1].id, 2);
        },
        _ => panic!("expected data"),
    }
}

#[test]
fn update_reply() {
    let r = update_entry_by_id(5);
    assert_eq!(r.status(), 200);
    assert_eq!(field_text(&r, "code").unwrap(), "info_put_item_ok");
    assert_eq!(field_text(&r, "message").unwrap(), "Successfully updated/created entry!");
    assert_eq!(field_number(&r, "item_id"), Some(5));
}

#[test]
fn delete_all_reply() {
    let ns = namespace("beta");
    let r = delete_all_entries(&ns, 8);
    assert_eq!(field_text(&r, "code").unwrap(), "info_delete_entries_ok");
    assert_eq!(
        field_text(&r, "message").unwrap(),
        "Successfully deleted all entries for namespace 'beta'!"
    );
    assert_eq!(field_number(&r, "amount"), Some(8));
}

#[test]
fn delete_one_reply() {
    let ns = namespace("beta");
    let r = delete_entry_by_id(&ns, Ok(31));
    assert_eq!(r.status(), 200);
    assert_eq!(field_text(&r, "code").unwrap(), "info_delete_entry_ok");
    assert_eq!(
        field_text(&r, "message").unwrap(),
        "Successfully deleted an entry of ID '31' for namespace 'beta'!"
    );
    assert_eq!(field_number(&r, "id"), Some(31));
    let r = delete_entry_by_id(&ns, Err(31));
    assert_eq!(r.status(), 400);
    assert_eq!(field_text(&r, "code").unwrap(), "error_sql_get_one_by_id");
}

#[test]
fn health_reply() {
    let r = health_check_handler();
    assert_eq!(r.status(), 200);
    assert_eq!(field_text(&r, "code").unwrap(), "info_status_check_ok");
}

#[test]
fn page_bounds_of_a_page() {
    assert_eq!(Entry::page_bounds(0, 25), (25, 0));
    assert_eq!(Entry::page_bounds(3, 10), (10, 30));
    assert_eq!(Entry::page_bounds(u32::MAX, u16::MAX), (65535, 4294967295i64 * 65535));
}

#[test]
fn row_with_bad_content() {
    assert!(Entry::from_row(1, "{not json").is_none());
    let e = Entry::from_row(-1, "[]").unwrap();
    assert_eq!(e.id, u64::MAX);
}

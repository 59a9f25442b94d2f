use std::collections::HashMap;

use serde_json::Value;
use tauri_plugin_radkit::bridge::{
    abandon, expire, fulfill, open_request, outcome_from_submission, settle, submit_tool_output,
    BridgeError, ToolOutcome, ToolOutputRequest, ToolRequests,
};
use tauri_plugin_radkit::pending::PendingTable;

fn object(key: &str, value: &str) -> Value {
    let mut m = serde_json::Map::new();
    m.insert(key.to_string(), Value::String(value.to_string()));
    Value::Object(m)
}

fn args(key: &str, value: &str) -> HashMap<String, Value> {
    let mut m = HashMap::new();
    m.insert(key.to_string(), Value::String(value.to_string()));
    m
}

#[test]
fn table_insert_take_contains() {
    let mut t: PendingTable<u32> = PendingTable::new();
    assert_eq!(t.len(), 0);
    assert_eq!(t.insert("a".to_string(), 1), None);
    assert_eq!(t.insert("b".to_string(), 2), None);
    assert_eq!(t.len(), 2);
    assert!(t.contains(&"a".to_string()));
    assert!(!t.contains(&"c".to_string()));
    assert_eq!(t.take(&"a".to_string()), Some(1));
    assert_eq!(t.take(&"a".to_string()), None);
    assert_eq!(t.len(), 1);
    assert_eq!(t.take(&"b".to_string()), Some(2));
    assert_eq!(t.len(), 0);
}

#[test]
fn table_insert_replaces_equal_key() {
    let mut t: PendingTable<u32> = PendingTable::new();
    assert_eq!(t.insert("k".to_string(), 1), None);
    assert_eq!(t.insert("k".to_string(), 7), Some(1));
    assert_eq!(t.len(), 1);
    assert_eq!(t.take(&"k".to_string()), Some(7));
}

#[test]
fn lookup_is_answered_with_its_outcome() {
    let mut table: ToolRequests = PendingTable::new();
    let (rx, event) = open_request(&mut table, "lookup".to_string(), args("q", "x"));
    assert_eq!(event.name, "lookup");
    assert_eq!(event.args.get("q"), Some(&Value::String("x".to_string())));
    assert!(table.contains(&event.request_id));
    assert!(fulfill(&mut table, &event.request_id, ToolOutcome::Success(object("answer", "42"))));
    assert!(!table.contains(&event.request_id));
    let got = settle(rx.blocking_recv());
    assert_eq!(got, ToolOutcome::Success(object("answer", "42")));
}

#[test]
fn unknown_request_is_not_found() {
    let mut table: ToolRequests = PendingTable::new();
    assert!(!fulfill(&mut table, &"unknown-id".to_string(), ToolOutcome::Success(Value::Null)));
    let r = submit_tool_output(
        &mut table,
        ToolOutputRequest { request_id: "unknown-id".to_string(), result: Value::Null, is_error: false },
    );
    assert_eq!(r, Err(BridgeError::RequestNotFound("unknown-id".to_string())));
    assert_eq!(
        BridgeError::RequestNotFound("unknown-id".to_string()).message(),
        "Request ID unknown-id not found"
    );
}

#[test]
fn out_of_order_fulfilment_reaches_each_caller() {
    let mut table: ToolRequests = PendingTable::new();
    let (rx1, first) = open_request(&mut table, "lookup".to_string(), args("q", "1"));
    let (rx2, second) = open_request(&mut table, "lookup".to_string(), args("q", "2"));
    assert_ne!(first.request_id, second.request_id);
    assert_eq!(table.len(), 2);
    assert!(fulfill(&mut table, &second.request_id, ToolOutcome::Success(object("answer", "two"))));
    assert!(fulfill(&mut table, &first.request_id, ToolOutcome::Failure("one failed".to_string())));
    assert_eq!(table.len(), 0);
    assert_eq!(settle(rx2.blocking_recv()), ToolOutcome::Success(object("answer", "two")));
    assert_eq!(settle(rx1.blocking_recv()), ToolOutcome::Failure("one failed".to_string()));
}

#[test]
fn second_fulfilment_fails() {
    let mut table: ToolRequests = PendingTable::new();
    let (rx, event) = open_request(&mut table, "t".to_string(), HashMap::new());
    assert!(fulfill(&mut table, &event.request_id, ToolOutcome::Success(Value::Bool(true))));
    assert!(!fulfill(&mut table, &event.request_id, ToolOutcome::Success(Value::Bool(false))));
    assert!(!fulfill(&mut table, &event.request_id, ToolOutcome::Failure("late".to_string())));
    assert_eq!(settle(rx.blocking_recv()), ToolOutcome::Success(Value::Bool(true)));
}

#[test]
fn abandoned_request_is_cancelled() {
    let mut table: ToolRequests = PendingTable::new();
    let (rx, event) = open_request(&mut table, "t".to_string(), HashMap::new());
    assert!(abandon(&mut table, &event.request_id));
    assert!(!abandon(&mut table, &event.request_id));
    assert!(!fulfill(&mut table, &event.request_id, ToolOutcome::Success(Value::Null)));
    assert_eq!(settle(rx.blocking_recv()), ToolOutcome::Failure("cancelled".to_string()));
}

#[test]
fn submission_fulfils_open_request() {
    let mut table: ToolRequests = PendingTable::new();
    let (rx, event) = open_request(&mut table, "t".to_string(), HashMap::new());
    let payload = ToolOutputRequest {
        request_id: event.request_id.clone(),
        result: Value::String("disk full".to_string()),
        is_error: true,
    };
    assert_eq!(submit_tool_output(&mut table, payload), Ok(()));
    assert_eq!(settle(rx.blocking_recv()), ToolOutcome::Failure("disk full".to_string()));
}

#[test]
fn submitted_outcomes() {
    assert_eq!(
        outcome_from_submission(object("answer", "42"), false),
        ToolOutcome::Success(object("answer", "42"))
    );
    assert_eq!(
        outcome_from_submission(Value::String("boom".to_string()), true),
        ToolOutcome::Failure("boom".to_string())
    );
    assert_eq!(
        outcome_from_submission(object("answer", "42"), true),
        ToolOutcome::Failure("Unknown error".to_string())
    );
    assert_eq!(outcome_from_submission(Value::Null, true), ToolOutcome::Failure("Unknown error".to_string()));
}

#[test]
fn request_ids_are_uuid_text() {
    let mut table: ToolRequests = PendingTable::new();
    let (_rx, event) = open_request(&mut table, "t".to_string(), HashMap::new());
    assert_eq!(event.request_id.len(), 36);
    assert_eq!(event.request_id.chars().filter(|c| *c == '-').count(), 4);
}

#[test]
fn expired_request_times_out_once() {
    let mut table: ToolRequests = PendingTable::new();
    let (rx, event) = open_request(&mut table, "t".to_string(), HashMap::new());
    assert_eq!(expire(&mut table, &event.request_id), Some(ToolOutcome::Failure("timed out".to_string())));
    assert_eq!(expire(&mut table, &event.request_id), None);
    assert!(!fulfill(&mut table, &event.request_id, ToolOutcome::Success(Value::Null)));
    assert_eq!(settle(rx.blocking_recv()), ToolOutcome::Failure("cancelled".to_string()));
}

#[test]
fn expiry_after_fulfilment_keeps_the_outcome() {
    let mut table: ToolRequests = PendingTable::new();
    let (rx, event) = open_request(&mut table, "t".to_string(), HashMap::new());
    assert!(fulfill(&mut table, &event.request_id, ToolOutcome::Success(Value::Bool(true))));
    assert_eq!(expire(&mut table, &event.request_id), None);
    assert_eq!(settle(rx.blocking_recv()), ToolOutcome::Success(Value::Bool(true)));
}

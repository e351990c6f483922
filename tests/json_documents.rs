use rstmdb_studio::instances::InstanceHistoryResponse;
use rstmdb_studio::machines::{MachineListItem, MachineResponse, definitions_equal, get_definition_counts, latest_listed_version, machine_versions};
use rstmdb_studio::server::RstmdbInfo;
use rstmdb_studio::wal::{WalEntryResponse, WalListResponse, WalStatsResponse};
use rstmdb_studio::json::{Json, JsonNumber, Member, ValueExt};
use rstmdb_studio::validation::validate_definition;
use serde_json::Value;

fn to_json(v: &Value) -> Json {
    match v {
        Value::Null => Json::Null,
        Value::Bool(b) => Json::Bool(*b),
        Value::Number(n) => {
            if let Some(u) = n.as_u64() {
                Json::Number(JsonNumber::PosInt(u))
            } else if let Some(i) = n.as_i64() {
                Json::Number(JsonNumber::NegInt(i))
            } else {
                Json::Number(JsonNumber::Float(n.to_string()))
            }
        }
        Value::String(s) => Json::Str(s.clone()),
        Value::Array(items) => Json::Array(items.iter().map(to_json).collect()),
        Value::Object(m) => Json::Object(
            m.iter()
                .map(|(k, v)| Member { key: k.clone(), value: to_json(v) })
                .collect(),
        ),
    }
}

fn doc(text: &str) -> Json {
    to_json(&serde_json::from_str::<Value>(text).unwrap())
}

#[test]
fn test_str_or_empty() {
    let v = doc(r#"{"name": "test"}"#);
    assert_eq!(v.str_or_empty("name"), "test");
    assert_eq!(v.str_or_empty("missing"), "");
}

#[test]
fn test_str_or_empty_with_null() {
    let v = doc(r#"{"name": null}"#);
    assert_eq!(v.str_or_empty("name"), "");
}

#[test]
fn test_str_opt() {
    let v = doc(r#"{"name": "test", "empty": null}"#);
    assert_eq!(v.str_opt("name"), Some("test".to_string()));
    assert_eq!(v.str_opt("missing"), None);
    assert_eq!(v.str_opt("empty"), None);
}

#[test]
fn test_u64_or() {
    let v = doc(r#"{"count": 42, "zero": 0}"#);
    assert_eq!(v.u64_or("count", 0), 42);
    assert_eq!(v.u64_or("zero", 99), 0);
    assert_eq!(v.u64_or("missing", 100), 100);
}

#[test]
fn test_u64_opt() {
    let v = doc(r#"{"count": 42}"#);
    assert_eq!(v.u64_opt("count"), Some(42));
    assert_eq!(v.u64_opt("missing"), None);
}

#[test]
fn test_u32_or() {
    let v = doc(r#"{"version": 5}"#);
    assert_eq!(v.u32_or("version", 1), 5);
    assert_eq!(v.u32_or("missing", 1), 1);
}

#[test]
fn test_i64_or() {
    let v = doc(r#"{"timestamp": -1234567890, "positive": 100}"#);
    assert_eq!(v.i64_or("timestamp", 0), -1234567890);
    assert_eq!(v.i64_or("positive", 0), 100);
    assert_eq!(v.i64_or("missing", -1), -1);
}

#[test]
fn test_u32_array() {
    let v = doc(r#"{"versions": [1, 2, 3]}"#);
    assert_eq!(v.u32_array("versions"), vec![1, 2, 3]);
    assert_eq!(v.u32_array("missing"), Vec::<u32>::new());
}

#[test]
fn test_u32_array_with_mixed_types() {
    let v = doc(r#"{"versions": [1, "invalid", 3, null, 5]}"#);
    assert_eq!(v.u32_array("versions"), vec![1, 3, 5]);
}

#[test]
fn test_u32_array_empty() {
    let v = doc(r#"{"versions": []}"#);
    assert_eq!(v.u32_array("versions"), Vec::<u32>::new());
}

#[test]
fn test_string_array() {
    let v = doc(r#"{"features": ["auth", "wal", "clustering"]}"#);
    assert_eq!(
        v.string_array("features"),
        vec!["auth".to_string(), "wal".to_string(), "clustering".to_string()]
    );
}

#[test]
fn test_string_array_empty() {
    let v = doc(r#"{"features": []}"#);
    assert_eq!(v.string_array("features"), Vec::<String>::new());
    assert_eq!(v.string_array("missing"), Vec::<String>::new());
}

#[test]
fn test_string_array_with_mixed_types() {
    let v = doc(r#"{"features": ["valid", 123, "also_valid", null]}"#);
    assert_eq!(
        v.string_array("features"),
        vec!["valid".to_string(), "also_valid".to_string()]
    );
}

#[test]
fn number_edge_cases() {
    let v = doc(r#"{"big": 18446744073709551615, "neg": -5, "frac": 1.5, "wide": 4294967301}"#);
    assert_eq!(v.u64_or("big", 0), u64::MAX);
    assert_eq!(v.i64_or("big", 7), 7);
    assert_eq!(v.u64_opt("neg"), None);
    assert_eq!(v.i64_or("neg", 0), -5);
    assert_eq!(v.u64_opt("frac"), None);
    assert_eq!(v.i64_or("frac", 3), 3);
    assert_eq!(v.u32_or("wide", 0), 5);
    assert_eq!(doc("[1, 2]").str_or_empty("x"), "");
}

#[test]
fn test_get_definition_counts() {
    let def = doc(
        r#"{"definition": {"states": ["a", "b", "c"],
            "transitions": [{"from": "a", "to": "b"}, {"from": "b", "to": "c"}]}}"#,
    );
    let (states, transitions) = get_definition_counts(&def);
    assert_eq!(states, 3);
    assert_eq!(transitions, 2);
}

#[test]
fn test_get_definition_counts_empty() {
    let def = doc("{}");
    let (states, transitions) = get_definition_counts(&def);
    assert_eq!(states, 0);
    assert_eq!(transitions, 0);
}

#[test]
fn test_valid_definition() {
    let def = doc(
        r#"{"states": ["pending", "confirmed", "shipped"], "initial": "pending",
            "transitions": [
                {"from": "pending", "event": "CONFIRM", "to": "confirmed"},
                {"from": "confirmed", "event": "SHIP", "to": "shipped"}]}"#,
    );
    let result = validate_definition(&def);
    assert!(result.valid);
    assert!(result.errors.is_empty());
}

#[test]
fn test_missing_fields() {
    let def = doc("{}");
    let result = validate_definition(&def);
    assert!(!result.valid);
    assert_eq!(result.errors.len(), 3);
}

#[test]
fn test_invalid_initial_state() {
    let def = doc(r#"{"states": ["pending", "confirmed"], "initial": "unknown", "transitions": []}"#);
    let result = validate_definition(&def);
    assert!(!result.valid);
    assert!(result.errors.iter().any(|e| e.code == "INVALID_INITIAL_STATE"));
}

#[test]
fn test_empty_states_array() {
    let def = doc(r#"{"states": [], "initial": "pending", "transitions": []}"#);
    let result = validate_definition(&def);
    assert!(!result.valid);
    assert!(result.errors.iter().any(|e| e.code == "EMPTY_ARRAY"));
}

#[test]
fn test_invalid_state_type() {
    let def = doc(r#"{"states": ["pending", 123, "done"], "initial": "pending", "transitions": []}"#);
    let result = validate_definition(&def);
    assert!(!result.valid);
    assert!(result.errors.iter().any(|e| e.code == "INVALID_TYPE"));
}

#[test]
fn test_duplicate_states() {
    let def = doc(r#"{"states": ["pending", "done", "pending"], "initial": "pending", "transitions": []}"#);
    let result = validate_definition(&def);
    assert!(!result.valid);
    assert!(result.errors.iter().any(|e| e.code == "DUPLICATE_STATE"));
}

#[test]
fn test_invalid_transition_from_state() {
    let def = doc(
        r#"{"states": ["pending", "done"], "initial": "pending",
            "transitions": [{"from": "unknown", "event": "COMPLETE", "to": "done"}]}"#,
    );
    let result = validate_definition(&def);
    assert!(!result.valid);
    assert!(result.errors.iter().any(|e| e.code == "INVALID_STATE"));
}

#[test]
fn test_invalid_transition_to_state() {
    let def = doc(
        r#"{"states": ["pending", "done"], "initial": "pending",
            "transitions": [{"from": "pending", "event": "COMPLETE", "to": "unknown"}]}"#,
    );
    let result = validate_definition(&def);
    assert!(!result.valid);
    assert!(result.errors.iter().any(|e| e.code == "INVALID_STATE"));
}

#[test]
fn test_transition_with_array_from() {
    let def = doc(
        r#"{"states": ["pending", "review", "done"], "initial": "pending",
            "transitions": [{"from": ["pending", "review"], "event": "COMPLETE", "to": "done"}]}"#,
    );
    let result = validate_definition(&def);
    assert!(result.valid);
}

#[test]
fn test_transition_missing_fields() {
    let def = doc(
        r#"{"states": ["pending", "done"], "initial": "pending", "transitions": [{"from": "pending"}]}"#,
    );
    let result = validate_definition(&def);
    assert!(!result.valid);
    assert!(result.errors.iter().any(|e| e.message.contains("'event'")));
    assert!(result.errors.iter().any(|e| e.message.contains("'to'")));
}

#[test]
fn test_transition_with_guard() {
    let def = doc(
        r#"{"states": ["pending", "approved", "rejected"], "initial": "pending",
            "transitions": [
                {"from": "pending", "event": "REVIEW", "to": "approved", "guard": "ctx.score > 50"},
                {"from": "pending", "event": "REVIEW", "to": "rejected", "guard": "ctx.score <= 50"}]}"#,
    );
    let result = validate_definition(&def);
    assert!(result.valid);
}

#[test]
fn test_unreachable_state_warning() {
    let def = doc(
        r#"{"states": ["pending", "orphan", "done"], "initial": "pending",
            "transitions": [{"from": "pending", "event": "COMPLETE", "to": "done"}]}"#,
    );
    let result = validate_definition(&def);
    assert!(result.valid);
    assert!(result.warnings.iter().any(|w| w.code == "UNREACHABLE_STATE"));
}

#[test]
fn test_dead_end_state_warning() {
    let def = doc(
        r#"{"states": ["pending", "done"], "initial": "pending",
            "transitions": [{"from": "pending", "event": "COMPLETE", "to": "done"}]}"#,
    );
    let result = validate_definition(&def);
    assert!(result.valid);
    assert!(result.warnings.iter().any(|w| w.code == "DEAD_END_STATE"));
}

#[test]
fn test_not_an_object() {
    let def = doc(r#""not an object""#);
    let result = validate_definition(&def);
    assert!(!result.valid);
    assert!(result.errors.iter().any(|e| e.message.contains("JSON object")));
}

#[test]
fn test_states_not_an_array() {
    let def = doc(r#"{"states": "not an array", "initial": "pending", "transitions": []}"#);
    let result = validate_definition(&def);
    assert!(!result.valid);
    assert!(result.errors.iter().any(|e| e.message.contains("'states' must be an array")));
}

#[test]
fn validation_messages_and_paths() {
    let def = doc(
        r#"{"states": ["a", 7, "b", "a"], "initial": "a",
            "transitions": [5, {"from": 3, "event": 1, "to": "b", "guard": 2}]}"#,
    );
    let r = validate_definition(&def);
    let found: Vec<(String, String, Option<String>)> = r
        .errors
        .iter()
        .map(|e| (e.code.clone(), e.message.clone(), e.path.clone()))
        .collect();
    let expect = |c: &str, m: &str, p: &str| (c.to_string(), m.to_string(), Some(p.to_string()));
    assert_eq!(
        found,
        vec![
            expect("INVALID_TYPE", "State at index 1 must be a string", "$.states[1]"),
            expect("INVALID_TYPE", "Transition at index 0 must be an object", "$.transitions[0]"),
            expect("INVALID_TYPE", "'from' must be a string or array of strings", "$.transitions[1].from"),
            expect("INVALID_TYPE", "'event' must be a string", "$.transitions[1].event"),
            expect("INVALID_TYPE", "'guard' must be a string", "$.transitions[1].guard"),
        ]
    );
    assert!(r.warnings.is_empty());
}

#[test]
fn semantic_findings_in_order() {
    let def = doc(
        r#"{"states": ["a", "b", "c", "b", "a"], "initial": "z",
            "transitions": [
                {"from": ["a", "q"], "event": "E", "to": "b"},
                {"from": "b", "event": "F", "to": "r"}]}"#,
    );
    let r = validate_definition(&def);
    assert!(!r.valid);
    let errs: Vec<(String, String)> =
        r.errors.iter().map(|e| (e.message.clone(), e.path.clone().unwrap())).collect();
    assert_eq!(
        errs,
        vec![
            ("Initial state 'z' not in states list".to_string(), "$.initial".to_string()),
            ("Transition 'from' state 'q' not in states list".to_string(), "$.transitions[0].from".to_string()),
            ("Transition 'to' state 'r' not in states list".to_string(), "$.transitions[1].to".to_string()),
            ("Duplicate state 'b'".to_string(), "$.states[3]".to_string()),
            ("Duplicate state 'a'".to_string(), "$.states[4]".to_string()),
        ]
    );
    let warns: Vec<String> = r.warnings.iter().map(|w| w.message.clone()).collect();
    assert_eq!(
        warns,
        vec![
            "State 'a' has no incoming transitions".to_string(),
            "State 'c' has no incoming transitions".to_string(),
            "State 'c' has no outgoing transitions (terminal state)".to_string(),
        ]
    );
    assert!(r.warnings.iter().all(|w| w.path.is_none()));
}

#[test]
fn large_index_in_path() {
    let mut items = String::from("[");
    for i in 0..12 {
        if i > 0 {
            items.push(',');
        }
        items.push_str(if i == 11 { "null" } else { "\"s\"" });
    }
    items.push(']');
    let def = doc(&format!(r#"{{"states": {}, "initial": "s", "transitions": []}}"#, items));
    let r = validate_definition(&def);
    assert_eq!(r.errors[0].path.as_deref(), Some("$.states[11]"));
    assert_eq!(r.errors[0].message, "State at index 11 must be a string");
}

#[test]
fn wal_stats_with_defaults() {
    let v = doc(
        r#"{"entry_count": 10, "segment_count": 2, "latest_offset": 99,
            "io_stats": {"bytes_written": 5, "reads": 3}}"#,
    );
    let r = WalStatsResponse::from_stats(&v);
    assert_eq!(r.entry_count, 10);
    assert_eq!(r.segment_count, 2);
    assert_eq!(r.total_size_bytes, 0);
    assert_eq!(r.latest_offset, Some(99));
    assert_eq!(r.io_stats.bytes_written, 5);
    assert_eq!(r.io_stats.bytes_read, 0);
    assert_eq!(r.io_stats.reads, 3);
    assert_eq!(r.io_stats.writes, 0);
    assert_eq!(r.io_stats.fsyncs, 0);
    let empty = WalStatsResponse::from_stats(&doc("{}"));
    assert_eq!(empty.latest_offset, None);
    assert_eq!(empty.io_stats.fsyncs, 0);
}

#[test]
fn server_info_with_defaults() {
    let r = RstmdbInfo::from_info(&doc(
        r#"{"server_name": "node-a", "protocol_version": 2, "features": ["auth", 1, "wal"]}"#,
    ));
    assert!(r.connected);
    assert_eq!(r.server_name, "node-a");
    assert_eq!(r.server_version, "unknown");
    assert_eq!(r.protocol_version, 2);
    assert_eq!(r.features, vec!["auth".to_string(), "wal".to_string()]);
    let d = RstmdbInfo::from_info(&doc("{}"));
    assert_eq!(d.server_name, "rstmdb");
    assert_eq!(d.protocol_version, 1);
    assert!(d.features.is_empty());
}

#[test]
fn machine_lookup_in_listing() {
    let list = doc(
        r#"{"items": [{"machine": "order", "versions": [1, 2]},
                      {"machine": "invoice", "versions": [3]},
                      {"machine": "order", "versions": [9]}]}"#,
    );
    assert_eq!(machine_versions(&list, "order"), Some(vec![1, 2]));
    assert_eq!(machine_versions(&list, "invoice"), Some(vec![3]));
    assert_eq!(machine_versions(&list, "missing"), None);
    assert_eq!(machine_versions(&doc("{}"), "order"), None);
    assert_eq!(machine_versions(&doc(r#"{"items": [{"machine": "x"}]}"#), "x"), Some(vec![]));
}

#[test]
fn test_definitions_equal_identical() {
    let text = r#"{"states": ["pending", "done"], "initial": "pending",
            "transitions": [{"from": "pending", "event": "COMPLETE", "to": "done"}]}"#;
    let a = doc(text);
    let b = doc(text);
    assert!(definitions_equal(&a, &b));
}

#[test]
fn test_definitions_equal_different_states() {
    let a = doc(r#"{"states": ["pending", "done"], "initial": "pending", "transitions": []}"#);
    let b = doc(r#"{"states": ["pending", "completed"], "initial": "pending", "transitions": []}"#);
    assert!(!definitions_equal(&a, &b));
}

#[test]
fn test_definitions_equal_different_initial() {
    let a = doc(r#"{"states": ["pending", "done"], "initial": "pending", "transitions": []}"#);
    let b = doc(r#"{"states": ["pending", "done"], "initial": "done", "transitions": []}"#);
    assert!(!definitions_equal(&a, &b));
}

#[test]
fn test_definitions_equal_different_transitions() {
    let a = doc(
        r#"{"states": ["pending", "done"], "initial": "pending",
            "transitions": [{"from": "pending", "event": "COMPLETE", "to": "done"}]}"#,
    );
    let b = doc(
        r#"{"states": ["pending", "done"], "initial": "pending",
            "transitions": [{"from": "pending", "event": "FINISH", "to": "done"}]}"#,
    );
    assert!(!definitions_equal(&a, &b));
}

#[test]
fn test_definitions_equal_ignores_builder_positions() {
    let a = doc(
        r#"{"states": ["pending", "done"], "initial": "pending", "transitions": [],
            "meta": {"_builderPositions": {"pending": {"x": 100, "y": 200}},
                     "description": "Test machine"}}"#,
    );
    let b = doc(
        r#"{"states": ["pending", "done"], "initial": "pending", "transitions": [],
            "meta": {"_builderPositions": {"pending": {"x": 300, "y": 400}},
                     "description": "Test machine"}}"#,
    );
    assert!(definitions_equal(&a, &b));
}

#[test]
fn test_definitions_equal_different_meta() {
    let a = doc(
        r#"{"states": ["pending", "done"], "initial": "pending", "transitions": [],
            "meta": {"description": "Machine A"}}"#,
    );
    let b = doc(
        r#"{"states": ["pending", "done"], "initial": "pending", "transitions": [],
            "meta": {"description": "Machine B"}}"#,
    );
    assert!(!definitions_equal(&a, &b));
}

#[test]
fn test_definitions_equal_no_meta() {
    let a = doc(r#"{"states": ["pending"], "initial": "pending", "transitions": []}"#);
    let b = doc(r#"{"states": ["pending"], "initial": "pending", "transitions": []}"#);
    assert!(definitions_equal(&a, &b));
}

#[test]
fn definitions_equal_meta_edge_cases() {
    let base = r#""states": [], "initial": "s", "transitions": []"#;
    let with = |meta: &str| doc(&format!("{{{}, \"meta\": {}}}", base, meta));
    assert!(definitions_equal(&with(r#"{"_builderPositions": 1}"#), &doc(&format!("{{{}, \"meta\": {{}}}}", base))));
    assert!(!definitions_equal(&with(r#"{"_builderPositions": 1}"#), &doc(&format!("{{{}}}", base))));
    assert!(definitions_equal(&with("[1, 2.5, -3]"), &with("[1, 2.5, -3]")));
    assert!(!definitions_equal(&with("[1, 2]"), &with("[1, 2, 3]")));
    assert!(!definitions_equal(&with("1"), &with("\"1\"")));
    assert!(!definitions_equal(&with(r#"{"a": null}"#), &with(r#"{"b": null}"#)));
}

const WAL: &str = r#"{"records": [
    {"sequence": 1, "offset": 10, "entry": {"type": "create_instance", "instance_id": "i-1",
        "machine": "order", "version": 2, "initial_state": "pending", "timestamp": 100,
        "initial_ctx": {"n": 1}}},
    {"sequence": 2, "offset": 20, "entry": {"type": "create_instance", "instance_id": "i-2",
        "machine": "order", "version": 2, "initial_state": "pending", "timestamp": 110}},
    {"sequence": 3, "offset": 30, "entry": {"type": "apply_event", "instance_id": "i-1",
        "event": "PAY", "from_state": "pending", "to_state": "paid", "timestamp": -5}},
    {"sequence": 4, "offset": 40, "entry": {"type": "snapshot", "instance_id": "i-1"}},
    {"sequence": 5, "offset": 50, "entry": {"type": "apply_event", "instance_id": "i-1",
        "event": "SHIP", "from_state": "paid", "to_state": "shipped", "ctx": [1, 2]}}
], "next_offset": 60}"#;

#[test]
fn wal_page_presents_each_record() {
    let page = WalListResponse::from_read(&doc(WAL), 5);
    assert_eq!(page.records.len(), 5);
    let first = &page.records[0];
    assert_eq!(first.sequence, 1);
    assert_eq!(first.offset, 10);
    assert_eq!(first.entry_type, "create_instance");
    assert_eq!(first.instance_id.as_deref(), Some("i-1"));
    assert_eq!(first.machine.as_deref(), Some("order"));
    assert_eq!(first.version, Some(2));
    assert_eq!(first.details.str_or_empty("initial_state"), "pending");
    assert_eq!(page.records[3].machine, None);
    assert_eq!(page.records[3].version, None);
    assert_eq!(page.next_offset, Some(60));
    assert_eq!(WalListResponse::from_read(&doc(WAL), 50).next_offset, None);
    let empty = WalListResponse::from_read(&doc("{}"), 0);
    assert!(empty.records.is_empty());
    assert_eq!(empty.next_offset, None);
}

#[test]
fn wal_entry_lookup() {
    let e = WalEntryResponse::from_read(&doc(WAL), 7).unwrap();
    assert_eq!(e.sequence, 1);
    assert_eq!(e.offset, 10);
    assert_eq!(e.entry.str_or_empty("type"), "create_instance");
    let e = WalEntryResponse::from_read(&doc(r#"{"records": [{"entry": {}}]}"#), 7).unwrap();
    assert_eq!(e.offset, 7);
    assert_eq!(e.sequence, 0);
    let missing = WalEntryResponse::from_read(&doc(r#"{"records": []}"#), 7).unwrap_err();
    assert_eq!(missing.code, "NOT_FOUND");
    assert_eq!(missing.message, "WAL entry not found");
}

#[test]
fn history_newest_first_and_stops_at_last_offset() {
    let h = InstanceHistoryResponse::from_wal("i-1", 50, &doc(WAL));
    assert_eq!(h.instance_id, "i-1");
    let offsets: Vec<u64> = h.events.iter().map(|e| e.offset).collect();
    assert_eq!(offsets, vec![50, 30, 10]);
    let created = &h.events[2];
    assert_eq!(created.event_type, "created");
    assert_eq!(created.event, None);
    assert_eq!(created.from_state, None);
    assert_eq!(created.to_state, "pending");
    assert_eq!(created.timestamp, 100);
    assert_eq!(created.ctx.as_ref().unwrap().u64_or("n", 0), 1);
    let paid = &h.events[1];
    assert_eq!(paid.event_type, "transition");
    assert_eq!(paid.event.as_deref(), Some("PAY"));
    assert_eq!(paid.from_state.as_deref(), Some("pending"));
    assert_eq!(paid.to_state, "paid");
    assert_eq!(paid.timestamp, -5);
    assert!(paid.ctx.is_none());
    assert!(h.events[0].ctx.is_some());

    let stopped = InstanceHistoryResponse::from_wal("i-1", 30, &doc(WAL));
    let offsets: Vec<u64> = stopped.events.iter().map(|e| e.offset).collect();
    assert_eq!(offsets, vec![30, 10]);

    let none = InstanceHistoryResponse::from_wal("i-9", 0, &doc(WAL));
    assert!(none.events.is_empty());
    let other = InstanceHistoryResponse::from_wal("i-2", 0, &doc(WAL));
    assert_eq!(other.events.len(), 1);
}

#[test]
fn machine_listing_views() {
    let list = doc(
        r#"{"items": [{"machine": "order", "versions": [1, 3, 2]}, {"machine": "bare"}]}"#,
    );
    let m = MachineResponse::from_listing(&list, "order").unwrap();
    assert_eq!(m.machine, "order");
    assert_eq!(m.versions, vec![1, 3, 2]);
    let e = MachineResponse::from_listing(&list, "nope").unwrap_err();
    assert_eq!(e.code, "NOT_FOUND");
    assert_eq!(e.message, "Machine not found");
    assert_eq!(latest_listed_version(&list, "order"), 3);
    assert_eq!(latest_listed_version(&list, "bare"), 0);
    assert_eq!(latest_listed_version(&list, "nope"), 0);

    let item = doc(r#"{"machine": "order", "versions": [4, 7]}"#);
    let i = MachineListItem::from_listing_item(&item, 3, 2);
    assert_eq!(i.machine, "order");
    assert_eq!(i.versions, vec![4, 7]);
    assert_eq!(i.latest_version, 7);
    assert_eq!(i.states_count, 3);
    assert_eq!(i.transitions_count, 2);
    let bare = MachineListItem::from_listing_item(&doc("{}"), 0, 0);
    assert_eq!(bare.machine, "");
    assert_eq!(bare.latest_version, 1);
}

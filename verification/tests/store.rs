use event_plugin::device::{
    accept_payload, encode_record, encode_records, frame_record, read_payload,
};
use event_plugin::{
    handle_set_db_event, log_info, set_db_event_data, set_db_event_stored, sink_data, Reader,
    Record, Request, Step, Stored,
};

fn record(device_id: &str, signature: &str) -> Record {
    Record { device_id: device_id.to_string(), signature: signature.to_string() }
}

fn failed(message: &str) -> Step {
    Step { logs: vec![log_info(message)], request: Request::Return { code: -1 } }
}

#[test]
fn store_event_logs_and_fetches_the_payload() {
    assert_eq!(
        handle_set_db_event(5),
        Step {
            logs: vec![log_info("Handler called with event_id: 5")],
            request: Request::GetData { event_id: 5, reader: Reader::SetDbEvent },
        }
    );
}

#[test]
fn store_event_without_payload_fails() {
    assert_eq!(set_db_event_data(None), failed("failed to get data"));
}

#[test]
fn store_event_with_bytes_that_are_no_json_fails() {
    assert_eq!(set_db_event_data(Some(b"{not json".to_vec())), failed("failed to read data json"));
    assert_eq!(set_db_event_data(Some(Vec::new())), failed("failed to read data json"));
    assert_eq!(read_payload(b"{\"device_id\":\"a\"} trailing"), failed("failed to read data json"));
}

#[test]
fn store_event_looks_the_device_up() {
    let payload = b"{\"device_id\": \"001\", \"signature\": \"random_string\"}".to_vec();
    assert_eq!(
        set_db_event_data(Some(payload)),
        Step {
            logs: vec![],
            request: Request::GetDb {
                key: "001".to_string(),
                signature: Some("random_string".to_string()),
            },
        }
    );
}

#[test]
fn store_event_unescapes_the_members() {
    let payload = b"{\"signature\":\"a\\\"b\\u0041\\n\",\"device_id\":\"d\\\\1\",\"other\":[1,2]}";
    assert_eq!(
        read_payload(payload),
        Step {
            logs: vec![],
            request: Request::GetDb {
                key: "d\\1".to_string(),
                signature: Some("a\"bA\n".to_string()),
            },
        }
    );
}

#[test]
fn store_event_keeps_a_missing_signature_for_later() {
    assert_eq!(
        read_payload(b"{\"device_id\":\"001\"}"),
        Step { logs: vec![], request: Request::GetDb { key: "001".to_string(), signature: None } }
    );
    assert_eq!(
        read_payload(b"{\"device_id\":\"001\",\"signature\":17}"),
        Step { logs: vec![], request: Request::GetDb { key: "001".to_string(), signature: None } }
    );
}

#[test]
fn store_event_without_device_fails() {
    assert_eq!(read_payload(b"{\"signature\":\"s\"}"), failed("set to db failed"));
    assert_eq!(read_payload(b"{\"device_id\":1,\"signature\":\"s\"}"), failed("set to db failed"));
    assert_eq!(read_payload(b"[\"device_id\"]"), failed("set to db failed"));
    assert_eq!(read_payload(b"null"), failed("set to db failed"));
    assert_eq!(read_payload(b"\"device_id\""), failed("set to db failed"));
    assert_eq!(
        set_db_event_data(Some(b"{\"signature\":\"s\"}".to_vec())),
        Step { logs: vec![log_info("set to db failed")], request: Request::Return { code: -1 } }
    );
}

#[test]
fn accept_payload_decides_on_the_device_alone() {
    assert_eq!(accept_payload(None, Some("s".to_string())), failed("set to db failed"));
    assert_eq!(accept_payload(None, None), failed("set to db failed"));
    assert_eq!(
        accept_payload(Some("d".to_string()), None),
        Step { logs: vec![], request: Request::GetDb { key: "d".to_string(), signature: None } }
    );
}

#[test]
fn sink_starts_a_list_where_the_store_has_none() {
    assert_eq!(
        sink_data("001".to_string(), Some("sig".to_string()), Stored::Absent),
        Step {
            logs: vec![],
            request: Request::SetDb {
                key: "001".to_string(),
                value: b"[{\"device_id\":\"001\",\"signature\":\"sig\"}]".to_vec(),
            },
        }
    );
}

#[test]
fn sink_appends_to_the_stored_list() {
    let stored = Stored::Records(vec![record("001", "first"), record("001", "second")]);
    assert_eq!(
        sink_data("001".to_string(), Some("third".to_string()), stored),
        Step {
            logs: vec![],
            request: Request::SetDb {
                key: "001".to_string(),
                value: b"[{\"device_id\":\"001\",\"signature\":\"first\"},{\"device_id\":\"001\",\"signature\":\"second\"},{\"device_id\":\"001\",\"signature\":\"third\"}]".to_vec(),
            },
        }
    );
}

#[test]
fn sink_appends_to_an_empty_stored_list() {
    assert_eq!(
        sink_data("k".to_string(), Some("s".to_string()), Stored::Records(vec![])),
        sink_data("k".to_string(), Some("s".to_string()), Stored::Absent)
    );
}

#[test]
fn sink_keeps_records_of_other_devices_as_they_are() {
    let stored = Stored::Records(vec![record("other", "x")]);
    assert_eq!(
        sink_data("mine".to_string(), Some("y".to_string()), stored),
        Step {
            logs: vec![],
            request: Request::SetDb {
                key: "mine".to_string(),
                value: b"[{\"device_id\":\"other\",\"signature\":\"x\"},{\"device_id\":\"mine\",\"signature\":\"y\"}]".to_vec(),
            },
        }
    );
}

#[test]
fn sink_fails_on_a_malformed_stored_value() {
    assert_eq!(
        sink_data("001".to_string(), Some("sig".to_string()), Stored::Malformed),
        failed("set to db failed")
    );
}

#[test]
fn sink_without_signature_fails() {
    assert_eq!(sink_data("001".to_string(), None, Stored::Absent), failed("set to db failed"));
    assert_eq!(
        sink_data("001".to_string(), None, Stored::Records(vec![record("001", "a")])),
        failed("set to db failed")
    );
    assert_eq!(sink_data("001".to_string(), None, Stored::Malformed), failed("set to db failed"));
}

#[test]
fn sink_writes_non_ascii_text_as_utf8() {
    assert_eq!(
        sink_data("ger\u{e4}t".to_string(), Some("\u{20ac}".to_string()), Stored::Absent),
        Step {
            logs: vec![],
            request: Request::SetDb {
                key: "ger\u{e4}t".to_string(),
                value: "[{\"device_id\":\"ger\u{e4}t\",\"signature\":\"\u{20ac}\"}]".as_bytes().to_vec(),
            },
        }
    );
}

#[test]
fn stored_answer_ends_the_handler() {
    assert_eq!(set_db_event_stored(true), Step { logs: vec![], request: Request::Return { code: 0 } });
    assert_eq!(set_db_event_stored(false), failed("set to db failed"));
}

#[test]
fn frame_record_puts_the_members_in_order() {
    assert_eq!(frame_record("\"a\"", "\"b\""), "{\"device_id\":\"a\",\"signature\":\"b\"}");
    assert_eq!(frame_record("", ""), "{\"device_id\":,\"signature\":}");
}

#[test]
fn encode_record_escapes_its_strings() {
    assert_eq!(
        encode_record(&record("a\"b", "line\nbreak\\\t\u{1}")),
        "{\"device_id\":\"a\\\"b\",\"signature\":\"line\\nbreak\\\\\\t\\u0001\"}"
    );
}

#[test]
fn encode_records_of_no_record() {
    assert_eq!(encode_records(&vec![]), "[]");
}

#[test]
fn encode_records_separates_with_commas() {
    assert_eq!(
        encode_records(&vec![record("1", "a")]),
        "[{\"device_id\":\"1\",\"signature\":\"a\"}]"
    );
    assert_eq!(
        encode_records(&vec![record("1", "a"), record("2", ""), record("", "c")]),
        "[{\"device_id\":\"1\",\"signature\":\"a\"},{\"device_id\":\"2\",\"signature\":\"\"},{\"device_id\":\"\",\"signature\":\"c\"}]"
    );
}

#[test]
fn encoded_records_read_back_as_json() {
    let records = vec![record("d\"1", "s\\1"), record("d2", "\u{7f}\u{0}")];
    let text = encode_records(&records);
    let value: serde_json::Value = serde_json::from_str(&text).unwrap();
    let items = value.as_array().unwrap();
    assert_eq!(items.len(), 2);
    for (item, record) in items.iter().zip(records.iter()) {
        assert_eq!(item.as_object().unwrap().len(), 2);
        assert_eq!(item["device_id"].as_str(), Some(record.device_id.as_str()));
        assert_eq!(item["signature"].as_str(), Some(record.signature.as_str()));
    }
}

#[test]
fn stored_text_only_grows_at_its_end() {
    let mut records = Vec::new();
    let mut before = encode_records(&records);
    for (device_id, signature) in [("1", "a"), ("2", "b\"c"), ("1", ""), ("", "\u{e9}")] {
        records.push(record(device_id, signature));
        let after = encode_records(&records);
        let kept = &before[..before.len() - 1];
        assert!(after.starts_with(kept));
        assert!(after.len() > before.len());
        before = after;
    }
    assert_eq!(
        before,
        "[{\"device_id\":\"1\",\"signature\":\"a\"},{\"device_id\":\"2\",\"signature\":\"b\\\"c\"},{\"device_id\":\"1\",\"signature\":\"\"},{\"device_id\":\"\",\"signature\":\"\u{e9}\"}]"
    );
}

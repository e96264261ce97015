use telemetry::kv::{KVRequest, KVResponse, KvOperation};

fn req(command: &str, key: &str, value: &str) -> KVRequest {
    KVRequest::new(command.to_string(), key.to_string(), value.to_string())
}

#[test]
fn set_request() {
    match req("set", "k", "v").operation() {
        KvOperation::Store { key, value } => {
            assert_eq!(key, "k");
            assert_eq!(value, "v");
        }
        other => panic!("unexpected {:?}", other),
    }
}

#[test]
fn get_and_delete_requests() {
    assert!(matches!(req("get", "a", "").operation(), KvOperation::Fetch { key } if key == "a"));
    assert!(matches!(req("delete", "b", "x").operation(), KvOperation::Remove { key } if key == "b"));
}

#[test]
fn unknown_command_is_invalid() {
    assert!(matches!(req("SET", "k", "v").operation(), KvOperation::Invalid));
    assert!(matches!(req("", "k", "v").operation(), KvOperation::Invalid));
    let r = KVResponse::invalid_operation();
    assert_eq!(r.error, "Invalid operation");
    assert_eq!(r.value, "");
}

#[test]
fn write_outcomes() {
    let ok = KVResponse::from_write(Ok(()));
    assert_eq!((ok.error.as_str(), ok.value.as_str()), ("", ""));
    let err = KVResponse::from_write(Err("disk full".to_string()));
    assert_eq!((err.error.as_str(), err.value.as_str()), ("disk full", ""));
}

#[test]
fn read_outcomes() {
    let hit = KVResponse::from_read(Ok(Some("val".to_string())));
    assert_eq!((hit.error.as_str(), hit.value.as_str()), ("", "val"));
    let miss = KVResponse::from_read(Ok(None));
    assert_eq!((miss.error.as_str(), miss.value.as_str()), ("Key not found", ""));
    let err = KVResponse::from_read(Err("io".to_string()));
    assert_eq!((err.error.as_str(), err.value.as_str()), ("io", ""));
}

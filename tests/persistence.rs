use torndkt::json::JsonValue;
use torndkt::monitor::{MonitorList, SimpleHospMonitor};
use torndkt::persistence::{PersistedData, PersistenceError};

fn to_tree(v: &serde_json::Value) -> JsonValue {
    match v {
        serde_json::Value::Null => JsonValue::Null,
        serde_json::Value::Bool(b) => JsonValue::Bool(*b),
        serde_json::Value::Number(n) => match n.as_i64() {
            Some(i) => JsonValue::Int(i),
            None => JsonValue::OtherNumber(n.to_string()),
        },
        serde_json::Value::String(s) => JsonValue::Str(s.clone()),
        serde_json::Value::Array(a) => JsonValue::Array(a.iter().map(to_tree).collect()),
        serde_json::Value::Object(m) => {
            JsonValue::Object(m.iter().map(|(k, v)| (k.clone(), to_tree(v))).collect())
        }
    }
}

fn from_tree(v: &JsonValue) -> serde_json::Value {
    match v {
        JsonValue::Null => serde_json::Value::Null,
        JsonValue::Bool(b) => serde_json::Value::Bool(*b),
        JsonValue::Int(i) => serde_json::Value::from(*i),
        JsonValue::OtherNumber(s) => serde_json::Value::Number(s.parse().unwrap()),
        JsonValue::Str(s) => serde_json::Value::String(s.clone()),
        JsonValue::Array(a) => serde_json::Value::Array(a.iter().map(from_tree).collect()),
        JsonValue::Object(es) => {
            serde_json::Value::Object(es.iter().map(|(k, v)| (k.clone(), from_tree(v))).collect())
        }
    }
}

fn load_text(text: &str, now: i64) -> Result<PersistedData, PersistenceError> {
    PersistedData::from_json(&to_tree(&serde_json::from_str::<serde_json::Value>(text).unwrap()), now)
}

fn ids(d: &PersistedData) -> Vec<Option<u32>> {
    d.monitors
        .iter()
        .map(|m| match m {
            MonitorList::Unset => None,
            MonitorList::Simple(s) => Some(s.id()),
        })
        .collect()
}

#[test]
fn round_trip_resets_cached_fields() {
    let mut a = SimpleHospMonitor::new(7, 10);
    a.update_torn(&"OLD".to_string(), Ok(torndkt::api::PlayerInfo {
        name: "Alice".to_string(),
        states: vec![("hospital_timestamp".to_string(), 1700000000)],
    }))
    .unwrap();
    let d = PersistedData {
        api_key: "SECRETKEY".to_string(),
        monitors: vec![
            MonitorList::Simple(a),
            MonitorList::Unset,
            MonitorList::Simple(SimpleHospMonitor::new(42, 10)),
        ],
    };
    let text = serde_json::to_string(&from_tree(&d.to_json())).unwrap();
    let loaded = load_text(&text, 555).unwrap();
    assert_eq!(loaded.api_key, "SECRETKEY");
    assert_eq!(ids(&loaded), vec![Some(7), None, Some(42)]);
    for m in &loaded.monitors {
        if let MonitorList::Simple(s) = m {
            assert_eq!(s.name(), "");
            assert_eq!(s.apikey(), "");
            assert_eq!(s.hosp_timestamp(), 555);
            assert!(!s.errored());
        }
    }
}

#[test]
fn saved_form_matches_file_format() {
    let d = PersistedData {
        api_key: "k".to_string(),
        monitors: vec![MonitorList::Unset, MonitorList::Simple(SimpleHospMonitor::new(5, 0))],
    };
    let text = serde_json::to_string(&from_tree(&d.to_json())).unwrap();
    assert_eq!(text, "{\"api_key\":\"k\",\"monitors\":[\"None\",{\"Simple\":{\"id\":5}}]}");
}

#[test]
fn loads_file_with_extra_fields() {
    let d = load_text("{\"monitors\": [{\"Simple\": {\"id\": 9, \"name\": \"x\"}}], \"api_key\": \"z\", \"uiscale\": 2}", 0).unwrap();
    assert_eq!(d.api_key, "z");
    assert_eq!(ids(&d), vec![Some(9)]);
}

#[test]
fn empty_state_round_trips() {
    let d = PersistedData { api_key: String::new(), monitors: vec![] };
    let text = serde_json::to_string(&from_tree(&d.to_json())).unwrap();
    let loaded = load_text(&text, 0).unwrap();
    assert_eq!(loaded.api_key, "");
    assert!(loaded.monitors.is_empty());
}

#[test]
fn malformed_state_refused() {
    for text in [
        "{\"monitors\": []}",
        "{\"api_key\": 5, \"monitors\": []}",
        "{\"api_key\": \"k\"}",
        "{\"api_key\": \"k\", \"monitors\": [\"Other\"]}",
        "{\"api_key\": \"k\", \"monitors\": [{\"Simple\": {\"id\": -1}}]}",
        "{\"api_key\": \"k\", \"monitors\": [{\"Simple\": {\"id\": 4294967296}}]}",
        "{\"api_key\": \"k\", \"monitors\": [{\"Simple\": {}}]}",
        "{\"api_key\": \"k\", \"monitors\": [{\"Simple\": {\"id\": 1}, \"None\": 0}]}",
        "[]",
    ] {
        assert_eq!(load_text(text, 0).unwrap_err(), PersistenceError::Malformed);
    }
}

#[test]
fn largest_id_round_trips() {
    let d = load_text("{\"api_key\": \"k\", \"monitors\": [{\"Simple\": {\"id\": 4294967295}}]}", 0).unwrap();
    assert_eq!(ids(&d), vec![Some(u32::MAX)]);
}

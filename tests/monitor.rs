use torndkt::api::{decode_response, FetchError, GetInfoError, PlayerInfo};
use torndkt::json::JsonValue;
use torndkt::monitor::{needs_key_prompt, parse_id_input, refresh_all, MonitorList, SimpleHospMonitor};

fn envelope_json(code: i64) -> JsonValue {
    JsonValue::Object(vec![(
        "error".to_string(),
        JsonValue::Object(vec![("code".to_string(), JsonValue::Int(code))]),
    )])
}

fn player(name: &str, release: i64) -> PlayerInfo {
    PlayerInfo {
        name: name.to_string(),
        states: vec![
            ("jail_timestamp".to_string(), 0),
            ("hospital_timestamp".to_string(), release),
        ],
    }
}

#[test]
fn wrong_key_keeps_cached_fields() {
    let mut m = SimpleHospMonitor::new(12345, 1000);
    let fetched = decode_response(&envelope_json(2));
    let r = m.update_torn(&"BADKEY".to_string(), fetched);
    assert_eq!(r, Err(FetchError::Api(GetInfoError::WrongKey)));
    assert_eq!(m.name(), "");
    assert_eq!(m.hosp_timestamp(), 1000);
    assert_eq!(m.apikey(), "BADKEY");
    assert_eq!(m.id(), 12345);
    assert!(!m.errored());
}

#[test]
fn success_updates_and_clears_error() {
    let mut m = SimpleHospMonitor::new(7, 1000);
    let key = "KEY".to_string();
    assert_eq!(m.update_torn(&key, decode_response(&envelope_json(6))), Err(FetchError::Api(GetInfoError::InvalidId)));
    assert!(m.errored());
    let r = m.update_torn(&key, Ok(player("Alice", 1700000000)));
    assert_eq!(r, Ok(()));
    assert_eq!(m.name(), "Alice");
    assert_eq!(m.hosp_timestamp(), 1700000000);
    assert!(!m.errored());
}

#[test]
fn invalid_id_sets_error_flag_only() {
    let mut m = SimpleHospMonitor::new(7, 50);
    m.update_torn(&"K".to_string(), Ok(player("Bob", 99))).unwrap();
    let r = m.update_torn(&"K".to_string(), Err(FetchError::Api(GetInfoError::InvalidId)));
    assert_eq!(r, Err(FetchError::Api(GetInfoError::InvalidId)));
    assert!(m.errored());
    assert_eq!(m.name(), "Bob");
    assert_eq!(m.hosp_timestamp(), 99);
}

#[test]
fn other_failures_clear_error_flag() {
    let mut m = SimpleHospMonitor::new(7, 50);
    let key = "K".to_string();
    m.update_torn(&key, Err(FetchError::Api(GetInfoError::InvalidId))).unwrap_err();
    assert_eq!(m.update_torn(&key, Err(FetchError::Transport)), Err(FetchError::Transport));
    assert!(!m.errored());
    assert_eq!(m.update_torn(&key, Err(FetchError::Api(GetInfoError::Other(17)))), Err(FetchError::Api(GetInfoError::Other(17))));
    assert_eq!(m.hosp_timestamp(), 50);
}

#[test]
fn missing_release_is_decode_fault() {
    let mut m = SimpleHospMonitor::new(7, 50);
    let p = PlayerInfo { name: "Carol".to_string(), states: vec![("jail_timestamp".to_string(), 3)] };
    assert_eq!(m.update_torn(&"K".to_string(), Ok(p)), Err(FetchError::Decode));
    assert_eq!(m.name(), "");
    assert_eq!(m.hosp_timestamp(), 50);
}

#[test]
fn out_of_range_release_is_decode_fault() {
    let mut m = SimpleHospMonitor::new(7, 50);
    assert_eq!(m.update_torn(&"K".to_string(), Ok(player("Dan", i64::MAX))), Err(FetchError::Decode));
    assert_eq!(m.hosp_timestamp(), 50);
    let mut n = SimpleHospMonitor::new(7, 50);
    assert_eq!(n.apply_refresh(&"K".to_string(), Ok(player("Dan", 10)), false), Err(FetchError::Decode));
    assert_eq!(n.apply_refresh(&"K".to_string(), Ok(player("Dan", 10)), true), Ok(()));
    assert_eq!(n.hosp_timestamp(), 10);
}

#[test]
fn id_field_filtering() {
    assert_eq!(parse_id_input("12a3"), 123);
    assert_eq!(parse_id_input(""), 0);
    assert_eq!(parse_id_input("abc"), 0);
    assert_eq!(parse_id_input("123456789"), 12345678);
    assert_eq!(parse_id_input("99999999"), 99999999);
    assert_eq!(parse_id_input("\u{663}4"), 4);
    let mut m = SimpleHospMonitor::new(5, 0);
    m.set_id_from_input("  42 ");
    assert_eq!(m.id, 42);
    m.set_id_from_input("");
    assert_eq!(m.id, 0);
}

#[test]
fn monitor_url() {
    let m = SimpleHospMonitor::new(12345, 0);
    assert_eq!(m.request_url(&"BADKEY".to_string()), "https://api.torn.com/v2/user?id=12345&key=BADKEY");
    assert_eq!(m.seconds_left(-5), 5);
}

#[test]
fn fresh_monitor_is_blank() {
    let m = SimpleHospMonitor::new(0, 123);
    assert_eq!(m.id(), 0);
    assert_eq!(m.hosp_timestamp(), 123);
    assert_eq!(m.apikey(), "");
    assert_eq!(m.name(), "");
    assert!(!m.errored());
    assert!(matches!(MonitorList::default(), MonitorList::Unset));
}

#[test]
fn list_dispatch_and_labels() {
    let mut slot = MonitorList::Unset;
    assert_eq!(slot.update_torn(&"K".to_string(), Err(FetchError::Transport)), Ok(()));
    assert_eq!(slot.label(), "");
    let mut s = MonitorList::Simple(SimpleHospMonitor::new(3, 0));
    assert_eq!(s.label(), "Simple");
    assert_eq!(s.update_torn(&"K".to_string(), Ok(player("Eve", 77))), Ok(()));
    match s {
        MonitorList::Simple(m) => assert_eq!(m.hosp_timestamp(), 77),
        MonitorList::Unset => panic!("kind changed"),
    }
}

#[test]
fn refresh_all_isolates_failures() {
    let mut list = vec![
        MonitorList::Simple(SimpleHospMonitor::new(1, 0)),
        MonitorList::Unset,
        MonitorList::Simple(SimpleHospMonitor::new(2, 0)),
        MonitorList::Simple(SimpleHospMonitor::new(3, 0)),
    ];
    let fetched = vec![
        Err(FetchError::Api(GetInfoError::InvalidId)),
        Err(FetchError::Transport),
        Ok(player("Gus", 500)),
        Err(FetchError::Api(GetInfoError::WrongKey)),
    ];
    let results = refresh_all(&mut list, &"K".to_string(), fetched);
    assert_eq!(
        results,
        vec![
            Err(FetchError::Api(GetInfoError::InvalidId)),
            Ok(()),
            Ok(()),
            Err(FetchError::Api(GetInfoError::WrongKey)),
        ]
    );
    assert!(needs_key_prompt(&results));
    assert!(!needs_key_prompt(&results[..3].to_vec()));
    match &list[2] {
        MonitorList::Simple(m) => {
            assert_eq!(m.name(), "Gus");
            assert_eq!(m.id(), 2);
        }
        MonitorList::Unset => panic!("kind changed"),
    }
    match &list[0] {
        MonitorList::Simple(m) => assert!(m.errored()),
        MonitorList::Unset => panic!("kind changed"),
    }
}

use vstd::prelude::*;

use crate::api::str_member;
use crate::json::{get_field, lookup, member, JsonValue};
use crate::monitor::{fresh_view, MonitorList, SimpleHospMonitor};

verus! {

/// The part of the application state that outlives a run.
#[derive(Debug, Clone)]
pub struct PersistedData {
    pub api_key: String,
    pub monitors: Vec<MonitorList>,
}

/// Why saved state could not be loaded or saved.
#[derive(Debug, Clone, Copy, PartialEq, Eq, Structural)]
pub enum PersistenceError {
    /// No saved state exists at the path.
    NotFound,
    /// The saved text does not have the saved state's shape.
    Malformed,
    /// Reading or writing failed.
    IoError,
}

/// `v` is the saved form of monitor `m`: the string `None` for an empty slot,
/// `{"Simple": {"id": n}}` for a simple monitor. Cached fields are not saved.
pub open spec fn encodes_monitor(v: JsonValue, m: MonitorList) -> bool {
    match m {
        MonitorList::Unset => v is Str && v->Str_0@ == "None"@,
        MonitorList::Simple(s) => {
            &&& v is Object
            &&& v->Object_0@.len() == 1
            &&& v->Object_0@[0].0@ == "Simple"@
            &&& v->Object_0@[0].1 is Object
            &&& v->Object_0@[0].1->Object_0@.len() == 1
            &&& v->Object_0@[0].1->Object_0@[0].0@ == "id"@
            &&& v->Object_0@[0].1->Object_0@[0].1 == JsonValue::Int(s@.id as i64)
        },
    }
}

/// The id of a saved simple monitor, when `v` is one: an object whose single
/// member `Simple` holds an integer `id` that fits a `u32`.
pub open spec fn saved_simple_id(v: JsonValue) -> Option<u32> {
    match v {
        JsonValue::Object(es) => if es@.len() == 1 && es@[0].0@ == "Simple"@ {
            match member(es@[0].1, "id"@) {
                Some(JsonValue::Int(n)) => if 0 <= n <= u32::MAX {
                    Some(n as u32)
                } else {
                    None
                },
                _ => None,
            }
        } else {
            None
        },
        _ => None,
    }
}

/// `v` is a saved empty slot.
pub open spec fn is_saved_unset(v: JsonValue) -> bool {
    v is Str && v->Str_0@ == "None"@
}

/// `v` is the saved form of some monitor.
pub open spec fn is_monitor_shape(v: JsonValue) -> bool {
    is_saved_unset(v) || saved_simple_id(v) is Some
}

/// `m` is what loading `v` at time `now` gives: cached fields start afresh.
pub open spec fn decodes_monitor(v: JsonValue, m: MonitorList, now: i64) -> bool {
    if is_saved_unset(v) {
        m is Unset
    } else {
        &&& saved_simple_id(v) is Some
        &&& m is Simple
        &&& m->Simple_0@ == fresh_view(saved_simple_id(v)->0, now)
    }
}

/// The monitors' saved forms, when `v` has an array `monitors`.
pub open spec fn saved_monitors(v: JsonValue) -> Option<Seq<JsonValue>> {
    match member(v, "monitors"@) {
        Some(JsonValue::Array(a)) => Some(a@),
        _ => None,
    }
}

/// `v` is the saved form of `d`: `{"api_key": .., "monitors": [..]}`.
pub open spec fn encodes_data(v: JsonValue, d: PersistedData) -> bool {
    &&& v is Object
    &&& v->Object_0@.len() == 2
    &&& v->Object_0@[0].0@ == "api_key"@
    &&& v->Object_0@[0].1 is Str
    &&& v->Object_0@[0].1->Str_0@ == d.api_key@
    &&& v->Object_0@[1].0@ == "monitors"@
    &&& v->Object_0@[1].1 is Array
    &&& v->Object_0@[1].1->Array_0@.len() == d.monitors@.len()
    &&& forall|i: int|
        0 <= i < d.monitors@.len() ==> encodes_monitor(
            #[trigger] v->Object_0@[1].1->Array_0@[i],
            d.monitors@[i],
        )
}

/// `v` has the shape of saved state: a string `api_key` and an array
/// `monitors` of saved monitors. Other members are ignored.
pub open spec fn is_data_shape(v: JsonValue) -> bool {
    &&& str_member(v, "api_key"@) is Some
    &&& saved_monitors(v) is Some
    &&& forall|i: int|
        0 <= i < saved_monitors(v)->0.len() ==> is_monitor_shape(
            #[trigger] saved_monitors(v)->0[i],
        )
}

/// `d` is what loading `v` at time `now` gives.
pub open spec fn decodes_data(v: JsonValue, d: PersistedData, now: i64) -> bool {
    let a = saved_monitors(v)->0;
    &&& is_data_shape(v)
    &&& d.api_key@ == str_member(v, "api_key"@)->0
    &&& d.monitors@.len() == a.len()
    &&& forall|i: int| 0 <= i < a.len() ==> decodes_monitor(a[i], #[trigger] d.monitors@[i], now)
}

/// `loaded` holds the key of `d` and, in order, a monitor of the same kind
/// for each of its monitors, simple ones with the same id and every cached
/// field as a fresh monitor has it at `now`.
pub open spec fn restores(d: PersistedData, loaded: PersistedData, now: i64) -> bool {
    &&& loaded.api_key@ == d.api_key@
    &&& loaded.monitors@.len() == d.monitors@.len()
    &&& forall|i: int|
        0 <= i < d.monitors@.len() ==> match #[trigger] d.monitors@[i] {
            MonitorList::Unset => loaded.monitors@[i] is Unset,
            MonitorList::Simple(s) => loaded.monitors@[i] is Simple
                && loaded.monitors@[i]->Simple_0@ == fresh_view(s@.id, now),
        }
}

impl MonitorList {
    /// Saved form of this monitor.
    pub fn to_json(&self) -> (r: JsonValue)
        ensures
            encodes_monitor(r, *self),
    {
        match self {
            MonitorList::Unset => JsonValue::Str(String::from_str("None")),
            MonitorList::Simple(m) => {
                let mut inner: Vec<(String, JsonValue)> = Vec::new();
                inner.push((String::from_str("id"), JsonValue::Int(m.id() as i64)));
                let mut outer: Vec<(String, JsonValue)> = Vec::new();
                outer.push((String::from_str("Simple"), JsonValue::Object(inner)));
                JsonValue::Object(outer)
            },
        }
    }

    /// Loads a monitor from its saved form at time `now`.
    pub fn from_json(v: &JsonValue, now: i64) -> (r: Option<MonitorList>)
        ensures
            r is Some <==> is_monitor_shape(*v),
            r is Some ==> decodes_monitor(*v, r->0, now),
    {
        match v {
            JsonValue::Str(s) => {
                let none = String::from_str("None");
                if *s == none {
                    Some(MonitorList::Unset)
                } else {
                    None
                }
            },
            JsonValue::Object(es) => {
                let simple = String::from_str("Simple");
                if es.len() == 1 && es[0].0 == simple {
                    let id_key = String::from_str("id");
                    match get_field(&es[0].1, &id_key) {
                        Some(JsonValue::Int(n)) => {
                            if 0 <= *n && *n <= u32::MAX as i64 {
                                Some(MonitorList::Simple(SimpleHospMonitor::new(*n as u32, now)))
                            } else {
                                None
                            }
                        },
                        _ => None,
                    }
                } else {
                    None
                }
            },
            _ => None,
        }
    }
}

impl PersistedData {
    /// Saved form of the state: the key and each monitor in order.
    pub fn to_json(&self) -> (r: JsonValue)
        ensures
            encodes_data(r, *self),
    {
        let mut saved: Vec<JsonValue> = Vec::new();
        let mut i: usize = 0;
        while i < self.monitors.len()
            invariant
                0 <= i <= self.monitors@.len(),
                saved@.len() == i,
                forall|j: int| 0 <= j < i ==> encodes_monitor(#[trigger] saved@[j], self.monitors@[j]),
            decreases self.monitors@.len() - i,
        {
            saved.push(self.monitors[i].to_json());
            i = i + 1;
        }
        let mut entries: Vec<(String, JsonValue)> = Vec::new();
        entries.push((String::from_str("api_key"), JsonValue::Str(self.api_key.clone())));
        entries.push((String::from_str("monitors"), JsonValue::Array(saved)));
        JsonValue::Object(entries)
    }

    /// Loads saved state from its saved form at time `now`; cached monitor
    /// fields start afresh.
    pub fn from_json(v: &JsonValue, now: i64) -> (r: Result<PersistedData, PersistenceError>)
        ensures
            r is Ok <==> is_data_shape(*v),
            r is Ok ==> decodes_data(*v, r->Ok_0, now),
            r is Err ==> r == Err::<PersistedData, PersistenceError>(PersistenceError::Malformed),
    {
        let key_name = String::from_str("api_key");
        let monitors_name = String::from_str("monitors");
        let api_key = match get_field(v, &key_name) {
            Some(JsonValue::Str(s)) => s.clone(),
            _ => return Err(PersistenceError::Malformed),
        };
        let saved = match get_field(v, &monitors_name) {
            Some(JsonValue::Array(a)) => a,
            _ => return Err(PersistenceError::Malformed),
        };
        let mut monitors: Vec<MonitorList> = Vec::new();
        let mut i: usize = 0;
        while i < saved.len()
            invariant
                saved_monitors(*v) == Some(saved@),
                str_member(*v, "api_key"@) == Some(api_key@),
                0 <= i <= saved@.len(),
                monitors@.len() == i,
                forall|j: int|
                    0 <= j < i ==> decodes_monitor(saved@[j], #[trigger] monitors@[j], now),
                forall|j: int| 0 <= j < i ==> is_monitor_shape(#[trigger] saved@[j]),
            decreases saved@.len() - i,
        {
            match MonitorList::from_json(&saved[i], now) {
                Some(m) => {
                    monitors.push(m);
                },
                None => {
                    assert(!is_monitor_shape(saved_monitors(*v)->0[i as int]));
                    return Err(PersistenceError::Malformed);
                },
            }
            i = i + 1;
        }
        Ok(PersistedData { api_key, monitors })
    }
}

/// The saved form of a simple monitor loads back with the same id.
proof fn lemma_saved_simple(v: JsonValue, m: MonitorList)
    requires
        m is Simple,
        encodes_monitor(v, m),
    ensures
        !is_saved_unset(v),
        saved_simple_id(v) == Some(m->Simple_0@.id),
{
    let inner = v->Object_0@[0].1->Object_0@;
    assert(inner.last() == inner[0]);
    assert(lookup(inner, "id"@) == Some(inner[0].1));
}

/// Saving then loading restores the key and every monitor's kind and id in
/// order, and resets each cached field to what a fresh monitor holds: the
/// saved form of any state loads, and what it loads to is that state.
pub proof fn lemma_round_trip(d: PersistedData, v: JsonValue, loaded: PersistedData, now: i64)
    requires
        encodes_data(v, d),
    ensures
        is_data_shape(v),
        decodes_data(v, loaded, now) ==> restores(d, loaded, now),
{
    reveal_strlit("api_key");
    reveal_strlit("monitors");
    let es = v->Object_0@;
    assert(es.last() == es[1]);
    assert(es.drop_last().last() == es[0]);
    assert("api_key"@.len() != "monitors"@.len());
    assert(lookup(es.drop_last(), "api_key"@) == Some(es[0].1));
    assert(lookup(es, "api_key"@) == Some(es[0].1));
    assert(lookup(es, "monitors"@) == Some(es[1].1));
    let a = es[1].1->Array_0@;
    assert forall|i: int| 0 <= i < a.len() implies is_monitor_shape(
        #[trigger] saved_monitors(v)->0[i],
    ) by {
        assert(encodes_monitor(a[i], d.monitors@[i]));
        if d.monitors@[i] is Simple {
            lemma_saved_simple(a[i], d.monitors@[i]);
        }
    }
    if decodes_data(v, loaded, now) {
        assert forall|i: int| 0 <= i < d.monitors@.len() implies match #[trigger] d.monitors@[i] {
            MonitorList::Unset => loaded.monitors@[i] is Unset,
            MonitorList::Simple(s) => loaded.monitors@[i] is Simple
                && loaded.monitors@[i]->Simple_0@ == fresh_view(s@.id, now),
        } by {
            assert(encodes_monitor(a[i], d.monitors@[i]));
            assert(decodes_monitor(a[i], loaded.monitors@[i], now));
            if d.monitors@[i] is Simple {
                lemma_saved_simple(a[i], d.monitors@[i]);
            }
        }
    }
}

} // verus!

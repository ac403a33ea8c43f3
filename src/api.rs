use vstd::prelude::*;

use crate::json::{get_field, get_member, lookup, member, JsonValue};
use crate::util::{decimal, push_decimal};

verus! {

/// Player data as returned by the user endpoint.
#[derive(Debug, Clone)]
pub struct PlayerInfo {
    pub name: String,
    /// Named timestamps, such as the hospital and jail release times.
    pub states: Vec<(String, i64)>,
}

/// A value that is either a number or a string.
#[derive(Debug, Clone, PartialEq)]
pub enum NumOrString {
    Num(i64),
    String(String),
}

/// Body of an access error response.
#[derive(Debug, Clone)]
pub struct AccessErrorStructure {
    pub error: Vec<(String, NumOrString)>,
}

/// Kind of error that the API reported for a request.
#[derive(Debug, Clone, Copy, PartialEq, Eq, Structural)]
pub enum GetInfoError {
    InvalidId,
    WrongKey,
    Other(i64),
}

/// Why a request gave no player data.
#[derive(Debug, Clone, Copy, PartialEq, Eq, Structural)]
pub enum FetchError {
    /// The API rejected the request.
    Api(GetInfoError),
    /// The request did not complete.
    Transport,
    /// The response matched neither known shape.
    Decode,
}

/// `x` is what a JSON number or string decodes to.
pub open spec fn decodes_num_or_string(v: JsonValue, x: NumOrString) -> bool {
    match (v, x) {
        (JsonValue::Int(a), NumOrString::Num(b)) => a == b,
        (JsonValue::Str(a), NumOrString::String(b)) => a@ == b@,
        _ => false,
    }
}

/// The object members under `key`, when `v` has an object there.
pub open spec fn object_member(v: JsonValue, key: Seq<char>) -> Option<Seq<(String, JsonValue)>> {
    match member(v, key) {
        Some(JsonValue::Object(es)) => Some(es@),
        _ => None,
    }
}

/// The text under `key`, when `v` has a string there.
pub open spec fn str_member(v: JsonValue, key: Seq<char>) -> Option<Seq<char>> {
    match member(v, key) {
        Some(JsonValue::Str(s)) => Some(s@),
        _ => None,
    }
}

/// `v` has the shape of player data: a non-empty string `name` and an object
/// `states` of integers. Other members are ignored.
pub open spec fn is_player_shape(v: JsonValue) -> bool {
    &&& str_member(v, "name"@) is Some
    &&& str_member(v, "name"@)->0.len() > 0
    &&& object_member(v, "states"@) is Some
    &&& forall|i: int|
        0 <= i < object_member(v, "states"@)->0.len() ==> (#[trigger] object_member(
            v,
            "states"@,
        )->0[i]).1 is Int
}

/// `p` is the player data that `v` holds.
pub open spec fn decodes_player(v: JsonValue, p: PlayerInfo) -> bool {
    let es = object_member(v, "states"@)->0;
    &&& is_player_shape(v)
    &&& p.name@ == str_member(v, "name"@)->0
    &&& p.states@.len() == es.len()
    &&& forall|i: int|
        0 <= i < es.len() ==> (#[trigger] p.states@[i]).0@ == es[i].0@ && es[i].1
            == JsonValue::Int(p.states@[i].1)
}

/// `v` has the shape of an error response: an object `error` whose members
/// are numbers or strings. Other members are ignored.
pub open spec fn is_envelope_shape(v: JsonValue) -> bool {
    &&& object_member(v, "error"@) is Some
    &&& forall|i: int|
        0 <= i < object_member(v, "error"@)->0.len() ==> {
            let x = (#[trigger] object_member(v, "error"@)->0[i]).1;
            x is Int || x is Str
        }
}

/// `e` is the error response that `v` holds.
pub open spec fn decodes_envelope(v: JsonValue, e: AccessErrorStructure) -> bool {
    let es = object_member(v, "error"@)->0;
    &&& is_envelope_shape(v)
    &&& e.error@.len() == es.len()
    &&& forall|i: int|
        0 <= i < es.len() ==> (#[trigger] e.error@[i]).0@ == es[i].0@ && decodes_num_or_string(
            es[i].1,
            e.error@[i].1,
        )
}

/// The numeric `code` of an error response.
pub open spec fn code_of(e: AccessErrorStructure) -> Option<i64> {
    match lookup(e.error@, "code"@) {
        Some(NumOrString::Num(n)) => Some(n),
        _ => None,
    }
}

/// The numeric `code` of an error response, read from the document.
pub open spec fn envelope_code(v: JsonValue) -> Option<i64> {
    match object_member(v, "error"@) {
        Some(es) => match lookup(es, "code"@) {
            Some(JsonValue::Int(n)) => Some(n),
            _ => None,
        },
        None => None,
    }
}

/// The error kind of an API error code.
pub open spec fn kind_of_code(code: i64) -> GetInfoError {
    if code == 6 {
        GetInfoError::InvalidId
    } else if code == 2 {
        GetInfoError::WrongKey
    } else {
        GetInfoError::Other(code)
    }
}

/// What a response document means: player data when it has that shape, else
/// the error that an error response with a numeric code names, else a decode
/// fault.
pub open spec fn response_outcome_ok(v: JsonValue, r: Result<PlayerInfo, FetchError>) -> bool {
    if is_player_shape(v) {
        r is Ok && decodes_player(v, r->Ok_0)
    } else if is_envelope_shape(v) && envelope_code(v) is Some {
        r == Err::<PlayerInfo, FetchError>(FetchError::Api(kind_of_code(envelope_code(v)->0)))
    } else {
        r == Err::<PlayerInfo, FetchError>(FetchError::Decode)
    }
}

/// The `hospital_timestamp` state of a player.
pub open spec fn hospital_of(p: PlayerInfo) -> Option<i64> {
    lookup(p.states@, "hospital_timestamp"@)
}

proof fn lemma_lookup_decoded(
    js: Seq<(String, JsonValue)>,
    ds: Seq<(String, NumOrString)>,
    key: Seq<char>,
)
    requires
        js.len() == ds.len(),
        forall|i: int|
            0 <= i < js.len() ==> (#[trigger] ds[i]).0@ == js[i].0@ && decodes_num_or_string(
                js[i].1,
                ds[i].1,
            ),
    ensures
        match lookup(ds, key) {
            Some(d) => lookup(js, key) is Some && decodes_num_or_string(lookup(js, key)->0, d),
            None => lookup(js, key) is None,
        },
    decreases js.len(),
{
    if js.len() > 0 {
        assert forall|i: int| 0 <= i < js.len() - 1 implies (#[trigger] ds.drop_last()[i]).0@
            == js.drop_last()[i].0@ && decodes_num_or_string(
            js.drop_last()[i].1,
            ds.drop_last()[i].1,
        ) by {
            assert(ds.drop_last()[i] == ds[i]);
        }
        lemma_lookup_decoded(js.drop_last(), ds.drop_last(), key);
        assert(ds.last() == ds[ds.len() - 1]);
    }
}

impl NumOrString {
    /// Reads a JSON number as `Num` and a JSON string as `String`; any other
    /// value is refused.
    pub fn from_json(v: &JsonValue) -> (r: Option<NumOrString>)
        ensures
            r is Some <==> (v is Int || v is Str),
            r is Some ==> decodes_num_or_string(*v, r->0),
    {
        match v {
            JsonValue::Int(n) => Some(NumOrString::Num(*n)),
            JsonValue::Str(s) => Some(NumOrString::String(s.clone())),
            _ => None,
        }
    }
}

impl PlayerInfo {
    /// Reads player data from a response document.
    pub fn from_json(v: &JsonValue) -> (r: Option<PlayerInfo>)
        ensures
            r is Some <==> is_player_shape(*v),
            r is Some ==> decodes_player(*v, r->0),
            r is Some ==> r->0.name@.len() > 0,
    {
        let name_key = String::from_str("name");
        let states_key = String::from_str("states");
        let name = match get_field(v, &name_key) {
            Some(JsonValue::Str(s)) => s.clone(),
            _ => return None,
        };
        if name.as_str().unicode_len() == 0 {
            return None;
        }
        let es = match get_field(v, &states_key) {
            Some(JsonValue::Object(es)) => es,
            _ => return None,
        };
        let mut states: Vec<(String, i64)> = Vec::new();
        let mut i: usize = 0;
        while i < es.len()
            invariant
                object_member(*v, "states"@) == Some(es@),
                str_member(*v, "name"@) == Some(name@),
                0 <= i <= es@.len(),
                states@.len() == i,
                forall|j: int|
                    0 <= j < i ==> (#[trigger] states@[j]).0@ == es@[j].0@ && es@[j].1
                        == JsonValue::Int(states@[j].1),
            decreases es@.len() - i,
        {
            match &es[i].1 {
                JsonValue::Int(n) => {
                    states.push((es[i].0.clone(), *n));
                },
                _ => {
                    assert(!(object_member(*v, "states"@)->0[i as int].1 is Int));
                    return None;
                },
            }
            i = i + 1;
        }
        let r = PlayerInfo { name, states };
        assert forall|j: int| 0 <= j < es@.len() implies (#[trigger] object_member(
            *v,
            "states"@,
        )->0[j]).1 is Int by {
            assert(es@[j].1 == JsonValue::Int(r.states@[j].1));
        }
        Some(r)
    }

    /// The `hospital_timestamp` state, in seconds since the Unix epoch.
    pub fn hospital_release(&self) -> (r: Option<i64>)
        ensures
            r == hospital_of(*self),
    {
        let key = String::from_str("hospital_timestamp");
        match get_member(&self.states, &key) {
            Some(t) => Some(*t),
            None => None,
        }
    }
}

impl AccessErrorStructure {
    /// Reads an error response, deciding each member of `error` by its JSON
    /// type.
    pub fn from_json(v: &JsonValue) -> (r: Option<AccessErrorStructure>)
        ensures
            r is Some <==> is_envelope_shape(*v),
            r is Some ==> decodes_envelope(*v, r->0),
    {
        let error_key = String::from_str("error");
        let es = match get_field(v, &error_key) {
            Some(JsonValue::Object(es)) => es,
            _ => return None,
        };
        let mut error: Vec<(String, NumOrString)> = Vec::new();
        let mut i: usize = 0;
        while i < es.len()
            invariant
                object_member(*v, "error"@) == Some(es@),
                0 <= i <= es@.len(),
                error@.len() == i,
                forall|j: int|
                    0 <= j < i ==> (#[trigger] error@[j]).0@ == es@[j].0@
                        && decodes_num_or_string(es@[j].1, error@[j].1),
                forall|j: int|
                    0 <= j < i ==> {
                        let x = (#[trigger] es@[j]).1;
                        x is Int || x is Str
                    },
            decreases es@.len() - i,
        {
            match NumOrString::from_json(&es[i].1) {
                Some(x) => {
                    error.push((es[i].0.clone(), x));
                },
                None => {
                    assert(object_member(*v, "error"@)->0[i as int] == es@[i as int]);
                    return None;
                },
            }
            i = i + 1;
        }
        Some(AccessErrorStructure { error })
    }

    /// The numeric `code` member, if there is one.
    pub fn code(&self) -> (r: Option<i64>)
        ensures
            r == code_of(*self),
    {
        let key = String::from_str("code");
        match get_member(&self.error, &key) {
            Some(NumOrString::Num(n)) => Some(*n),
            _ => None,
        }
    }
}

/// Classifies an error response by its numeric `code`: 6 is an invalid id,
/// 2 a wrong key, and any other code is kept as it is.
pub fn classify(e: &AccessErrorStructure) -> (r: GetInfoError)
    requires
        code_of(*e) is Some,
    ensures
        r == kind_of_code(code_of(*e)->0),
{
    let code = e.code().unwrap();
    if code == 6 {
        GetInfoError::InvalidId
    } else if code == 2 {
        GetInfoError::WrongKey
    } else {
        GetInfoError::Other(code)
    }
}

/// An error response whose `error` map holds just a numeric `code` other
/// than 2 and 6 has that code, and classifies as an unclassified error that
/// carries the whole code.
pub proof fn lemma_other_codes_unclassified(e: AccessErrorStructure, code: i64)
    requires
        e.error@.len() == 1,
        e.error@[0].0@ == "code"@,
        e.error@[0].1 == NumOrString::Num(code),
        code != 2,
        code != 6,
    ensures
        code_of(e) == Some(code),
        kind_of_code(code_of(e)->0) == GetInfoError::Other(code),
{
    assert(e.error@.last() == e.error@[0]);
}

/// Code 6 is an invalid id and code 2 a wrong key.
pub proof fn lemma_known_codes()
    ensures
        kind_of_code(6) == GetInfoError::InvalidId,
        kind_of_code(2) == GetInfoError::WrongKey,
{
}

/// Text of an integer in decimal, with a leading `-` when negative.
pub open spec fn signed_decimal(n: int) -> Seq<char> {
    if n < 0 {
        seq!['-'] + decimal((-n) as nat)
    } else {
        decimal(n as nat)
    }
}

/// Message that describes an error kind.
pub open spec fn error_message(e: GetInfoError) -> Seq<char> {
    match e {
        GetInfoError::InvalidId => "Invalid Id"@,
        GetInfoError::WrongKey => "Wrong Key"@,
        GetInfoError::Other(code) => "Other API error: "@ + signed_decimal(code as int),
    }
}

impl GetInfoError {
    /// A message for the user: `Invalid Id`, `Wrong Key`, or
    /// `Other API error: ` followed by the code.
    pub fn describe(&self) -> (r: String)
        ensures
            r@ == error_message(*self),
    {
        match self {
            GetInfoError::InvalidId => String::from_str("Invalid Id"),
            GetInfoError::WrongKey => String::from_str("Wrong Key"),
            GetInfoError::Other(code) => {
                let mut r = String::from_str("Other API error: ");
                if *code < 0 {
                    proof {
                        reveal_strlit("-");
                    }
                    r.append("-");
                    push_decimal(&mut r, (-(*code as i128)) as u64);
                } else {
                    push_decimal(&mut r, *code as u64);
                }
                assert(r@ =~= error_message(*self));
                r
            },
        }
    }
}

/// Decodes a response document: player data if it has that shape, else the
/// classified error of an error response, else a decode fault.
pub fn decode_response(v: &JsonValue) -> (r: Result<PlayerInfo, FetchError>)
    ensures
        response_outcome_ok(*v, r),
{
    match PlayerInfo::from_json(v) {
        Some(p) => Ok(p),
        None => match AccessErrorStructure::from_json(v) {
            Some(e) => {
                proof {
                    let es = object_member(*v, "error"@)->0;
                    lemma_lookup_decoded(es, e.error@, "code"@);
                }
                if e.code().is_some() {
                    Err(FetchError::Api(classify(&e)))
                } else {
                    Err(FetchError::Decode)
                }
            },
            None => Err(FetchError::Decode),
        },
    }
}

/// Fixed start of every request address.
pub open spec fn api_base() -> Seq<char> {
    "https://api.torn.com/v2/"@
}

/// Query string of a parameter list: `?k1=v1&k2=v2...`, values unescaped.
pub open spec fn query_text(ps: Seq<(String, String)>) -> Seq<char>
    decreases ps.len(),
{
    if ps.len() == 0 {
        Seq::empty()
    } else {
        query_text(ps.drop_last()) + (if ps.len() == 1 {
            seq!['?']
        } else {
            seq!['&']
        }) + ps.last().0@ + seq!['='] + ps.last().1@
    }
}

/// Builds a request address: the fixed base, then `section`, then the
/// parameters as a query string in their order.
pub fn request_url(section: &str, params: &Vec<(String, String)>) -> (r: String)
    ensures
        r@ == api_base() + section@ + query_text(params@),
{
    let mut url = String::from_str("https://api.torn.com/v2/");
    url.append(section);
    let mut i: usize = 0;
    while i < params.len()
        invariant
            0 <= i <= params@.len(),
            url@ == api_base() + section@ + query_text(params@.subrange(0, i as int)),
        decreases params@.len() - i,
    {
        proof {
            reveal_strlit("?");
            reveal_strlit("&");
            reveal_strlit("=");
        }
        let ghost before = url@;
        if i == 0 {
            url.append("?");
        } else {
            url.append("&");
        }
        let ghost sep = if i == 0 {
            seq!['?']
        } else {
            seq!['&']
        };
        assert(url@ == before + sep);
        url.append(params[i].0.as_str());
        url.append("=");
        url.append(params[i].1.as_str());
        proof {
            let s = params@.subrange(0, i as int + 1);
            assert(s.drop_last() =~= params@.subrange(0, i as int));
            assert(s.last() == params@[i as int]);
            assert(query_text(s) == query_text(s.drop_last()) + sep + s.last().0@ + seq!['=']
                + s.last().1@);
            assert(url@ =~= api_base() + section@ + query_text(s));
        }
        i = i + 1;
    }
    assert(params@.subrange(0, i as int) =~= params@);
    url
}

/// Relies on torn_api's generated `UserRequest` builder and `into_request`:
/// with only `id` set, the request lists the single query parameter `id`,
/// written as the id's decimal text.
#[verifier::external_body]
fn user_request_params(id: u32) -> (r: Vec<(String, String)>)
    ensures
        r@.len() == 1,
        r@[0].0@ == "id"@,
        r@[0].1@ == decimal(id as nat),
{
    let req = torn_api::request::models::UserRequest::builder().id(id.to_string()).build();
    let (_, request) = torn_api::request::IntoRequest::into_request(req);
    request.parameters.into_iter().map(|(k, v)| (k.to_string(), v)).collect()
}

/// Query parameters that ask for one player's data with a key: the user
/// request's `id`, then `key`.
pub fn user_params(id: u32, apikey: &String) -> (r: Vec<(String, String)>)
    ensures
        r@.len() == 2,
        r@[0].0@ == "id"@,
        r@[0].1@ == decimal(id as nat),
        r@[1].0@ == "key"@,
        r@[1].1@ == apikey@,
{
    let mut r = user_request_params(id);
    r.push((String::from_str("key"), apikey.clone()));
    r
}

} // verus!

use vstd::prelude::*;

use crate::api::{
    api_base, hospital_of, query_text, request_url, user_params, FetchError, GetInfoError,
    PlayerInfo,
};
use crate::time::{timestamp_in_range, utc_accepts};
use crate::util::decimal;

verus! {

/// Longest id text that the id field keeps.
pub const MAX_ID_DIGITS: usize = 8;

/// What a simple monitor holds.
pub struct MonitorView {
    pub id: u32,
    pub release: i64,
    pub errored: bool,
    pub apikey: Seq<char>,
    pub name: Seq<char>,
}

/// Tracks one player's hospital release time and name, given the player's id.
#[derive(Debug, Clone)]
pub struct SimpleHospMonitor {
    /// Id of the tracked player.
    pub id: u32,
    /// Hospital release time, in seconds since the Unix epoch.
    hosp_timestamp: i64,
    /// Set when the last refresh found the id invalid.
    errored: bool,
    /// Key used by the last refresh, kept for error messages.
    apikey: String,
    /// Player name from the last successful refresh.
    name: String,
}

impl View for SimpleHospMonitor {
    type V = MonitorView;

    closed spec fn view(&self) -> MonitorView {
        MonitorView {
            id: self.id,
            release: self.hosp_timestamp,
            errored: self.errored,
            apikey: self.apikey@,
            name: self.name@,
        }
    }
}

/// A fresh monitor of `id` whose release time is `now`.
pub open spec fn fresh_view(id: u32, now: i64) -> MonitorView {
    MonitorView { id, release: now, errored: false, apikey: Seq::empty(), name: Seq::empty() }
}

/// The release time of a fetched player, when there is one.
pub open spec fn fetched_release(fetched: Result<PlayerInfo, FetchError>) -> Option<i64> {
    match fetched {
        Ok(p) => hospital_of(p),
        Err(_) => None,
    }
}

/// Result of a refresh: the fetch error if the fetch failed; a decode fault
/// if the player has no usable hospital release time; else success.
pub open spec fn refresh_result(
    fetched: Result<PlayerInfo, FetchError>,
    in_range: bool,
) -> Result<(), FetchError> {
    match fetched {
        Ok(p) => if hospital_of(p) is Some && in_range {
            Ok(())
        } else {
            Err(FetchError::Decode)
        },
        Err(e) => Err(e),
    }
}

/// The fetched player has a release time that a UTC date-time can hold.
pub open spec fn release_accepted(fetched: Result<PlayerInfo, FetchError>) -> bool {
    fetched_release(fetched) is Some && utc_accepts(fetched_release(fetched)->0)
}

/// Monitor state after a refresh with result `r`: the key is recorded; on
/// success the release time and name come from the player and the error flag
/// clears; on failure those stay, and the flag is set exactly for an invalid
/// id.
pub open spec fn refreshed(
    old: MonitorView,
    new: MonitorView,
    apikey: Seq<char>,
    fetched: Result<PlayerInfo, FetchError>,
    r: Result<(), FetchError>,
) -> bool {
    &&& new.id == old.id
    &&& new.apikey == apikey
    &&& r is Ok ==> {
        &&& new.release == fetched_release(fetched)->0
        &&& new.name == fetched->Ok_0.name@
        &&& !new.errored
    }
    &&& r is Err ==> {
        &&& new.release == old.release
        &&& new.name == old.name
        &&& new.errored == (r == Err::<(), FetchError>(FetchError::Api(GetInfoError::InvalidId)))
    }
}

/// Refreshing `old` from `fetched` gave `new` and the result `r`: an empty
/// slot stays empty and succeeds; a simple monitor refreshes as `refreshed`
/// says.
pub open spec fn monitor_refreshed(
    old: MonitorList,
    new: MonitorList,
    apikey: Seq<char>,
    fetched: Result<PlayerInfo, FetchError>,
    r: Result<(), FetchError>,
) -> bool {
    match old {
        MonitorList::Unset => r is Ok && new is Unset,
        MonitorList::Simple(m) => {
            &&& new is Simple
            &&& r == refresh_result(fetched, release_accepted(fetched))
            &&& refreshed(m@, new->Simple_0@, apikey, fetched, r)
        },
    }
}

/// Request address for one player's data: the `user` section with `id` and
/// `key` parameters.
pub open spec fn user_url(id: u32, apikey: Seq<char>) -> Seq<char> {
    api_base() + "user"@ + seq!['?'] + "id"@ + seq!['='] + decimal(id as nat) + seq!['&']
        + "key"@ + seq!['='] + apikey
}

/// A decimal digit character.
pub open spec fn is_digit(c: char) -> bool {
    '0' <= c && c <= '9'
}

/// The decimal digits of a text, in order.
pub open spec fn digits_in(s: Seq<char>) -> Seq<char>
    decreases s.len(),
{
    if s.len() == 0 {
        Seq::empty()
    } else if is_digit(s.last()) {
        digits_in(s.drop_last()).push(s.last())
    } else {
        digits_in(s.drop_last())
    }
}

/// Value of a text of decimal digits.
pub open spec fn digits_value(s: Seq<char>) -> nat
    decreases s.len(),
{
    if s.len() == 0 {
        0
    } else {
        digits_value(s.drop_last()) * 10 + ((s.last() as u32) - ('0' as u32)) as nat
    }
}

/// Id that the id field holds after `input` was typed: its digits, at most
/// the first eight of them, read in decimal; zero when there are none.
pub open spec fn id_of_input(input: Seq<char>) -> nat {
    let d = digits_in(input);
    digits_value(
        if d.len() > MAX_ID_DIGITS {
            d.subrange(0, MAX_ID_DIGITS as int)
        } else {
            d
        },
    )
}

/// Powers of ten.
pub open spec fn pow10(n: nat) -> nat
    decreases n,
{
    if n == 0 {
        1
    } else {
        10 * pow10((n - 1) as nat)
    }
}

proof fn lemma_pow10_le(n: nat)
    requires
        n <= 8,
    ensures
        pow10(n) <= 100_000_000,
{
    reveal_with_fuel(pow10, 9);
    if n == 0 {
    } else if n == 1 {
    } else if n == 2 {
    } else if n == 3 {
    } else if n == 4 {
    } else if n == 5 {
    } else if n == 6 {
    } else if n == 7 {
    } else {
        assert(n == 8);
    }
}

/// Reads the id field's text as the spec of `id_of_input` says.
pub fn parse_id_input(input: &str) -> (r: u32)
    ensures
        r as nat == id_of_input(input@),
{
    let n = input.unicode_len();
    let mut acc: u64 = 0;
    let mut taken: usize = 0;
    let mut i: usize = 0;
    while i < n
        invariant
            n == input@.len(),
            0 <= i <= n,
            taken <= MAX_ID_DIGITS,
            taken as nat == if digits_in(input@.subrange(0, i as int)).len() > MAX_ID_DIGITS {
                MAX_ID_DIGITS as nat
            } else {
                digits_in(input@.subrange(0, i as int)).len()
            },
            acc as nat == digits_value(
                digits_in(input@.subrange(0, i as int)).subrange(0, taken as int),
            ),
            acc < pow10(taken as nat),
        decreases n - i,
    {
        let c = input.get_char(i);
        let ghost pre = input@.subrange(0, i as int);
        let ghost d = digits_in(pre);
        assert(input@.subrange(0, i as int + 1).drop_last() =~= pre);
        assert(input@.subrange(0, i as int + 1).last() == c);
        if '0' <= c && c <= '9' {
            if taken < MAX_ID_DIGITS {
                proof {
                    lemma_pow10_le(taken as nat);
                    assert(d.subrange(0, taken as int) =~= d);
                    assert(d.push(c).subrange(0, taken as int + 1) =~= d.push(c));
                    assert(d.push(c).drop_last() =~= d);
                    assert(acc * 10 + 9 < pow10(taken as nat) * 10) by (nonlinear_arith)
                        requires
                            acc < pow10(taken as nat),
                    ;
                }
                acc = acc * 10 + ((c as u32) - ('0' as u32)) as u64;
                taken = taken + 1;
                proof {
                    assert(pow10(taken as nat) == 10 * pow10((taken - 1) as nat));
                }
            } else {
                proof {
                    assert(d.push(c).subrange(0, taken as int) =~= d.subrange(0, taken as int));
                }
            }
        }
        i = i + 1;
    }
    proof {
        assert(input@.subrange(0, n as int) =~= input@);
        let d = digits_in(input@);
        if d.len() <= MAX_ID_DIGITS {
            assert(d.subrange(0, taken as int) =~= d);
        }
        lemma_pow10_le(taken as nat);
    }
    acc as u32
}

impl SimpleHospMonitor {
    /// A monitor of `id` whose release time is `now` until its first refresh.
    pub fn new(id: u32, now: i64) -> (r: SimpleHospMonitor)
        ensures
            r@ == fresh_view(id, now),
    {
        SimpleHospMonitor {
            id,
            hosp_timestamp: now,
            errored: false,
            apikey: String::new(),
            name: String::new(),
        }
    }

    /// Hospital release time, in seconds since the Unix epoch.
    pub fn hosp_timestamp(&self) -> (r: i64)
        ensures
            r == self@.release,
    {
        self.hosp_timestamp
    }

    /// Whether the last refresh found the id invalid.
    pub fn errored(&self) -> (r: bool)
        ensures
            r == self@.errored,
    {
        self.errored
    }

    /// Key used by the last refresh.
    pub fn apikey(&self) -> (r: &str)
        ensures
            r@ == self@.apikey,
    {
        self.apikey.as_str()
    }

    /// Player name from the last successful refresh.
    pub fn name(&self) -> (r: &str)
        ensures
            r@ == self@.name,
    {
        self.name.as_str()
    }

    /// The id, as tracked.
    pub fn id(&self) -> (r: u32)
        ensures
            r == self@.id,
    {
        self.id
    }

    /// Takes the id field's text: keeps its decimal digits, at most eight,
    /// and reads them; no digits reset the id to zero.
    pub fn set_id_from_input(&mut self, input: &str)
        ensures
            final(self)@ == (MonitorView { id: id_of_input(input@) as u32, ..old(self)@ }),
    {
        self.id = parse_id_input(input);
    }

    /// Address of the request that refreshes this monitor with `apikey`.
    pub fn request_url(&self, apikey: &String) -> (r: String)
        ensures
            r@ == user_url(self@.id, apikey@),
    {
        let params = user_params(self.id, apikey);
        let r = request_url("user", &params);
        proof {
            reveal_with_fuel(query_text, 3);
            assert(params@.drop_last().drop_last() =~= Seq::<(String, String)>::empty());
            assert(r@ =~= user_url(self@.id, apikey@));
        }
        r
    }

    /// Seconds left until the release time, clamped at zero.
    pub fn seconds_left(&self, now: i64) -> (r: i64)
        ensures
            r as int == crate::util::seconds_until(self@.release as int, now as int),
    {
        crate::util::seconds_left(self.hosp_timestamp, now)
    }

    /// Takes the outcome of a fetch for this monitor; `in_range` says whether
    /// the fetched release time is one that a UTC date-time can hold.
    pub fn apply_refresh(
        &mut self,
        apikey: &String,
        fetched: Result<PlayerInfo, FetchError>,
        in_range: bool,
    ) -> (r: Result<(), FetchError>)
        ensures
            r == refresh_result(fetched, in_range),
            refreshed(old(self)@, final(self)@, apikey@, fetched, r),
    {
        self.apikey = apikey.clone();
        match fetched {
            Ok(p) => match p.hospital_release() {
                Some(t) => {
                    if in_range {
                        self.hosp_timestamp = t;
                        self.name = p.name;
                        self.errored = false;
                        Ok(())
                    } else {
                        self.errored = false;
                        Err(FetchError::Decode)
                    }
                },
                None => {
                    self.errored = false;
                    Err(FetchError::Decode)
                },
            },
            Err(e) => {
                self.errored = e == FetchError::Api(GetInfoError::InvalidId);
                Err(e)
            },
        }
    }

    /// Refreshes from the outcome of a fetch for this monitor.
    pub fn update_torn(&mut self, apikey: &String, fetched: Result<PlayerInfo, FetchError>) -> (r:
        Result<(), FetchError>)
        ensures
            r == refresh_result(fetched, release_accepted(fetched)),
            refreshed(old(self)@, final(self)@, apikey@, fetched, r),
    {
        let in_range = match &fetched {
            Ok(p) => match p.hospital_release() {
                Some(t) => timestamp_in_range(t),
                None => false,
            },
            Err(_) => false,
        };
        self.apply_refresh(apikey, fetched, in_range)
    }
}

/// Every kind of monitor.
#[derive(Debug, Clone)]
pub enum MonitorList {
    /// An empty slot.
    Unset,
    /// A simple hospital monitor.
    Simple(SimpleHospMonitor),
}

impl Default for MonitorList {
    /// An empty slot.
    fn default() -> (r: MonitorList)
        ensures
            r is Unset,
    {
        MonitorList::Unset
    }
}

impl MonitorList {
    /// Name of the monitor kind: `Simple`, or empty for an empty slot.
    pub fn label(&self) -> (r: String)
        ensures
            r@ == (if self is Simple {
                "Simple"@
            } else {
                ""@
            }),
    {
        match self {
            MonitorList::Simple(_) => String::from_str("Simple"),
            MonitorList::Unset => String::from_str(""),
        }
    }

    /// Refreshes a simple monitor from the outcome of its fetch; an empty
    /// slot is left as it is.
    pub fn update_torn(&mut self, apikey: &String, fetched: Result<PlayerInfo, FetchError>) -> (r:
        Result<(), FetchError>)
        ensures
            monitor_refreshed(*old(self), *final(self), apikey@, fetched, r),
    {
        match self {
            MonitorList::Simple(m) => m.update_torn(apikey, fetched),
            MonitorList::Unset => Ok(()),
        }
    }
}

/// Refreshes every monitor in order, each from its own fetch outcome; a
/// failure on one leaves the others to go on.
pub fn refresh_all(
    monitors: &mut Vec<MonitorList>,
    apikey: &String,
    fetched: Vec<Result<PlayerInfo, FetchError>>,
) -> (r: Vec<Result<(), FetchError>>)
    requires
        old(monitors)@.len() == fetched@.len(),
    ensures
        final(monitors)@.len() == old(monitors)@.len(),
        r@.len() == old(monitors)@.len(),
        forall|i: int|
            0 <= i < r@.len() ==> monitor_refreshed(
                old(monitors)@[i],
                final(monitors)@[i],
                apikey@,
                fetched@[i],
                #[trigger] r@[i],
            ),
{
    let ghost orig = monitors@;
    let ghost outcomes = fetched@;
    let mut rest: Vec<MonitorList> = Vec::new();
    std::mem::swap(monitors, &mut rest);
    let mut pending = fetched;
    let mut results: Vec<Result<(), FetchError>> = Vec::new();
    let n = rest.len();
    let mut i: usize = 0;
    while i < n
        invariant
            n == orig.len(),
            outcomes.len() == orig.len(),
            0 <= i <= n,
            rest@ == orig.subrange(i as int, n as int),
            pending@ == outcomes.subrange(i as int, n as int),
            monitors@.len() == i,
            results@.len() == i,
            forall|j: int|
                0 <= j < i ==> monitor_refreshed(
                    orig[j],
                    monitors@[j],
                    apikey@,
                    outcomes[j],
                    #[trigger] results@[j],
                ),
        decreases n - i,
    {
        let mut m = rest.remove(0);
        let f = pending.remove(0);
        assert(m == orig[i as int]);
        assert(f == outcomes[i as int]);
        let res = m.update_torn(apikey, f);
        monitors.push(m);
        results.push(res);
        assert(rest@ =~= orig.subrange(i as int + 1, n as int));
        assert(pending@ =~= outcomes.subrange(i as int + 1, n as int));
        i = i + 1;
    }
    results
}

/// Whether any refresh was refused for a wrong key, which calls for asking
/// the user for a new key.
pub fn needs_key_prompt(results: &Vec<Result<(), FetchError>>) -> (r: bool)
    ensures
        r == exists|i: int|
            0 <= i < results@.len() && #[trigger] results@[i] == Err::<(), FetchError>(
                FetchError::Api(GetInfoError::WrongKey),
            ),
{
    let mut i: usize = 0;
    while i < results.len()
        invariant
            0 <= i <= results@.len(),
            forall|j: int|
                0 <= j < i ==> #[trigger] results@[j] != Err::<(), FetchError>(
                    FetchError::Api(GetInfoError::WrongKey),
                ),
        decreases results@.len() - i,
    {
        match &results[i] {
            Err(FetchError::Api(GetInfoError::WrongKey)) => return true,
            _ => {},
        }
        i = i + 1;
    }
    false
}

} // verus!

use crate::alert::elapsed;
use crate::door_state::DoorState;
use crate::state::{State, Timestamp};
use vstd::prelude::*;
use vstd::string::{StrSliceExecFns, StringExecFns};

verus! {

/// What the status server does with a request path.
#[derive(Copy, Clone, Debug, PartialEq, Eq, Structural)]
pub enum Route {
    /// `/`: the human-readable page.
    Home,
    /// `/door.json`: the state as JSON.
    DoorJson,
    /// Any other path: 404.
    NotFound,
}

pub open spec fn route_of(url: Seq<char>) -> Route {
    if url == "/"@ {
        Route::Home
    } else if url == "/door.json"@ {
        Route::DoorJson
    } else {
        Route::NotFound
    }
}

/// The JSON object `{state, secs_since_notified, open_for}` as the json crate
/// pretty-prints it with an indent of two spaces; `None` is written `null`.
pub uninterp spec fn door_json_text(
    state: Seq<char>,
    secs_since_notified: Option<u64>,
    open_for: Option<u64>,
) -> Seq<char>;

/// English "time ago" wording of a duration in milliseconds, e.g. "5 minutes ago".
pub uninterp spec fn time_ago(millis: u64) -> Seq<char>;

pub open spec fn secs_since_notified_spec(state: State, now: u64) -> Option<u64> {
    match state.notified_at {
        Some(at) => Some(elapsed(at, now) / 1000),
        None => None,
    }
}

pub open spec fn open_for_secs_spec(state: State, now: u64) -> Option<u64> {
    match state.timestamp {
        Timestamp::OpenSince(since) => Some(elapsed(since, now) / 1000),
        _ => None,
    }
}

/// The first line of the home page.
pub open spec fn status_line_spec(state: State, now: u64) -> Seq<char> {
    match state.door_state {
        DoorState::Open => match state.timestamp {
            Timestamp::OpenSince(since) => "\u{1F534} Opened "@ + time_ago(elapsed(since, now)),
            _ => "\u{1F534} Opened "@ + "at an unknown time"@,
        },
        DoorState::Closed => "\u{1F7E2} Closed"@,
        DoorState::Unknown => "\u{1F535} Unknown"@,
    }
}

/// Relies on json's `object::Object::insert` and `stringify_pretty`: the text
/// depends on the three values alone.
#[verifier::external_body]
fn door_json_pretty(state: &str, secs_since_notified: Option<u64>, open_for: Option<u64>) -> (r: String)
    ensures
        r@ == door_json_text(state@, secs_since_notified, open_for),
{
    let mut obj = json::object::Object::new();
    obj.insert("state", json::JsonValue::from(state));
    obj.insert("secs_since_notified", json::JsonValue::from(secs_since_notified));
    obj.insert("open_for", json::JsonValue::from(open_for));
    json::stringify_pretty(json::JsonValue::Object(obj), 2)
}

/// Relies on timeago's `Formatter::new().convert`: English wording that
/// depends on the duration alone.
#[verifier::external_body]
fn ago_text(millis: u64) -> (r: String)
    ensures
        r@ == time_ago(millis),
{
    timeago::Formatter::new().convert(std::time::Duration::from_millis(millis))
}

/// Compares two strings character by character.
fn same_text(a: &str, b: &str) -> (r: bool)
    ensures
        r == (a@ == b@),
{
    let n = a.unicode_len();
    if n != b.unicode_len() {
        return false;
    }
    let mut i: usize = 0;
    while i < n
        invariant
            n == a@.len(),
            n == b@.len(),
            i <= n,
            a@.subrange(0, i as int) == b@.subrange(0, i as int),
        decreases n - i,
    {
        if a.get_char(i) != b.get_char(i) {
            assert(a@[i as int] != b@[i as int]);
            return false;
        }
        assert(a@.subrange(0, i + 1) == a@.subrange(0, i as int).push(a@[i as int]));
        assert(b@.subrange(0, i + 1) == b@.subrange(0, i as int).push(b@[i as int]));
        i = i + 1;
    }
    assert(a@ == a@.subrange(0, n as int));
    assert(b@ == b@.subrange(0, n as int));
    true
}

/// Picks the handler for a request path.
pub fn route(url: &str) -> (r: Route)
    ensures
        r == route_of(url@),
{
    if same_text(url, "/") {
        Route::Home
    } else if same_text(url, "/door.json") {
        Route::DoorJson
    } else {
        Route::NotFound
    }
}

/// Whole seconds since the last alert of the episode, if one was sent.
pub fn secs_since_notified(state: &State, now: u64) -> (r: Option<u64>)
    ensures
        r == secs_since_notified_spec(*state, now),
{
    match state.notified_at {
        Some(at) => Some((if now >= at { now - at } else { 0 }) / 1000),
        None => None,
    }
}

/// Whole seconds that the door has been open, if an open episode is in progress.
pub fn open_for_secs(state: &State, now: u64) -> (r: Option<u64>)
    ensures
        r == open_for_secs_spec(*state, now),
{
    match state.timestamp {
        Timestamp::OpenSince(since) => Some((if now >= since { now - since } else { 0 }) / 1000),
        _ => None,
    }
}

/// The body of `/door.json` for a snapshot of the state taken at `now`.
pub fn door_json(state: &State, now: u64) -> (r: String)
    ensures
        r@ == door_json_text(
            state.door_state.name(),
            secs_since_notified_spec(*state, now),
            open_for_secs_spec(*state, now),
        ),
{
    let name = state.door_state.to_string();
    door_json_pretty(name.as_str(), secs_since_notified(state, now), open_for_secs(state, now))
}

/// The first line of the home page for a snapshot taken at `now`.
pub fn status_line(state: &State, now: u64) -> (r: String)
    ensures
        r@ == status_line_spec(*state, now),
{
    match state.door_state {
        DoorState::Open => {
            let mut line = String::from_str("\u{1F534} Opened ");
            match state.timestamp {
                Timestamp::OpenSince(since) => {
                    let ago = ago_text(if now >= since { now - since } else { 0 });
                    line.append(ago.as_str());
                },
                _ => line.append("at an unknown time"),
            }
            line
        },
        DoorState::Closed => String::from_str("\u{1F7E2} Closed"),
        DoorState::Unknown => String::from_str("\u{1F535} Unknown"),
    }
}

} // verus!

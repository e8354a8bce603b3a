use crate::state::Timestamp;
use vstd::prelude::*;
use vstd::string::StringExecFns;

verus! {

/// How long the door may stay open before an alert is raised: five minutes,
/// in milliseconds.
pub const ALERT_THRESHOLD_MS: u64 = 300000;

/// The character of one decimal digit.
pub open spec fn digit_char(d: nat) -> char {
    if d == 0 { '0' }
    else if d == 1 { '1' }
    else if d == 2 { '2' }
    else if d == 3 { '3' }
    else if d == 4 { '4' }
    else if d == 5 { '5' }
    else if d == 6 { '6' }
    else if d == 7 { '7' }
    else if d == 8 { '8' }
    else { '9' }
}

/// The decimal notation of `n`, without leading zeros.
pub open spec fn decimal(n: nat) -> Seq<char>
    decreases n,
{
    if n < 10 {
        seq![digit_char(n)]
    } else {
        decimal(n / 10).push(digit_char(n % 10))
    }
}

/// The suffix that makes a unit plural: none for exactly one.
pub open spec fn plural_suffix(value: u64) -> Seq<char> {
    if value == 1 { ""@ } else { "s"@ }
}

/// A duration in words: whole seconds up to a minute, whole minutes beyond.
pub open spec fn duration_text(millis: u64) -> Seq<char> {
    let secs = millis / 1000;
    if secs > 60 {
        decimal((secs / 60) as nat) + " minute"@ + plural_suffix(secs / 60)
    } else {
        decimal(secs as nat) + " second"@ + plural_suffix(secs)
    }
}

/// Time from `since` to `now`; zero where the clock reads earlier than `since`.
pub open spec fn elapsed(since: u64, now: u64) -> u64 {
    if now >= since { (now - since) as u64 } else { 0 }
}

/// The alert that is owed at `now`, if any: the episode has lasted longer
/// than the threshold and no alert has been sent for it.
pub open spec fn alert_text(timestamp: Timestamp, notified_at: Option<u64>, now: u64) -> Option<Seq<char>> {
    match timestamp {
        Timestamp::Idle => None,
        Timestamp::OpenSince(since) => {
            if elapsed(since, now) > ALERT_THRESHOLD_MS && notified_at is None {
                Some("Garage door has been open for "@ + duration_text(elapsed(since, now)))
            } else {
                None
            }
        },
        Timestamp::ClosedAfter(d) => {
            if d > ALERT_THRESHOLD_MS && notified_at is None {
                Some("Garage door closed after "@ + duration_text(d) + " open"@)
            } else {
                None
            }
        },
    }
}

/// The JSON object `{"text": message}` as the json crate writes it compactly.
pub uninterp spec fn text_object_json(message: Seq<char>) -> Seq<char>;

/// Relies on json's `object::Object::insert` and `stringify`: the text
/// depends on the message alone.
#[verifier::external_body]
fn stringify_text_object(message: &str) -> (r: String)
    ensures
        r@ == text_object_json(message@),
{
    let mut obj = json::object::Object::new();
    obj.insert("text", json::JsonValue::from(message));
    json::stringify(json::JsonValue::Object(obj))
}

/// The body of the webhook POST that delivers `message`: `{"text": message}`.
pub fn webhook_body(message: &str) -> (r: String)
    ensures
        r@ == text_object_json(message@),
{
    stringify_text_object(message)
}

fn digit_str(d: u64) -> (r: &'static str)
    requires
        d < 10,
    ensures
        r@ == seq![digit_char(d as nat)],
{
    proof {
        reveal_strlit("0");
        reveal_strlit("1");
        reveal_strlit("2");
        reveal_strlit("3");
        reveal_strlit("4");
        reveal_strlit("5");
        reveal_strlit("6");
        reveal_strlit("7");
        reveal_strlit("8");
        reveal_strlit("9");
    }
    if d == 0 { "0" }
    else if d == 1 { "1" }
    else if d == 2 { "2" }
    else if d == 3 { "3" }
    else if d == 4 { "4" }
    else if d == 5 { "5" }
    else if d == 6 { "6" }
    else if d == 7 { "7" }
    else if d == 8 { "8" }
    else { "9" }
}

/// Writes `n` in decimal.
pub fn decimal_string(n: u64) -> (r: String)
    ensures
        r@ == decimal(n as nat),
    decreases n,
{
    if n < 10 {
        String::from_str(digit_str(n))
    } else {
        let mut s = decimal_string(n / 10);
        s.append(digit_str(n % 10));
        s
    }
}

/// `"s"` unless `value` is exactly one.
pub fn plural(value: u64) -> (r: &'static str)
    ensures
        r@ == plural_suffix(value),
{
    if value == 1 {
        ""
    } else {
        "s"
    }
}

/// Renders a duration given in milliseconds, e.g. `"1 second"`, `"2 minutes"`.
pub fn open_for_time(open_for: u64) -> (r: String)
    ensures
        r@ == duration_text(open_for),
{
    let secs = open_for / 1000;
    if secs > 60 {
        let minutes = secs / 60;
        let mut s = decimal_string(minutes);
        s.append(" minute");
        s.append(plural(minutes));
        s
    } else {
        let mut s = decimal_string(secs);
        s.append(" second");
        s.append(plural(secs));
        s
    }
}

/// Decides whether an alert is owed at `now` and, if so, composes it.
///
/// The caller delivers the message and, only once delivery succeeded, records
/// `now` as the notification time; a failed delivery leaves the alert owed.
/// A `ClosedAfter` episode gets the closing alert; the aggregator of this
/// library clears an episode at once and never records one.
pub fn maybe_send(timestamp: Timestamp, notified_at: Option<u64>, now: u64) -> (r: Option<String>)
    ensures
        r is Some <==> alert_text(timestamp, notified_at, now) is Some,
        r is Some ==> r->Some_0@ == alert_text(timestamp, notified_at, now)->Some_0,
{
    match timestamp {
        Timestamp::Idle => None,
        Timestamp::OpenSince(since) => {
            let open_for = if now >= since { now - since } else { 0 };
            if open_for > ALERT_THRESHOLD_MS && notified_at.is_none() {
                let mut message = String::from_str("Garage door has been open for ");
                let text = open_for_time(open_for);
                message.append(text.as_str());
                Some(message)
            } else {
                None
            }
        },
        Timestamp::ClosedAfter(duration) => {
            if duration > ALERT_THRESHOLD_MS && notified_at.is_none() {
                let mut message = String::from_str("Garage door closed after ");
                let text = open_for_time(duration);
                message.append(text.as_str());
                message.append(" open");
                Some(message)
            } else {
                None
            }
        },
    }
}

} // verus!

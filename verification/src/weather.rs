//! Coarse weather classes, the table that maps a provider's condition code
//! to one of them, and the throttled oracle that remembers the last
//! classification between lookups.

use vstd::prelude::*;
use vstd::string::*;

verus! {

/// The coarse weather classes a resource can be recorded for.
///
/// `Unknown` is the safe default whenever a condition cannot be classified.
#[derive(Debug, PartialEq, Eq, Structural, Clone, Copy)]
pub enum Weather {
    Clear,
    Rainy,
    Snowy,
    Unknown,
}

/// The class of a condition code, decided by its first character alone:
/// thunderstorm, drizzle and rain groups are `Rainy`, the snow group is
/// `Snowy`, the clear-and-clouds group is `Clear`. The atmosphere group and
/// anything unrecognised, the empty code included, are `Unknown`.
pub open spec fn class_of_code(id: Seq<char>) -> Weather {
    if id.len() == 0 {
        Weather::Unknown
    } else if id[0] == '2' || id[0] == '3' || id[0] == '5' {
        Weather::Rainy
    } else if id[0] == '6' {
        Weather::Snowy
    } else if id[0] == '8' {
        Weather::Clear
    } else {
        Weather::Unknown
    }
}

impl Weather {
    /// The digit that stands for this class in a composite key. A class that
    /// could not be determined is served by the resources recorded for clear
    /// weather.
    pub open spec fn code_spec(self) -> u8 {
        match self {
            Weather::Clear => 0,
            Weather::Rainy => 1,
            Weather::Snowy => 2,
            Weather::Unknown => 0,
        }
    }

    /// The digit that stands for this class in a composite key.
    pub fn code(self) -> (c: u8)
        ensures
            c == self.code_spec(),
            c <= 2,
    {
        match self {
            Weather::Clear => 0,
            Weather::Rainy => 1,
            Weather::Snowy => 2,
            Weather::Unknown => 0,
        }
    }

    /// Classifies a condition code by its leading character.
    pub fn from_id(id: &str) -> (w: Weather)
        ensures
            w == class_of_code(id@),
    {
        if id.is_empty() {
            return Weather::Unknown;
        }
        let c = id.get_char(0);
        if c == '2' || c == '3' || c == '5' {
            Weather::Rainy
        } else if c == '6' {
            Weather::Snowy
        } else if c == '8' {
            Weather::Clear
        } else {
            Weather::Unknown
        }
    }
}

/// Shortest time between two lookups, in minutes.
pub const API_COOLDOWN: i64 = 10;

/// Shortest time between two lookups, in milliseconds.
pub const API_COOLDOWN_MILLIS: i64 = API_COOLDOWN * 60_000;

/// What `serde_json` finds under the member `name` of the JSON document
/// `doc`, as compact JSON text. `None` if `doc` is not JSON, not an object, or
/// has no such member.
pub uninterp spec fn json_member(doc: Seq<char>, name: Seq<char>) -> Option<Seq<char>>;

/// What `serde_json` finds at `position` of the JSON array `doc`, as compact
/// JSON text. `None` if `doc` is not JSON, not an array, or shorter.
pub uninterp spec fn json_element(doc: Seq<char>, position: int) -> Option<Seq<char>>;

/// Reads one member of a JSON object.
///
/// Parses `doc` with `serde_json::from_str`, looks `name` up with
/// `serde_json::Value::get`, and renders what it finds with the value's
/// `to_string`. The contract only gives that result its name: the same
/// document and member name always give the same text. A document that does
/// not parse gives `None`, as a missing member does.
#[verifier::external_body]
fn json_member_of(doc: &str, name: &str) -> (found: Option<String>)
    ensures
        match found {
            Some(text) => json_member(doc@, name@) == Some(text@),
            None => json_member(doc@, name@) is None,
        },
{
    match serde_json::from_str::<serde_json::Value>(doc) {
        Ok(value) => match value.get(name) {
            Some(member) => Some(member.to_string()),
            None => None,
        },
        Err(_) => None,
    }
}

/// Reads one element of a JSON array.
///
/// Parses `doc` with `serde_json::from_str`, indexes it with
/// `serde_json::Value::get`, and renders what it finds with the value's
/// `to_string`. The contract only gives that result its name. A document that
/// does not parse gives `None`, as a position past the end does.
#[verifier::external_body]
fn json_element_of(doc: &str, position: usize) -> (found: Option<String>)
    ensures
        match found {
            Some(text) => json_element(doc@, position as int) == Some(text@),
            None => json_element(doc@, position as int) is None,
        },
{
    match serde_json::from_str::<serde_json::Value>(doc) {
        Ok(value) => match value.get(position) {
            Some(element) => Some(element.to_string()),
            None => None,
        },
        Err(_) => None,
    }
}

/// Milliseconds since the start of 1970, by the system clock.
///
/// Calls `chrono::Utc::now` and converts the reading with
/// `timestamp_millis`. Nothing is claimed of the number: it is whatever the
/// clock says, and it may run backwards between calls. `now` itself gives up
/// on a system clock set before 1970.
#[verifier::external_body]
fn utc_now_millis() -> i64 {
    chrono::Utc::now().timestamp_millis()
}

/// The condition code that a lookup reply carries: the `id` of the first
/// entry of its `weather` list.
pub open spec fn payload_weather_id(payload: Seq<char>) -> Option<Seq<char>> {
    match json_member(payload, "weather"@) {
        Some(list) => match json_element(list, 0) {
            Some(first) => json_member(first, "id"@),
            None => None,
        },
        None => None,
    }
}

/// The weather class that a lookup reply reports, or `None` for a reply that
/// carries no condition code.
pub open spec fn payload_class(payload: Seq<char>) -> Option<Weather> {
    match payload_weather_id(payload) {
        Some(id) => Some(class_of_code(id)),
        None => None,
    }
}

/// Extracts the condition code from a lookup reply.
pub fn weather_id(payload: &str) -> (id: Option<String>)
    ensures
        match id {
            Some(text) => payload_weather_id(payload@) == Some(text@),
            None => payload_weather_id(payload@) is None,
        },
{
    match json_member_of(payload, "weather") {
        Some(list) => match json_element_of(list.as_str(), 0) {
            Some(first) => json_member_of(first.as_str(), "id"),
            None => None,
        },
        None => None,
    }
}

/// Classifies a lookup reply.
pub fn classify_payload(payload: &str) -> (class: Option<Weather>)
    ensures
        class == payload_class(payload@),
{
    match weather_id(payload) {
        Some(id) => Some(Weather::from_id(id.as_str())),
        None => None,
    }
}

/// What the oracle remembers between calls.
#[derive(Debug, PartialEq, Eq, Structural, Clone, Copy)]
pub struct WeatherData {
    /// When the last successful lookup was made, in milliseconds since the
    /// start of 1970.
    pub last_call: i64,
    /// The class that lookup reported.
    pub cached_weather: Weather,
    /// The class of the resource that is playing.
    pub playing_weather: Weather,
}

/// The character sequence of a reply, if there is one.
pub open spec fn reply_text(reply: Option<&str>) -> Option<Seq<char>> {
    match reply {
        Some(payload) => Some(payload@),
        None => None,
    }
}

impl WeatherData {
    /// Whether the cooldown has run out at `now`, so that a lookup is due.
    pub open spec fn lookup_due(self, now: i64) -> bool {
        now - self.last_call >= API_COOLDOWN_MILLIS
    }

    /// The state after a classification at `now`.
    ///
    /// While the cooldown runs nothing changes, whatever `reply` holds. Once
    /// it has run out, a reply that carries a condition code is recorded with
    /// `now` as its time. A lookup that failed (`None`) or a reply without a
    /// condition code changes nothing, the time of the last lookup included,
    /// so that the next call tries again.
    pub open spec fn refreshed(self, now: i64, reply: Option<Seq<char>>) -> WeatherData {
        if !self.lookup_due(now) {
            self
        } else {
            match reply {
                Some(payload) => match payload_class(payload) {
                    Some(class) => WeatherData {
                        last_call: now,
                        cached_weather: class,
                        playing_weather: self.playing_weather,
                    },
                    None => self,
                },
                None => self,
            }
        }
    }

    /// Whether a lookup is due at `now`: the last one lies at least the
    /// cooldown back.
    pub fn is_due(&self, now: i64) -> (due: bool)
        ensures
            due == self.lookup_due(now),
    {
        now as i128 - self.last_call as i128 >= API_COOLDOWN_MILLIS as i128
    }

    /// Whether a lookup is due by the system clock.
    pub fn wants_lookup(&self) -> (due: bool)
        ensures
            exists|now: i64| due == self.lookup_due(now),
    {
        let now = utc_now_millis();
        let due = self.is_due(now);
        assert(due == self.lookup_due(now));
        due
    }

    /// Classifies the weather at `now`, given the reply of the lookup that
    /// the caller made if one was due (`None` if it failed or was not made).
    pub fn classify_at(&mut self, now: i64, reply: Option<&str>) -> (class: Weather)
        ensures
            *final(self) == old(self).refreshed(now, reply_text(reply)),
            class == final(self).cached_weather,
    {
        if self.is_due(now) {
            match reply {
                Some(payload) => match classify_payload(payload) {
                    Some(class) => {
                        self.last_call = now;
                        self.cached_weather = class;
                    },
                    None => {},
                },
                None => {},
            }
        }
        self.cached_weather
    }
}

/// Classifies the weather by the system clock.
///
/// `reply` is what the lookup returned, if the caller made one because
/// `wants_lookup` said so, and `None` if the lookup failed or was not made.
/// The outcome is that of `classify_at` for the moment the clock shows.
pub fn get_weather(weather_data: &mut WeatherData, reply: Option<&str>) -> (class: Weather)
    ensures
        exists|now: i64| *final(weather_data) == old(weather_data).refreshed(now, reply_text(reply)),
        class == final(weather_data).cached_weather,
{
    let now = utc_now_millis();
    let class = weather_data.classify_at(now, reply);
    assert(*weather_data == old(weather_data).refreshed(now, reply_text(reply)));
    class
}

/// While the cooldown runs, no lookup is due and a classification changes
/// nothing: of two calls inside one cooldown window only the first can have
/// made a lookup.
pub proof fn lemma_throttled(
    data: WeatherData,
    first: i64,
    payload: Seq<char>,
    second: i64,
    reply: Option<Seq<char>>,
)
    requires
        data.lookup_due(first),
        payload_class(payload) is Some,
        first <= second < first + API_COOLDOWN_MILLIS,
    ensures
        data.refreshed(first, Some(payload)).last_call == first,
        !data.refreshed(first, Some(payload)).lookup_due(second),
        data.refreshed(first, Some(payload)).refreshed(second, reply) == data.refreshed(
            first,
            Some(payload),
        ),
{
}

/// A failed lookup, or a reply without a condition code, leaves everything
/// as it was: the previous class is returned again and the time of the last
/// lookup does not move, so the next call is due as well.
pub proof fn lemma_failure_retains(data: WeatherData, now: i64, reply: Option<Seq<char>>)
    requires
        reply is None || payload_class(reply->0) is None,
    ensures
        data.refreshed(now, reply) == data,
        data.refreshed(now, reply).lookup_due(now) == data.lookup_due(now),
{
}

/// A classification is never older than the cooldown unless the lookup that
/// would have renewed it failed: when a lookup is due and its reply carries a
/// condition code, the class of that reply is what is returned, dated `now`.
pub proof fn lemma_fresh_when_due(data: WeatherData, now: i64, payload: Seq<char>)
    requires
        data.lookup_due(now),
        payload_class(payload) is Some,
    ensures
        data.refreshed(now, Some(payload)).cached_weather == payload_class(payload)->0,
        data.refreshed(now, Some(payload)).last_call == now,
{
}

} // verus!

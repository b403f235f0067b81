//! Composite keys: a weather code joined with an hour of the day.

use vstd::prelude::*;
use vstd::string::*;
use crate::clock::{digit_char, digit_of, digit_str, digit_value, following_hour, next_hour_of};
use crate::weather::Weather;

verus! {

/// Characters in the text of a composite key: one weather digit, two hour
/// digits.
pub const KEY_WIDTH: usize = 3;

/// Identifies the resource that belongs to one weather code at one hour.
///
/// Its text is the weather digit followed by the zero-padded hour, such as
/// `"109"` for rain at nine o'clock.
#[derive(Debug, PartialEq, Eq, Structural, Clone, Copy)]
pub struct CompositeKey {
    /// The weather code, 0 to 2.
    pub code: u8,
    /// The hour of the day, 0 to 23.
    pub hour: u32,
}

/// The key that a name starts with, if its first three characters are a
/// weather digit and a valid hour.
pub open spec fn key_of_prefix(name: Seq<char>) -> Option<CompositeKey> {
    if name.len() < 3 {
        None
    } else {
        match (digit_value(name[0]), digit_value(name[1]), digit_value(name[2])) {
            (Some(w), Some(t), Some(u)) => if w <= 2 && t * 10 + u < 24 {
                Some(CompositeKey { code: w as u8, hour: (t * 10 + u) as u32 })
            } else {
                None
            },
            _ => None,
        }
    }
}

impl CompositeKey {
    /// The code is one of the three weather digits and the hour is an hour
    /// of the day.
    pub open spec fn wf(self) -> bool {
        self.code <= 2 && self.hour < 24
    }

    /// The three characters of the key.
    pub open spec fn text_spec(self) -> Seq<char> {
        seq![
            digit_char(self.code as int),
            digit_char(self.hour as int / 10),
            digit_char(self.hour as int % 10),
        ]
    }

    /// The key one hour later under the weather code `code`.
    pub open spec fn following_spec(self, code: u8) -> CompositeKey {
        CompositeKey { code, hour: following_hour(self.hour as int) as u32 }
    }

    /// The position of the key when all keys are laid out by weather code and
    /// then by hour.
    pub open spec fn ordinal_spec(self) -> int {
        self.code * 24 + self.hour
    }

    /// The key for `weather` at `hour`, or `None` if `hour` is not an hour of
    /// the day.
    pub fn new(weather: Weather, hour: u32) -> (key: Option<CompositeKey>)
        ensures
            key == if hour < 24 {
                Some(CompositeKey { code: weather.code_spec(), hour })
            } else {
                None
            },
            key matches Some(k) ==> k.wf(),
    {
        if hour < 24 {
            Some(CompositeKey { code: weather.code(), hour })
        } else {
            None
        }
    }

    /// Reads the key from the first three characters of `name`; whatever
    /// follows them is ignored.
    pub fn from_prefix(name: &str) -> (key: Option<CompositeKey>)
        ensures
            key == key_of_prefix(name@),
            key matches Some(k) ==> k.wf(),
    {
        if name.unicode_len() < KEY_WIDTH {
            return None;
        }
        let w = digit_of(name.get_char(0));
        let t = digit_of(name.get_char(1));
        let u = digit_of(name.get_char(2));
        match (w, t, u) {
            (Some(w), Some(t), Some(u)) => {
                if w <= 2 && t * 10 + u < 24 {
                    Some(CompositeKey { code: w as u8, hour: t * 10 + u })
                } else {
                    None
                }
            },
            _ => None,
        }
    }

    /// Checks that the code and the hour are in range.
    pub fn is_valid(&self) -> (ok: bool)
        ensures
            ok == self.wf(),
    {
        self.code <= 2 && self.hour < 24
    }

    /// The text of the key.
    pub fn text(&self) -> (s: String)
        requires
            self.wf(),
        ensures
            s@ == self.text_spec(),
    {
        let mut s = String::from_str(digit_str(self.code as u32));
        s.append(digit_str(self.hour / 10));
        s.append(digit_str(self.hour % 10));
        assert(s@ =~= self.text_spec());
        s
    }

    /// The key of the following hour under `weather`. The hour after 23 is 0.
    pub fn following(&self, weather: Weather) -> (next: CompositeKey)
        ensures
            next == self.following_spec(weather.code_spec()),
            next.wf(),
    {
        CompositeKey { code: weather.code(), hour: next_hour_of(self.hour) }
    }

    /// The position of the key among all keys, by weather code and then hour.
    pub fn ordinal(&self) -> (n: u64)
        requires
            self.wf(),
        ensures
            n == self.ordinal_spec(),
            n < 72,
    {
        self.code as u64 * 24 + self.hour as u64
    }
}

/// Reading a key back from its own text, with anything appended, gives the
/// key again.
pub proof fn lemma_text_round_trip(key: CompositeKey, rest: Seq<char>)
    requires
        key.wf(),
    ensures
        key_of_prefix(key.text_spec() + rest) == Some(key),
{
    let name = key.text_spec() + rest;
    assert(name[0] == digit_char(key.code as int));
    assert(name[1] == digit_char(key.hour as int / 10));
    assert(name[2] == digit_char(key.hour as int % 10));
}

/// A name that starts with a key starts with that key's text.
pub proof fn lemma_prefix_is_text(name: Seq<char>)
    requires
        key_of_prefix(name) is Some,
    ensures
        name.subrange(0, 3) == key_of_prefix(name)->0.text_spec(),
{
    let key = key_of_prefix(name)->0;
    assert(name.subrange(0, 3) =~= key.text_spec());
}

/// Distinct valid keys have distinct ordinals and distinct texts.
pub proof fn lemma_key_injective(a: CompositeKey, b: CompositeKey)
    requires
        a.wf(),
        b.wf(),
    ensures
        a.ordinal_spec() == b.ordinal_spec() ==> a == b,
        a.text_spec() == b.text_spec() ==> a == b,
{
    if a.text_spec() == b.text_spec() {
        lemma_text_round_trip(a, Seq::empty());
        lemma_text_round_trip(b, Seq::empty());
    }
}

} // verus!

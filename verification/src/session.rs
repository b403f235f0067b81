//! The two events of a playback session, a play request and an hourly tick,
//! as decisions over the cache and the scheduler.
//!
//! Joining a channel, preparing a resource, playing it and announcing the
//! hour happen elsewhere. What is decided here is which key is current, and
//! whether the cache serves it or a resource has to be prepared first.

use vstd::prelude::*;
use crate::cache::{current_plan, outcome_of, rotated, CacheError, PrefetchCache, Step};
use crate::clock::WallClock;
use crate::index::ResourceIndex;
use crate::key::CompositeKey;
use crate::scheduler::{RolloverScheduler, Tick};
use crate::weather::Weather;

verus! {

/// The key that is current under `weather` at the reading `clock`.
pub open spec fn key_at(weather: Weather, clock: WallClock) -> CompositeKey {
    CompositeKey { code: weather.code_spec(), hour: clock.hour }
}

/// The key that is current under `weather` at the reading `clock`.
pub fn current_key(weather: Weather, clock: WallClock) -> (key: CompositeKey)
    requires
        clock.wf(),
    ensures
        key == key_at(weather, clock),
        key.wf(),
{
    CompositeKey { code: weather.code(), hour: clock.hour }
}

/// Decides how a play request is served.
///
/// The current key is derived from `weather` and `clock`; the answer is the
/// one `get_or_prepare` gives for it. The cache is not touched, so a request
/// that fails later, before anything could be played, leaves it as it was.
pub fn play<R>(
    cache: &PrefetchCache<R>,
    index: &ResourceIndex,
    weather: Weather,
    clock: WallClock,
) -> (result: Result<Step, CacheError>)
    requires
        clock.wf(),
    ensures
        outcome_of(result) == current_plan(cache@, index@, key_at(weather, clock)),
{
    cache.get_or_prepare(current_key(weather, clock), index)
}

/// What an hourly tick leads to.
#[derive(Debug, PartialEq, Eq)]
pub enum Rollover {
    /// The timer was cancelled or replaced: nothing happens.
    Ignore,
    /// The cache was rotated to `key`. `step` says whether slot 0 is ready
    /// to be played or has to be prepared first; the timer is to be started
    /// again with `delay_nanos`.
    Swap { key: CompositeKey, step: Result<Step, CacheError>, delay_nanos: u64 },
}

/// The handler of the hourly tick of one timer.
#[derive(Debug, PartialEq, Eq, Structural, Clone, Copy)]
pub struct HourChange {
    /// The token of the timer this handler belongs to.
    pub token: u64,
}

impl HourChange {
    /// Handles a tick of this handler's timer.
    ///
    /// A tick of a timer that is no longer live changes nothing. A tick of
    /// the live timer rotates the cache to the key that is current under
    /// `weather` at `clock`, and asks for the timer to be started again with
    /// a delay derived from `clock`.
    pub fn act<R>(
        &self,
        scheduler: &RolloverScheduler,
        cache: &mut PrefetchCache<R>,
        index: &ResourceIndex,
        weather: Weather,
        clock: WallClock,
    ) -> (rollover: Rollover)
        requires
            clock.wf(),
        ensures
            match rollover {
                Rollover::Ignore => {
                    &&& scheduler.tick(self.token, clock) == Tick::Ignore
                    &&& final(cache)@ == old(cache)@
                },
                Rollover::Swap { key, step, delay_nanos } => {
                    &&& scheduler.tick(self.token, clock) == (Tick::Rollover { delay_nanos })
                    &&& key == key_at(weather, clock)
                    &&& final(cache)@ == rotated(old(cache)@, key)
                    &&& outcome_of(step) == current_plan(final(cache)@, index@, key)
                },
            },
    {
        match scheduler.on_tick(self.token, clock) {
            Tick::Ignore => Rollover::Ignore,
            Tick::Rollover { delay_nanos } => {
                let key = current_key(weather, clock);
                let step = cache.rotate(key, index);
                Rollover::Swap { key, step, delay_nanos }
            },
        }
    }
}

} // verus!

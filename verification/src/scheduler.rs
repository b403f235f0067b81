//! The rollover timer: a single-shot timer that is aimed afresh at the next
//! top of the hour every time it is armed or has fired.
//!
//! The timer itself runs elsewhere. This module keeps track of which arming
//! is the live one, so that a second arming replaces the first instead of
//! stacking on it, and a tick of a cancelled timer is recognised and ignored.

use vstd::prelude::*;
use crate::clock::WallClock;

verus! {

/// Which timer is live, if any. Each arming gets a token of its own.
#[derive(Debug, PartialEq, Eq, Structural, Clone, Copy)]
pub struct RolloverScheduler {
    /// The token given out last.
    pub last_token: u64,
    /// Whether the timer with that token is still meant to fire.
    pub live: bool,
}

/// What to do to the timers after an arming.
#[derive(Debug, PartialEq, Eq, Structural, Clone, Copy)]
pub struct Arming {
    /// The timer to cancel first, if one was live.
    pub cancel: Option<u64>,
    /// The token of the timer to start.
    pub token: u64,
    /// How long the new timer waits, in nanoseconds.
    pub delay_nanos: u64,
}

/// What to do when a timer fires.
#[derive(Debug, PartialEq, Eq, Structural, Clone, Copy)]
pub enum Tick {
    /// The timer was cancelled or replaced: do nothing.
    Ignore,
    /// Rotate the cache, swap the playback, announce the hour, and start the
    /// same timer again with this delay in nanoseconds.
    Rollover { delay_nanos: u64 },
}

/// The token that follows `token`. After the largest token comes 0.
pub open spec fn next_token(token: u64) -> u64 {
    if token == u64::MAX {
        0
    } else {
        (token + 1) as u64
    }
}

impl RolloverScheduler {
    /// The token of the live timer.
    pub open spec fn active(self) -> Option<u64> {
        if self.live {
            Some(self.last_token)
        } else {
            None
        }
    }

    /// The state after an arming.
    pub open spec fn armed(self) -> RolloverScheduler {
        RolloverScheduler { last_token: next_token(self.last_token), live: true }
    }

    /// The state after a cancellation.
    pub open spec fn cancelled(self) -> RolloverScheduler {
        RolloverScheduler { last_token: self.last_token, live: false }
    }

    /// What a tick of the timer `token` leads to at the reading `clock`.
    pub open spec fn tick(self, token: u64, clock: WallClock) -> Tick {
        if self.active() == Some(token) {
            Tick::Rollover { delay_nanos: clock.rollover_delay() as u64 }
        } else {
            Tick::Ignore
        }
    }

    /// A scheduler with no timer live.
    pub fn new() -> (scheduler: Self)
        ensures
            scheduler.active() is None,
            scheduler == (RolloverScheduler { last_token: 0, live: false }),
    {
        RolloverScheduler { last_token: 0, live: false }
    }

    /// Arms the timer for the next rollover after `clock`.
    ///
    /// A timer that was live is named for cancelling and is no longer live:
    /// from now on only the new token fires.
    pub fn arm(&mut self, clock: WallClock) -> (arming: Arming)
        requires
            clock.wf(),
        ensures
            *final(self) == old(self).armed(),
            arming.cancel == old(self).active(),
            arming.token == final(self).last_token,
            final(self).active() == Some(arming.token),
            arming.cancel != Some(arming.token),
            arming.delay_nanos == clock.rollover_delay(),
    {
        let cancel = if self.live {
            Some(self.last_token)
        } else {
            None
        };
        let token: u64 = if self.last_token == u64::MAX {
            0
        } else {
            self.last_token + 1
        };
        self.last_token = token;
        self.live = true;
        Arming { cancel, token, delay_nanos: clock.until_rollover() }
    }

    /// Decides what a tick of the timer `token` leads to.
    ///
    /// Only the live timer rolls over; it is then started again with a delay
    /// derived from `clock`, not by adding an hour to the last delay.
    pub fn on_tick(&self, token: u64, clock: WallClock) -> (tick: Tick)
        requires
            clock.wf(),
        ensures
            tick == self.tick(token, clock),
    {
        if self.live && self.last_token == token {
            Tick::Rollover { delay_nanos: clock.until_rollover() }
        } else {
            Tick::Ignore
        }
    }

    /// Stops the rollovers. Returns the token of the timer to cancel, if one
    /// was live.
    pub fn cancel(&mut self) -> (token: Option<u64>)
        ensures
            *final(self) == old(self).cancelled(),
            token == old(self).active(),
            final(self).active() is None,
    {
        let token = if self.live {
            Some(self.last_token)
        } else {
            None
        };
        self.live = false;
        token
    }
}

/// Arming while a timer is live replaces it: afterwards the new token is the
/// only one that fires, and a tick of the old timer is ignored.
pub proof fn lemma_arming_replaces(scheduler: RolloverScheduler, token: u64, clock: WallClock)
    ensures
        scheduler.armed().active() == Some(next_token(scheduler.last_token)),
        scheduler.active() == Some(token) ==> scheduler.armed().tick(token, clock) == Tick::Ignore,
        scheduler.armed().tick(token, clock) != Tick::Ignore ==> token == next_token(
            scheduler.last_token,
        ),
{
}

/// After a cancellation every tick is ignored, whichever timer it comes from.
pub proof fn lemma_cancelled_ticks_ignored(scheduler: RolloverScheduler, token: u64, clock: WallClock)
    ensures
        scheduler.cancelled().tick(token, clock) == Tick::Ignore,
{
}

/// The timer never aims at or before the top of the hour, and never further
/// than one hour and the margin ahead.
pub proof fn lemma_delay_bounds(clock: WallClock)
    requires
        clock.wf(),
    ensures
        500_000_000 < clock.rollover_delay() <= 3_600_500_000_000,
{
}

} // verus!

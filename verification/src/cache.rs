//! The prefetch cache: the resource prepared for the current key, and at most
//! one more prepared ahead for the hour that follows.
//!
//! Preparing a resource is slow and happens outside this module. Every
//! operation that may need a resource is therefore split in two: a decision
//! that says whether the cache can serve the key or which locator has to be
//! prepared, and an installation that hands the prepared resource over.

use vstd::prelude::*;
use crate::clock::{following_hour, next_hour_of};
use crate::index::ResourceIndex;
use crate::key::CompositeKey;
use crate::weather::Weather;

verus! {

/// The most slots a cache ever holds: "now" and "next".
pub const CAPACITY: usize = 2;

/// What the caller has to do before a key can be served.
#[derive(Debug, PartialEq, Eq)]
pub enum Step {
    /// Nothing: the cache already holds what was asked for.
    Ready,
    /// Prepare the resource behind `locator` and install it under `key`.
    Prepare { key: CompositeKey, locator: String },
}

/// Why a key cannot be served.
#[derive(Debug, PartialEq, Eq, Structural, Clone, Copy)]
pub enum CacheError {
    /// The index records no locator for this key. No other key is tried in
    /// its place.
    ResourceUnavailable(CompositeKey),
}

/// The result of a decision, with the locator as a character sequence.
pub enum Outcome {
    Ready,
    Prepare(CompositeKey, Seq<char>),
    Unavailable(CompositeKey),
}

/// The outcome that a decision's result stands for.
pub open spec fn outcome_of(result: Result<Step, CacheError>) -> Outcome {
    match result {
        Ok(Step::Ready) => Outcome::Ready,
        Ok(Step::Prepare { key, locator }) => Outcome::Prepare(key, locator@),
        Err(CacheError::ResourceUnavailable(key)) => Outcome::Unavailable(key),
    }
}

/// At most two slots, and a second slot is always for the hour after the
/// first slot's hour.
pub open spec fn orderly<R>(slots: Seq<(CompositeKey, R)>) -> bool {
    &&& slots.len() <= 2
    &&& slots.len() == 2 ==> slots[1].0.hour == following_hour(slots[0].0.hour as int)
}

/// Slot 0 holds `key`.
pub open spec fn hit<R>(slots: Seq<(CompositeKey, R)>, key: CompositeKey) -> bool {
    slots.len() > 0 && slots[0].0 == key
}

/// How a key that is not cached gets served: by preparing its locator, or not
/// at all if the index has none.
pub open spec fn resolve(index: Map<CompositeKey, Seq<char>>, key: CompositeKey) -> Outcome {
    if index.contains_key(key) {
        Outcome::Prepare(key, index[key])
    } else {
        Outcome::Unavailable(key)
    }
}

/// The decision for serving `key` as the current key.
pub open spec fn current_plan<R>(
    slots: Seq<(CompositeKey, R)>,
    index: Map<CompositeKey, Seq<char>>,
    key: CompositeKey,
) -> Outcome {
    if hit(slots, key) {
        Outcome::Ready
    } else {
        resolve(index, key)
    }
}

/// The decision for filling the "next" slot under the weather code `code`.
pub open spec fn next_plan<R>(
    slots: Seq<(CompositeKey, R)>,
    index: Map<CompositeKey, Seq<char>>,
    code: u8,
) -> Outcome {
    if slots.len() == 1 {
        resolve(index, slots[0].0.following_spec(code))
    } else {
        Outcome::Ready
    }
}

/// The slots after `(key, resource)` replaced slot 0. A second slot survives
/// only if it is for the hour after `key`'s.
pub open spec fn with_current<R>(
    slots: Seq<(CompositeKey, R)>,
    key: CompositeKey,
    resource: R,
) -> Seq<(CompositeKey, R)> {
    if slots.len() == 2 && slots[1].0.hour == following_hour(key.hour as int) {
        seq![(key, resource), slots[1]]
    } else {
        seq![(key, resource)]
    }
}

/// The slots after `(key, resource)` was offered as slot 1. It is taken only
/// by a cache of exactly one slot whose hour is the one before `key`'s.
pub open spec fn with_next<R>(
    slots: Seq<(CompositeKey, R)>,
    key: CompositeKey,
    resource: R,
) -> Seq<(CompositeKey, R)> {
    if slots.len() == 1 && key.hour == following_hour(slots[0].0.hour as int) {
        slots.push((key, resource))
    } else {
        slots
    }
}

/// The slots after a rollover to `now`: slot 0 is gone, and slot 1 moved up
/// if it was prepared for `now`. Otherwise nothing is kept.
pub open spec fn rotated<R>(slots: Seq<(CompositeKey, R)>, now: CompositeKey) -> Seq<
    (CompositeKey, R),
> {
    if slots.len() >= 2 && slots[1].0 == now {
        seq![slots[1]]
    } else {
        Seq::empty()
    }
}

/// The prefetch cache. Slot 0 is the resource for the current key, slot 1 the
/// one prepared for the following hour. Slots are replaced whole, never
/// changed in place.
pub struct PrefetchCache<R> {
    slots: Vec<(CompositeKey, R)>,
}

impl<R> View for PrefetchCache<R> {
    type V = Seq<(CompositeKey, R)>;

    closed spec fn view(&self) -> Seq<(CompositeKey, R)> {
        self.slots@
    }
}

/// Looks `key` up in the index for a resource that has to be prepared.
fn resolve_in(index: &ResourceIndex, key: CompositeKey) -> (result: Result<Step, CacheError>)
    ensures
        outcome_of(result) == resolve(index@, key),
{
    match index.lookup(key) {
        Some(locator) => Ok(Step::Prepare { key, locator: locator.clone() }),
        None => Err(CacheError::ResourceUnavailable(key)),
    }
}

impl<R> PrefetchCache<R> {
    #[verifier::type_invariant]
    spec fn well_formed(self) -> bool {
        orderly(self.slots@)
    }

    /// An empty cache.
    pub fn new() -> (cache: Self)
        ensures
            cache@ == Seq::<(CompositeKey, R)>::empty(),
    {
        PrefetchCache { slots: Vec::new() }
    }

    /// The number of slots in use.
    pub fn len(&self) -> (n: usize)
        ensures
            n == self@.len(),
            n <= CAPACITY,
            orderly(self@),
    {
        proof {
            use_type_invariant(self);
        }
        self.slots.len()
    }

    /// Slot 0: the key being served and its resource.
    pub fn current(&self) -> (slot: Option<&(CompositeKey, R)>)
        ensures
            slot == if self@.len() > 0 {
                Some(&self@[0])
            } else {
                None
            },
    {
        if self.slots.len() > 0 {
            Some(&self.slots[0])
        } else {
            None
        }
    }

    /// Slot 1: the key prepared ahead and its resource.
    pub fn pending_next(&self) -> (slot: Option<&(CompositeKey, R)>)
        ensures
            slot == if self@.len() > 1 {
                Some(&self@[1])
            } else {
                None
            },
    {
        if self.slots.len() > 1 {
            Some(&self.slots[1])
        } else {
            None
        }
    }

    /// Decides how `key` is served as the current key.
    ///
    /// If slot 0 holds `key` the answer is `Ready` and `current` gives the
    /// resource: nothing has to be prepared. Otherwise the answer names the
    /// locator to prepare, to be handed over with `install_current`, or fails
    /// with `ResourceUnavailable` if the index has no locator for `key`. The
    /// cache itself is left as it is.
    pub fn get_or_prepare(&self, key: CompositeKey, index: &ResourceIndex) -> (result: Result<
        Step,
        CacheError,
    >)
        ensures
            outcome_of(result) == current_plan(self@, index@, key),
    {
        if self.slots.len() > 0 && self.slots[0].0 == key {
            Ok(Step::Ready)
        } else {
            resolve_in(index, key)
        }
    }

    /// Installs a freshly prepared resource as slot 0, evicting the old
    /// slot 0. A slot 1 is kept only if it still is for the hour after `key`.
    pub fn install_current(&mut self, key: CompositeKey, resource: R)
        ensures
            final(self)@ == with_current(old(self)@, key, resource),
            orderly(final(self)@),
    {
        proof {
            use_type_invariant(&*self);
        }
        let mut slots: Vec<(CompositeKey, R)> = Vec::new();
        std::mem::swap(&mut slots, &mut self.slots);
        let mut kept: Vec<(CompositeKey, R)> = Vec::new();
        kept.push((key, resource));
        if slots.len() == 2 {
            let ahead = slots.remove(1);
            if ahead.0.hour == next_hour_of(key.hour) {
                kept.push(ahead);
            }
        }
        assert(kept@ =~= with_current(old(self)@, key, resource));
        self.slots = kept;
    }

    /// Decides whether a resource has to be prepared ahead for the hour after
    /// slot 0's.
    ///
    /// Only a cache of exactly one slot wants one: the answer then names the
    /// locator of the following hour's key under `weather`, to be handed over
    /// with `install_next`, or fails with `ResourceUnavailable` if the index
    /// has none. The forecast for the following hour is the weather observed
    /// now. With slot 1 filled, or with nothing in slot 0 to follow, the
    /// answer is `Ready`.
    pub fn ensure_next_prepared(&self, weather: Weather, index: &ResourceIndex) -> (result: Result<
        Step,
        CacheError,
    >)
        ensures
            outcome_of(result) == next_plan(self@, index@, weather.code_spec()),
    {
        if self.slots.len() == 1 {
            resolve_in(index, self.slots[0].0.following(weather))
        } else {
            Ok(Step::Ready)
        }
    }

    /// Offers a resource prepared ahead as slot 1.
    ///
    /// It is appended if the cache holds exactly one slot and `key` is for the
    /// hour after that slot's. Otherwise the cache moved on while the resource
    /// was being prepared, and the resource is dropped. Returns whether it
    /// was appended.
    pub fn install_next(&mut self, key: CompositeKey, resource: R) -> (installed: bool)
        ensures
            final(self)@ == with_next(old(self)@, key, resource),
            installed == (old(self)@.len() == 1 && key.hour == following_hour(
                old(self)@[0].0.hour as int,
            )),
            orderly(final(self)@),
    {
        proof {
            use_type_invariant(&*self);
        }
        if self.slots.len() == 1 && key.hour == next_hour_of(self.slots[0].0.hour) {
            let mut slots: Vec<(CompositeKey, R)> = Vec::new();
            std::mem::swap(&mut slots, &mut self.slots);
            slots.push((key, resource));
            self.slots = slots;
            true
        } else {
            false
        }
    }

    /// Rolls the cache over to the key `now`, at an hour boundary.
    ///
    /// Slot 0 is dropped. If slot 1 was prepared for `now` it becomes slot 0
    /// and the answer is `Ready`: nothing has to be prepared. If it was
    /// prepared for another key, or there was none, nothing is kept and the
    /// answer is the one `get_or_prepare` gives for `now` on an empty cache.
    pub fn rotate(&mut self, now: CompositeKey, index: &ResourceIndex) -> (result: Result<
        Step,
        CacheError,
    >)
        ensures
            final(self)@ == rotated(old(self)@, now),
            outcome_of(result) == current_plan(final(self)@, index@, now),
            orderly(final(self)@),
    {
        proof {
            use_type_invariant(&*self);
        }
        let mut slots: Vec<(CompositeKey, R)> = Vec::new();
        std::mem::swap(&mut slots, &mut self.slots);
        let mut kept: Vec<(CompositeKey, R)> = Vec::new();
        if slots.len() == 2 {
            let ahead = slots.remove(1);
            if ahead.0 == now {
                kept.push(ahead);
            }
        }
        assert(kept@ =~= rotated(old(self)@, now));
        let promoted = kept.len() > 0;
        self.slots = kept;
        if promoted {
            Ok(Step::Ready)
        } else {
            resolve_in(index, now)
        }
    }

    /// Empties the cache.
    pub fn invalidate(&mut self)
        ensures
            final(self)@ == Seq::<(CompositeKey, R)>::empty(),
    {
        self.slots = Vec::new();
    }
}

/// One change that a cache can undergo.
pub enum CacheOp<R> {
    InstallCurrent(CompositeKey, R),
    InstallNext(CompositeKey, R),
    Rotate(CompositeKey),
    Invalidate,
}

/// The slots after one change.
pub open spec fn apply<R>(slots: Seq<(CompositeKey, R)>, op: CacheOp<R>) -> Seq<(CompositeKey, R)> {
    match op {
        CacheOp::InstallCurrent(key, resource) => with_current(slots, key, resource),
        CacheOp::InstallNext(key, resource) => with_next(slots, key, resource),
        CacheOp::Rotate(now) => rotated(slots, now),
        CacheOp::Invalidate => Seq::empty(),
    }
}

/// The slots after a sequence of changes, applied first to last.
pub open spec fn run<R>(slots: Seq<(CompositeKey, R)>, ops: Seq<CacheOp<R>>) -> Seq<
    (CompositeKey, R),
>
    decreases ops.len(),
{
    if ops.len() == 0 {
        slots
    } else {
        apply(run(slots, ops.drop_last()), ops.last())
    }
}

/// No single change breaks the order of the slots.
pub proof fn lemma_apply_keeps_order<R>(slots: Seq<(CompositeKey, R)>, op: CacheOp<R>)
    requires
        orderly(slots),
    ensures
        orderly(apply(slots, op)),
{
}

/// Whatever changes are made, and in whatever order, a cache that started
/// empty never holds more than two slots, and its second slot is always for
/// the hour after its first.
pub proof fn lemma_never_overfull<R>(ops: Seq<CacheOp<R>>)
    ensures
        orderly(run(Seq::<(CompositeKey, R)>::empty(), ops)),
        run(Seq::<(CompositeKey, R)>::empty(), ops).len() <= 2,
    decreases ops.len(),
{
    if ops.len() > 0 {
        lemma_never_overfull(ops.drop_last());
        lemma_apply_keeps_order(run(Seq::<(CompositeKey, R)>::empty(), ops.drop_last()), ops.last());
    }
}

/// A key that has just been served is served again without preparing
/// anything: whether the first request found it in slot 0 or had it installed
/// there, the next decision for the same key is `Ready`, and slot 0 holds the
/// resource that was installed.
pub proof fn lemma_repeat_request_hits<R>(
    slots: Seq<(CompositeKey, R)>,
    index: Map<CompositeKey, Seq<char>>,
    key: CompositeKey,
    resource: R,
)
    ensures
        hit(slots, key) ==> current_plan(slots, index, key) == Outcome::Ready,
        current_plan(with_current(slots, key, resource), index, key) == Outcome::Ready,
        with_current(slots, key, resource)[0] == (key, resource),
{
}

/// A rollover onto the key that slot 1 was prepared for moves that slot up
/// and asks for nothing to be prepared.
pub proof fn lemma_rotate_promotes<R>(
    slots: Seq<(CompositeKey, R)>,
    index: Map<CompositeKey, Seq<char>>,
    now: CompositeKey,
)
    requires
        orderly(slots),
        slots.len() == 2,
        slots[1].0 == now,
    ensures
        rotated(slots, now) == seq![slots[1]],
        current_plan(rotated(slots, now), index, now) == Outcome::Ready,
{
}

/// A rollover onto any other key keeps nothing of the old slots and asks for
/// exactly the locator of the new key, or fails if the index has none.
/// Installing the prepared resource leaves the new key in slot 0, alone.
pub proof fn lemma_rotate_replaces<R>(
    slots: Seq<(CompositeKey, R)>,
    index: Map<CompositeKey, Seq<char>>,
    now: CompositeKey,
    resource: R,
)
    requires
        orderly(slots),
        !(slots.len() == 2 && slots[1].0 == now),
    ensures
        rotated(slots, now) == Seq::<(CompositeKey, R)>::empty(),
        current_plan(rotated(slots, now), index, now) == resolve(index, now),
        index.contains_key(now) ==> current_plan(rotated(slots, now), index, now)
            == Outcome::Prepare(now, index[now]),
        !index.contains_key(now) ==> current_plan(rotated(slots, now), index, now)
            == Outcome::Unavailable(now),
        with_current(rotated(slots, now), now, resource) == seq![(now, resource)],
{
}

/// After a rollover, slot 0 is either empty or holds the new current key:
/// a resource prepared for another key is never left there to be played.
pub proof fn lemma_rotate_leaves_nothing_stale<R>(slots: Seq<(CompositeKey, R)>, now: CompositeKey)
    ensures
        rotated(slots, now).len() <= 1,
        rotated(slots, now).len() == 1 ==> rotated(slots, now)[0].0 == now,
{
}

/// Offering a resource for slot 1 a second time changes nothing.
pub proof fn lemma_install_next_once<R>(
    slots: Seq<(CompositeKey, R)>,
    index: Map<CompositeKey, Seq<char>>,
    code: u8,
    key: CompositeKey,
    first: R,
    second: R,
)
    requires
        slots.len() == 1,
        key.hour == following_hour(slots[0].0.hour as int),
    ensures
        with_next(with_next(slots, key, first), key, second) == with_next(slots, key, first),
        next_plan(with_next(slots, key, first), index, code) == Outcome::Ready,
{
}

} // verus!

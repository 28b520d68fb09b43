//! The admission guard that stands in front of every request handler: a
//! request passes only if none has passed yet, or if more than the cooldown
//! has gone by since the last request that passed.
//!
//! Times are nanoseconds on a monotonic clock, counted from an origin of the
//! caller's choosing. The record is shared by all request threads behind a
//! lock; [`CooldownState::on_request`] is the whole critical section, so the
//! timestamp is committed before any other request can look at it.

use vstd::prelude::*;
use crate::error::RequestError;

verus! {

/// Nanoseconds in a second.
pub const NANOS_PER_SECOND: u128 = 1_000_000_000;

/// What the guard decided about one request.
#[derive(Clone, Copy, Debug, PartialEq, Eq, Hash)]
pub enum Admission {
    /// The request goes on to the wrapped handler.
    Forward,
    /// The request came too soon and is turned away.
    TooManyRequests,
}

/// The record that all request threads share.
#[derive(Debug)]
pub struct CooldownState {
    cooldown: u128,
    last_request_at: Option<u128>,
}

/// The mathematical content of a [`CooldownState`].
pub struct CooldownView {
    pub cooldown: nat,
    /// The time of the last request that passed; `None` as long as none
    /// has.
    pub last_request_at: Option<nat>,
}

impl View for CooldownState {
    type V = CooldownView;

    closed spec fn view(&self) -> CooldownView {
        CooldownView {
            cooldown: self.cooldown as nat,
            last_request_at: match self.last_request_at {
                Some(at) => Some(at as nat),
                None => None,
            },
        }
    }
}

/// The time from `earlier` to `later`, or zero where `earlier` is the later
/// of the two.
pub open spec fn elapsed(earlier: nat, later: nat) -> nat {
    if later >= earlier {
        (later - earlier) as nat
    } else {
        0
    }
}

/// Whether a request that arrives at `now` passes: the first one does, and
/// after that one that comes more than the cooldown after the last that
/// passed.
pub open spec fn admits(state: CooldownView, now: nat) -> bool {
    match state.last_request_at {
        None => true,
        Some(last) => elapsed(last, now) > state.cooldown,
    }
}

/// The decision on a request that arrives at `now`.
pub open spec fn decide(state: CooldownView, now: nat) -> Admission {
    if admits(state, now) {
        Admission::Forward
    } else {
        Admission::TooManyRequests
    }
}

/// The record after a request at `now` has been decided: a request that
/// passes leaves its own time behind, one that is turned away leaves no
/// trace.
pub open spec fn after_request(state: CooldownView, now: nat) -> CooldownView {
    if admits(state, now) {
        CooldownView { cooldown: state.cooldown, last_request_at: Some(now) }
    } else {
        state
    }
}

/// The record after the requests of `arrivals` have been decided one after
/// the other, in the order in which they took the lock.
pub open spec fn replay(state: CooldownView, arrivals: Seq<nat>) -> CooldownView
    decreases arrivals.len(),
{
    if arrivals.len() == 0 {
        state
    } else {
        after_request(replay(state, arrivals.drop_last()), arrivals.last())
    }
}

/// Whether the request at position `i` of `arrivals` passes.
pub open spec fn admitted_at(state: CooldownView, arrivals: Seq<nat>, i: int) -> bool {
    admits(replay(state, arrivals.take(i)), arrivals[i])
}

/// The time of the latest request before position `i` that passed; where
/// none did, what the record started with.
pub open spec fn last_admitted_before(
    state: CooldownView,
    arrivals: Seq<nat>,
    i: int,
) -> Option<nat>
    decreases i,
{
    if i <= 0 {
        state.last_request_at
    } else if admitted_at(state, arrivals, i - 1) {
        Some(arrivals[i - 1])
    } else {
        last_admitted_before(state, arrivals, i - 1)
    }
}

/// How many of the first `upto` requests of `arrivals` pass.
pub open spec fn admitted_count(state: CooldownView, arrivals: Seq<nat>, upto: int) -> nat
    decreases upto,
{
    if upto <= 0 {
        0
    } else {
        admitted_count(state, arrivals, upto - 1) + if admitted_at(state, arrivals, upto - 1) {
            1nat
        } else {
            0nat
        }
    }
}

/// The arrival times of the requests `times`, put in the order `order` in
/// which their threads took the lock.
pub open spec fn in_lock_order(times: Seq<nat>, order: Seq<int>) -> Seq<nat> {
    Seq::new(order.len(), |k: int| times[order[k]])
}

/// The time from `earlier` to `later` in nanoseconds, zero where the clock
/// readings are the other way round.
pub fn elapsed_between(earlier: u128, later: u128) -> (span: u128)
    ensures
        span == elapsed(earlier as nat, later as nat),
{
    if later >= earlier {
        later - earlier
    } else {
        0
    }
}

/// A whole number of seconds in nanoseconds.
pub fn nanos_from_secs(secs: u64) -> (nanos: u128)
    ensures
        nanos == secs * NANOS_PER_SECOND,
{
    let wide: u128 = secs as u128;
    wide * NANOS_PER_SECOND
}

/// What the guard hands back to the transport once the handler, or the
/// writing of the rejection, has come back: success as it is, and any
/// failure as the one generic failure.
pub fn conclude<E>(outcome: Result<(), E>) -> (result: Result<(), RequestError>)
    ensures
        outcome is Ok ==> result is Ok,
        outcome is Err ==> result == Err::<(), RequestError>(RequestError::RequestHandling),
{
    match outcome {
        Ok(()) => Ok(()),
        Err(_) => Err(RequestError::RequestHandling),
    }
}

impl CooldownState {
    /// A fresh record with the given cooldown in nanoseconds. No request
    /// has passed yet, so the first one will, whenever it comes.
    pub fn with_cooldown(cooldown: u128) -> (state: CooldownState)
        ensures
            state@ == (CooldownView { cooldown: cooldown as nat, last_request_at: None }),
    {
        CooldownState { cooldown, last_request_at: None }
    }

    /// The cooldown in nanoseconds.
    pub fn cooldown(&self) -> (nanos: u128)
        ensures
            nanos == self@.cooldown,
    {
        self.cooldown
    }

    /// The time of the last request that passed, if any has.
    pub fn last_request_at(&self) -> (nanos: Option<u128>)
        ensures
            nanos is Some <==> self@.last_request_at is Some,
            nanos matches Some(at) ==> self@.last_request_at == Some(at as nat),
    {
        self.last_request_at
    }

    /// Decides the request that arrives at `now`, and commits its time if it
    /// passes. To be called with the lock held; the handler runs after the
    /// lock is given back.
    pub fn on_request(&mut self, now: u128) -> (decision: Admission)
        ensures
            decision == decide(old(self)@, now as nat),
            final(self)@ == after_request(old(self)@, now as nat),
    {
        let passes = match self.last_request_at {
            None => true,
            Some(last) => elapsed_between(last, now) > self.cooldown,
        };
        if passes {
            self.last_request_at = Some(now);
            Admission::Forward
        } else {
            Admission::TooManyRequests
        }
    }
}

/// On a fresh record the first request passes, whenever it comes and
/// whatever the cooldown, and leaves its time behind.
pub proof fn lemma_first_request_passes(cooldown: nat, now: nat)
    ensures
        decide(CooldownView { cooldown, last_request_at: None }, now) == Admission::Forward,
        after_request(CooldownView { cooldown, last_request_at: None }, now) == (CooldownView {
            cooldown,
            last_request_at: Some(now),
        }),
{
}

/// Replaying never touches the cooldown.
pub proof fn lemma_replay_keeps_cooldown(state: CooldownView, arrivals: Seq<nat>)
    ensures
        replay(state, arrivals).cooldown == state.cooldown,
    decreases arrivals.len(),
{
    if arrivals.len() > 0 {
        lemma_replay_keeps_cooldown(state, arrivals.drop_last());
    }
}

/// The admission rule. Whatever the arrival times, and so for any strictly
/// increasing ones: the request at position `i` passes if and only if no
/// request has passed before it, or its time minus the time of the last
/// request that passed before it is more than the cooldown. That last time
/// is then replaced by the request's own time if it passes, and stays as it
/// is if it does not: the requests that pass are the only ones that move
/// it.
pub proof fn lemma_admission_rule(state: CooldownView, arrivals: Seq<nat>, i: int)
    requires
        0 <= i < arrivals.len(),
    ensures
        replay(state, arrivals.take(i)).last_request_at == last_admitted_before(state, arrivals, i),
        admitted_at(state, arrivals, i) <==> (last_admitted_before(state, arrivals, i) matches Some(
            last,
        ) ==> arrivals[i] - last > state.cooldown),
        last_admitted_before(state, arrivals, i + 1) == if admitted_at(state, arrivals, i) {
            Some(arrivals[i])
        } else {
            last_admitted_before(state, arrivals, i)
        },
    decreases i,
{
    lemma_replay_keeps_cooldown(state, arrivals.take(i));
    if i > 0 {
        lemma_admission_rule(state, arrivals, i - 1);
        assert(arrivals.take(i).drop_last() =~= arrivals.take(i - 1));
        assert(arrivals.take(i).last() == arrivals[i - 1]);
    }
}

/// Requests at one instant. Let the requests of `times` all arrive at the
/// same time, at which a request passes (none has passed yet, or the
/// cooldown has gone by), and let their threads
/// take the lock in any order `order`. Then the first to take the lock
/// passes and every other one is turned away: exactly one passes.
pub proof fn lemma_one_passes_among_simultaneous(
    state: CooldownView,
    times: Seq<nat>,
    order: Seq<int>,
)
    requires
        times.len() >= 1,
        order.len() == times.len(),
        forall|k: int| 0 <= k < order.len() ==> 0 <= #[trigger] order[k] < times.len(),
        forall|a: int, b: int|
            0 <= a < times.len() && 0 <= b < times.len() ==> times[a] == times[b],
        admits(state, times[0]),
    ensures
        forall|k: int|
            0 <= k < order.len() ==> (#[trigger] admitted_at(
                state,
                in_lock_order(times, order),
                k,
            ) <==> k == 0),
        admitted_count(state, in_lock_order(times, order), order.len() as int) == 1,
{
    let arrivals = in_lock_order(times, order);
    let now = times[0];
    assert forall|k: int| 0 <= k < arrivals.len() implies arrivals[k] == now by {
        assert(0 <= order[k] < times.len());
    }
    lemma_simultaneous(state, arrivals, now, arrivals.len() as int);
}

/// Of requests that all arrive at `now`, at which a request passes, the
/// first passes and leaves `now` behind, and none after it passes.
proof fn lemma_simultaneous(state: CooldownView, arrivals: Seq<nat>, now: nat, upto: int)
    requires
        1 <= upto <= arrivals.len(),
        forall|k: int| 0 <= k < arrivals.len() ==> arrivals[k] == now,
        admits(state, now),
    ensures
        forall|k: int|
            0 <= k < upto ==> (#[trigger] admitted_at(state, arrivals, k) <==> k == 0),
        replay(state, arrivals.take(upto)).last_request_at == Some(now),
        admitted_count(state, arrivals, upto) == 1,
    decreases upto,
{
    lemma_replay_keeps_cooldown(state, arrivals.take(upto - 1));
    assert(arrivals.take(upto).drop_last() =~= arrivals.take(upto - 1));
    assert(arrivals.take(upto).last() == now);
    if upto == 1 {
        assert(arrivals.take(0) =~= Seq::<nat>::empty());
        assert(admitted_at(state, arrivals, 0));
        assert(admitted_count(state, arrivals, 0) == 0);
    } else {
        lemma_simultaneous(state, arrivals, now, upto - 1);
        assert(!admitted_at(state, arrivals, upto - 1));
    }
}

} // verus!

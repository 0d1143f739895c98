//! A once-mode countdown timer whose state is held as plain nanosecond
//! counts; each tick of an unfinished timer is computed by
//! `bevy_time::Timer::tick`.
use bevy_time::{Timer, TimerMode};
use std::time::Duration;
use vstd::prelude::*;

verus! {

/// The mathematical state of a [`OnceTimer`].
pub struct TimerView {
    pub duration: nat,
    pub elapsed: nat,
    pub finished: bool,
    pub just_finished: bool,
}

impl TimerView {
    /// A timer of the given duration that has not been ticked yet.
    pub open spec fn fresh(duration: nat) -> TimerView {
        TimerView { duration, elapsed: 0, finished: false, just_finished: false }
    }

    /// The state after advancing by `delta` nanoseconds: a finished timer
    /// stays as it is (but no longer reports `just_finished`); otherwise the
    /// elapsed time grows by `delta`, is capped at the duration, and the timer
    /// finishes (and just finished) exactly when the duration is reached.
    pub open spec fn after_tick(self, delta: nat) -> TimerView {
        if self.finished {
            TimerView { just_finished: false, ..self }
        } else {
            let reached = self.elapsed + delta >= self.duration;
            TimerView {
                duration: self.duration,
                elapsed: if reached { self.duration } else { self.elapsed + delta },
                finished: reached,
                just_finished: reached,
            }
        }
    }

    /// The invariant every reachable state satisfies.
    pub open spec fn wf(self) -> bool {
        &&& self.finished ==> self.elapsed == self.duration
        &&& !self.finished ==> self.elapsed < self.duration || self.elapsed == 0
        &&& self.just_finished ==> self.finished
    }
}

/// The state after ticking `t` by each of `deltas` in turn.
pub open spec fn run(t: TimerView, deltas: Seq<nat>) -> TimerView
    decreases deltas.len(),
{
    if deltas.len() == 0 {
        t
    } else {
        run(t, deltas.drop_last()).after_tick(deltas.last())
    }
}

/// On how many of the ticks `deltas` the timer reports `just_finished`.
pub open spec fn finish_count(t: TimerView, deltas: Seq<nat>) -> nat
    decreases deltas.len(),
{
    if deltas.len() == 0 {
        0
    } else {
        finish_count(t, deltas.drop_last()) + if run(t, deltas).just_finished {
            1nat
        } else {
            0nat
        }
    }
}

/// The sum of the ticks.
pub open spec fn total(deltas: Seq<nat>) -> nat
    decreases deltas.len(),
{
    if deltas.len() == 0 {
        0
    } else {
        total(deltas.drop_last()) + deltas.last()
    }
}

/// A fresh once timer, ticked any number of times, finishes exactly when the
/// ticks add up to its duration (at least one tick taken): its elapsed time
/// is the sum of the ticks capped at the duration, and it reports
/// `just_finished` on exactly one tick if it finished, on none otherwise.
pub proof fn lemma_once_timer_finishes_once(duration: nat, deltas: Seq<nat>)
    ensures
        ({
            let done = deltas.len() > 0 && total(deltas) >= duration;
            let end = run(TimerView::fresh(duration), deltas);
            &&& end.finished == done
            &&& end.elapsed == (if done { duration } else { total(deltas) })
            &&& end.duration == duration
            &&& finish_count(TimerView::fresh(duration), deltas) == (if done { 1nat } else { 0nat })
        }),
    decreases deltas.len(),
{
    if deltas.len() > 0 {
        lemma_once_timer_finishes_once(duration, deltas.drop_last());
    }
}

/// A fresh once timer of positive duration reports `just_finished` on a tick
/// exactly when that tick brings the running total to the duration: the
/// ticks up to it reach the duration and the ticks before it do not.
pub proof fn lemma_just_finished_on_first_reaching(duration: nat, deltas: Seq<nat>)
    requires
        duration > 0,
    ensures
        run(TimerView::fresh(duration), deltas).just_finished <==> (deltas.len() > 0 && total(
            deltas,
        ) >= duration && total(deltas.drop_last()) < duration),
{
    if deltas.len() > 0 {
        lemma_once_timer_finishes_once(duration, deltas.drop_last());
        if deltas.drop_last().len() == 0 {
            assert(total(deltas.drop_last()) == 0);
        }
    }
}

/// A timer in once mode: it runs until the elapsed time reaches the duration,
/// reports `just_finished` on that one tick, and then stays finished.
pub struct OnceTimer {
    duration_nanos: u64,
    elapsed_nanos: u64,
    finished: bool,
    just_finished: bool,
}

impl View for OnceTimer {
    type V = TimerView;

    closed spec fn view(&self) -> TimerView {
        TimerView {
            duration: self.duration_nanos as nat,
            elapsed: self.elapsed_nanos as nat,
            finished: self.finished,
            just_finished: self.just_finished,
        }
    }
}

/// Calls `bevy_time::Timer::tick` on a once-mode timer of
/// `duration_nanos` whose elapsed time is `elapsed_nanos` and which has not
/// finished, and reads back the elapsed time and `just_finished`.
/// Claimed of the outside code (bevy_time 0.16 `Timer::tick`, `Stopwatch::tick`):
/// the stopwatch adds `delta` (saturating; the sum of two `u64` nanosecond
/// counts always fits a `Duration`); the timer finishes when the elapsed time
/// reaches the duration, in which case a once-mode timer sets the elapsed time
/// to the duration and counts one finish for this tick.
#[verifier::external_body]
fn tick_unfinished_once_timer(duration_nanos: u64, elapsed_nanos: u64, delta_nanos: u64) -> (r: (
    u64,
    bool,
))
    ensures
        r.1 == (elapsed_nanos + delta_nanos >= duration_nanos),
        r.0 == (if elapsed_nanos + delta_nanos >= duration_nanos {
            duration_nanos as int
        } else {
            elapsed_nanos + delta_nanos
        }),
{
    let mut timer = Timer::new(Duration::from_nanos(duration_nanos), TimerMode::Once);
    timer.set_elapsed(Duration::from_nanos(elapsed_nanos));
    timer.tick(Duration::from_nanos(delta_nanos));
    (timer.elapsed().as_nanos() as u64, timer.just_finished())
}

impl OnceTimer {
    #[verifier::type_invariant]
    closed spec fn inv(self) -> bool {
        self@.wf()
    }

    /// A new once-mode timer of `duration_nanos` nanoseconds.
    pub fn new(duration_nanos: u64) -> (t: OnceTimer)
        ensures
            t@ == TimerView::fresh(duration_nanos as nat),
            t@.wf(),
    {
        OnceTimer { duration_nanos, elapsed_nanos: 0, finished: false, just_finished: false }
    }

    /// Advances the timer by `delta_nanos` nanoseconds.
    pub fn tick(&mut self, delta_nanos: u64)
        ensures
            final(self)@ == old(self)@.after_tick(delta_nanos as nat),
            final(self)@.wf(),
    {
        proof {
            use_type_invariant(&*self);
        }
        if self.finished {
            self.just_finished = false;
        } else {
            let (elapsed, reached) = tick_unfinished_once_timer(
                self.duration_nanos,
                self.elapsed_nanos,
                delta_nanos,
            );
            *self = OnceTimer {
                duration_nanos: self.duration_nanos,
                elapsed_nanos: elapsed,
                finished: reached,
                just_finished: reached,
            };
        }
        proof {
            use_type_invariant(&*self);
        }
    }

    /// Whether the elapsed time has reached the duration.
    pub fn finished(&self) -> (b: bool)
        ensures
            b == self@.finished,
            self@.wf(),
    {
        proof {
            use_type_invariant(self);
        }
        self.finished
    }

    /// Whether the last tick is the one that finished the timer.
    pub fn just_finished(&self) -> (b: bool)
        ensures
            b == self@.just_finished,
    {
        self.just_finished
    }

    /// The elapsed time in nanoseconds.
    pub fn elapsed_nanos(&self) -> (n: u64)
        ensures
            n == self@.elapsed,
    {
        self.elapsed_nanos
    }

    /// The duration in nanoseconds.
    pub fn duration_nanos(&self) -> (n: u64)
        ensures
            n == self@.duration,
    {
        self.duration_nanos
    }
}

} // verus!

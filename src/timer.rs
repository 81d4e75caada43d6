use vstd::prelude::*;
use crate::text::{push_two_digits, two_digit_chars};

verus! {

/// Length of a round, in microseconds.
pub const ROUND_MICROS: u64 = 5_000_000;

/// A one-shot countdown that measures elapsed round time in microseconds.
#[derive(Clone, Copy, Debug, PartialEq, Eq, Structural)]
pub struct Timer {
    pub duration: u64,
    pub elapsed: u64,
    pub just_expired: bool,
}

/// The timer before tick `i` of a trace started from `t`.
pub open spec fn before_tick(t: Timer, trace: Seq<Timer>, i: int) -> Timer {
    if i == 0 {
        t
    } else {
        trace[i - 1]
    }
}

/// Over any run of active ticks, the expiry edge is reported exactly on the
/// tick where the elapsed time first reaches the duration, at most once, and
/// the timer stays expired afterwards.
pub proof fn lemma_expiry_edge(t: Timer, deltas: Seq<u64>)
    requires
        t.wf(),
    ensures
        t.tick_trace(deltas).len() == deltas.len(),
        forall|i: int|
            0 <= i < deltas.len() ==> #[trigger] t.tick_trace(deltas)[i] == before_tick(
                t,
                t.tick_trace(deltas),
                i,
            ).ticked(deltas[i], true),
        forall|i: int|
            0 <= i < deltas.len() ==> (#[trigger] t.tick_trace(deltas)[i]).wf() && t.tick_trace(
                deltas,
            )[i].duration == t.duration,
        forall|i: int|
            0 <= i < deltas.len() ==> ((#[trigger] t.tick_trace(deltas)[i]).just_expired <==> (
            !before_tick(t, t.tick_trace(deltas), i).expired() && t.tick_trace(deltas)[i].expired())),
        forall|i: int, j: int|
            0 <= i < j < deltas.len() && (#[trigger] t.tick_trace(deltas)[i]).expired()
                ==> (#[trigger] t.tick_trace(deltas)[j]).expired(),
        forall|i: int, j: int|
            0 <= i < j < deltas.len() && (#[trigger] t.tick_trace(deltas)[i]).just_expired
                ==> !(#[trigger] t.tick_trace(deltas)[j]).just_expired,
    decreases deltas.len(),
{
    if deltas.len() > 0 {
        let pre = deltas.drop_last();
        lemma_expiry_edge(t, pre);
        let tr = t.tick_trace(deltas);
        let ptr = t.tick_trace(pre);
        assert(tr.drop_last() =~= ptr);
        assert forall|i: int| 0 <= i < pre.len() implies tr[i] == ptr[i] && deltas[i] == pre[i] by {}
        assert forall|i: int| 0 <= i < deltas.len() implies before_tick(t, tr, i) == before_tick(t, ptr, i)
            by {}
    }
}

impl Timer {
    pub open spec fn wf(self) -> bool {
        0 < self.duration && self.elapsed <= self.duration
    }

    pub open spec fn expired(self) -> bool {
        self.elapsed >= self.duration
    }

    /// The timer after one tick; time only passes while `active` holds.
    pub open spec fn ticked(self, delta: u64, active: bool) -> Timer {
        if !active || self.elapsed >= self.duration {
            Timer { just_expired: false, ..self }
        } else if delta >= self.duration - self.elapsed {
            Timer { elapsed: self.duration, just_expired: true, ..self }
        } else {
            Timer { elapsed: (self.elapsed + delta) as u64, just_expired: false, ..self }
        }
    }

    /// The timers after each tick of a sequence of active ticks.
    pub open spec fn tick_trace(self, deltas: Seq<u64>) -> Seq<Timer>
        decreases deltas.len(),
    {
        if deltas.len() == 0 {
            Seq::empty()
        } else {
            let pre = self.tick_trace(deltas.drop_last());
            let last = if pre.len() == 0 { self } else { pre.last() };
            pre.push(last.ticked(deltas.last(), true))
        }
    }

    /// A round timer of the standard length, not started.
    pub fn new() -> (r: Timer)
        ensures
            r.wf(),
            r.duration == ROUND_MICROS,
            r.elapsed == 0,
            !r.just_expired,
    {
        Timer { duration: ROUND_MICROS, elapsed: 0, just_expired: false }
    }

    /// A timer of the given length, not started.
    pub fn with_duration(duration: u64) -> (r: Timer)
        requires
            duration > 0,
        ensures
            r.wf(),
            r.duration == duration,
            r.elapsed == 0,
            !r.just_expired,
    {
        Timer { duration, elapsed: 0, just_expired: false }
    }

    /// Zeroes the elapsed time and clears the expiry edge.
    pub fn reset(&mut self)
        ensures
            *final(self) == (Timer { elapsed: 0, just_expired: false, ..*old(self) }),
    {
        self.elapsed = 0;
        self.just_expired = false;
    }

    /// Advances the timer by `delta` when `active`; the elapsed time stops at
    /// the duration, and the expiry edge is set on the tick that reaches it.
    pub fn tick(&mut self, delta: u64, active: bool)
        requires
            old(self).wf(),
        ensures
            *final(self) == old(self).ticked(delta, active),
            final(self).wf(),
    {
        if !active || self.elapsed >= self.duration {
            self.just_expired = false;
        } else if delta >= self.duration - self.elapsed {
            self.elapsed = self.duration;
            self.just_expired = true;
        } else {
            self.elapsed = self.elapsed + delta;
            self.just_expired = false;
        }
    }

    /// Whether the elapsed time has reached the duration.
    pub fn has_expired(&self) -> (r: bool)
        ensures
            r == self.expired(),
    {
        self.elapsed >= self.duration
    }

    /// Whether the last tick was the one that reached the duration.
    pub fn just_expired(&self) -> (r: bool)
        ensures
            r == self.just_expired,
    {
        self.just_expired
    }

    /// Time left, in microseconds.
    pub fn remaining(&self) -> (r: u64)
        requires
            self.wf(),
        ensures
            r == self.duration - self.elapsed,
    {
        self.duration - self.elapsed
    }

    /// Whole seconds left.
    pub fn remaining_seconds(&self) -> (r: u64)
        requires
            self.wf(),
        ensures
            r == (self.duration - self.elapsed) / 1_000_000,
    {
        self.remaining() / 1_000_000
    }

    /// Hundredths of a second left beyond the whole seconds.
    pub fn remaining_hundredths(&self) -> (r: u64)
        requires
            self.wf(),
        ensures
            r == ((self.duration - self.elapsed) % 1_000_000) / 10_000,
            r < 100,
    {
        (self.remaining() % 1_000_000) / 10_000
    }

    /// The time left as `SS.HH`: whole seconds and hundredths, each padded to
    /// two digits.
    pub fn render(&self) -> (r: Vec<char>)
        requires
            self.wf(),
        ensures
            r@ == two_digit_chars(((self.duration - self.elapsed) / 1_000_000) as nat) + seq!['.']
                + two_digit_chars((((self.duration - self.elapsed) % 1_000_000) / 10_000) as nat),
    {
        let mut out: Vec<char> = Vec::new();
        push_two_digits(&mut out, self.remaining_seconds());
        out.push('.');
        push_two_digits(&mut out, self.remaining_hundredths());
        proof {
            assert(out@ =~= two_digit_chars(((self.duration - self.elapsed) / 1_000_000) as nat)
                + seq!['.'] + two_digit_chars(
                (((self.duration - self.elapsed) % 1_000_000) / 10_000) as nat,
            ));
        }
        out
    }
}

} // verus!

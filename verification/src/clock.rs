//! The transport clock: elapsed playback time across pause and resume.
//!
//! Instants are plain millisecond readings of a monotonic clock, handed in by
//! the caller. The clock never reads the time itself, so every operation is a
//! function of its arguments.

use vstd::prelude::*;

verus! {

/// Milliseconds from `earlier` to `now`; zero when `now` lies before `earlier`.
pub open spec fn span(earlier: int, now: int) -> int {
    if now >= earlier {
        now - earlier
    } else {
        0
    }
}

/// `x` where it is positive, else zero.
pub open spec fn at_least_zero(x: int) -> int {
    if x >= 0 {
        x
    } else {
        0
    }
}

/// The mathematical state of a transport clock.
pub struct ClockModel {
    /// Instant at which the current track began to sound.
    pub start: int,
    /// Instant at which the running pause began; `None` while running.
    pub pause_start: Option<int>,
    /// Sum of all pauses that have already ended.
    pub paused_total: int,
}

impl ClockModel {
    /// A clock started at `now`: running, with no pause behind it.
    pub open spec fn fresh(now: int) -> ClockModel {
        ClockModel { start: now, pause_start: None, paused_total: 0 }
    }

    /// Whether every reading in the state is one that a clock can hold.
    pub open spec fn wf(self) -> bool {
        &&& 0 <= self.start <= u64::MAX
        &&& 0 <= self.paused_total <= u64::MAX
        &&& self.pause_start matches Some(p) ==> 0 <= p <= u64::MAX
    }

    pub open spec fn is_paused(self) -> bool {
        self.pause_start is Some
    }

    /// Playback time at `now`. While paused, the time since the pause began
    /// is taken off again, which freezes the value at the instant of pausing.
    pub open spec fn elapsed_at(self, now: int) -> int {
        match self.pause_start {
            None => at_least_zero(span(self.start, now) - self.paused_total),
            Some(p) => at_least_zero(span(self.start, now) - span(p, now) - self.paused_total),
        }
    }

    /// The clock after a toggle at `now`. Pausing records the instant;
    /// resuming adds the pause that ends to the total, once, and no further
    /// than the largest reading the clock can hold.
    pub open spec fn toggled(self, now: int) -> ClockModel {
        match self.pause_start {
            None => ClockModel { pause_start: Some(now), ..self },
            Some(p) => {
                let total = self.paused_total + span(p, now);
                ClockModel {
                    start: self.start,
                    pause_start: None,
                    paused_total: if total <= u64::MAX { total } else { u64::MAX as int },
                }
            },
        }
    }

    /// The clock after one toggle at each instant of `times`, in order.
    pub open spec fn toggled_all(self, times: Seq<int>) -> ClockModel
        decreases times.len(),
    {
        if times.len() == 0 {
            self
        } else {
            self.toggled(times[0]).toggled_all(times.skip(1))
        }
    }
}

/// Total length of the pauses described by `times`, read as pause instant,
/// resume instant, pause instant, and so on. A last pause without a resume
/// counts nothing.
pub open spec fn paused_intervals(times: Seq<int>) -> int
    decreases times.len(),
{
    if times.len() < 2 {
        0
    } else {
        (times[1] - times[0]) + paused_intervals(times.skip(2))
    }
}

/// Whether `times` never steps backwards and stays within `low ..= high`.
pub open spec fn ascending_within(times: Seq<int>, low: int, high: int) -> bool {
    &&& forall|i: int| 0 <= i < times.len() ==> low <= #[trigger] times[i] <= high
    &&& forall|i: int, j: int| 0 <= i <= j < times.len() ==> times[i] <= times[j]
}

/// Elapsed-time bookkeeping for the track that is sounding.
pub struct TransportClock {
    start: u64,
    pause_start: Option<u64>,
    paused_total: u64,
}

impl View for TransportClock {
    type V = ClockModel;

    closed spec fn view(&self) -> ClockModel {
        ClockModel {
            start: self.start as int,
            pause_start: match self.pause_start {
                Some(p) => Some(p as int),
                None => None,
            },
            paused_total: self.paused_total as int,
        }
    }
}

impl TransportClock {
    /// A clock that starts running at `now`.
    pub fn new(now: u64) -> (clock: TransportClock)
        ensures
            clock@ == ClockModel::fresh(now as int),
            clock@.wf(),
    {
        TransportClock { start: now, pause_start: None, paused_total: 0 }
    }

    /// Starts over at `now`, forgetting every earlier pause.
    pub fn reset(&mut self, now: u64)
        ensures
            final(self)@ == ClockModel::fresh(now as int),
            final(self)@.wf(),
    {
        self.start = now;
        self.pause_start = None;
        self.paused_total = 0;
    }

    /// Pauses a running clock, resumes a paused one.
    pub fn toggle(&mut self, now: u64)
        ensures
            final(self)@ == old(self)@.toggled(now as int),
            final(self)@.wf(),
    {
        match self.pause_start {
            Some(p) => {
                let pause: u64 = now.saturating_sub(p);
                self.paused_total = self.paused_total.saturating_add(pause);
                self.pause_start = None;
            },
            None => {
                self.pause_start = Some(now);
            },
        }
    }

    /// Whether the clock is paused.
    pub fn is_paused(&self) -> (paused: bool)
        ensures
            paused == self@.is_paused(),
    {
        self.pause_start.is_some()
    }

    /// Playback time at `now`, in milliseconds.
    pub fn elapsed(&self, now: u64) -> (millis: u64)
        ensures
            millis as int == self@.elapsed_at(now as int),
    {
        let since_start: u64 = now.saturating_sub(self.start);
        match self.pause_start {
            None => since_start.saturating_sub(self.paused_total),
            Some(p) => {
                let since_pause: u64 = now.saturating_sub(p);
                since_start.saturating_sub(since_pause).saturating_sub(self.paused_total)
            },
        }
    }
}


/// While the clock runs, playback time never goes back: a later reading is
/// at least the earlier one.
pub proof fn lemma_running_never_decreases(clock: ClockModel, earlier: int, later: int)
    requires
        !clock.is_paused(),
        earlier <= later,
    ensures
        clock.elapsed_at(earlier) <= clock.elapsed_at(later),
{
}

/// While the clock is paused, playback time stands still: every reading
/// taken from the pause instant on gives the value at that instant.
pub proof fn lemma_paused_is_frozen(clock: ClockModel, now: int)
    requires
        clock.wf(),
        clock.pause_start matches Some(p) && p <= now,
    ensures
        clock.elapsed_at(now) == clock.elapsed_at(clock.pause_start->0),
{
}

/// A toggle does not move playback time: read at the instant of the toggle,
/// the clock shows the same value before and after it.
pub proof fn lemma_toggle_keeps_reading(clock: ClockModel, now: int)
    requires
        clock.wf(),
        0 <= now <= u64::MAX,
    ensures
        clock.toggled(now).elapsed_at(now) == clock.elapsed_at(now),
        clock.toggled(now).is_paused() == !clock.is_paused(),
        clock.toggled(now).wf(),
{
}

/// Playback time is non-decreasing over any run of toggles: a reading taken
/// before the toggles is at most a reading taken after them, as long as time
/// itself does not run backwards.
pub proof fn lemma_elapsed_never_decreases(
    clock: ClockModel,
    before: int,
    times: Seq<int>,
    after: int,
)
    requires
        clock.wf(),
        0 <= before <= after <= u64::MAX,
        ascending_within(times, before, after),
        clock.pause_start matches Some(p) ==> p <= before,
    ensures
        clock.elapsed_at(before) <= clock.toggled_all(times).elapsed_at(after),
    decreases times.len(),
{
    if times.len() == 0 {
        if clock.is_paused() {
            lemma_paused_is_frozen(clock, before);
            lemma_paused_is_frozen(clock, after);
        }
    } else {
        let t = times[0];
        let rest = times.skip(1);
        assert(before <= t <= after);
        assert(ascending_within(rest, t, after)) by {
            assert forall|i: int| 0 <= i < rest.len() implies t <= #[trigger] rest[i] <= after by {
                assert(rest[i] == times[i + 1]);
            }
            assert forall|i: int, j: int| 0 <= i <= j < rest.len() implies rest[i] <= rest[j] by {
                assert(rest[i] == times[i + 1]);
                assert(rest[j] == times[j + 1]);
            }
        }
        if clock.is_paused() {
            lemma_paused_is_frozen(clock, before);
            lemma_paused_is_frozen(clock, t);
        }
        lemma_toggle_keeps_reading(clock, t);
        lemma_elapsed_never_decreases(clock.toggled(t), t, rest, after);
    }
}

/// After any number of complete pause and resume cycles, playback time is
/// wall time since the start minus the sum of all paused intervals.
pub proof fn lemma_elapsed_is_wall_time_minus_pauses(start: int, times: Seq<int>, now: int)
    requires
        0 <= start <= now <= u64::MAX,
        ascending_within(times, start, now),
        times.len() % 2 == 0,
    ensures
        !ClockModel::fresh(start).toggled_all(times).is_paused(),
        ClockModel::fresh(start).toggled_all(times).elapsed_at(now) == (now - start)
            - paused_intervals(times),
{
    lemma_cycles_from(ClockModel::fresh(start), times, start, now);
}

/// When the last toggle was a pause, playback time is frozen at the wall
/// time of that pause minus the sum of all pauses that ended before it.
pub proof fn lemma_elapsed_while_paused(start: int, times: Seq<int>, now: int)
    requires
        0 <= start <= now <= u64::MAX,
        ascending_within(times, start, now),
        times.len() % 2 == 1,
    ensures
        ClockModel::fresh(start).toggled_all(times).is_paused(),
        ClockModel::fresh(start).toggled_all(times).elapsed_at(now) == (times.last() - start)
            - paused_intervals(times),
{
    lemma_cycles_from(ClockModel::fresh(start), times, start, now);
}

/// The two laws above, from any running clock whose finished pauses fit in
/// the time between its start and `low`.
proof fn lemma_cycles_from(clock: ClockModel, times: Seq<int>, low: int, now: int)
    requires
        clock.wf(),
        !clock.is_paused(),
        clock.start + clock.paused_total <= low <= now <= u64::MAX,
        ascending_within(times, low, now),
    ensures
        clock.toggled_all(times).is_paused() == (times.len() % 2 == 1),
        times.len() % 2 == 0 ==> clock.toggled_all(times).elapsed_at(now) == (now - clock.start)
            - clock.paused_total - paused_intervals(times),
        times.len() % 2 == 1 ==> clock.toggled_all(times).elapsed_at(now) == (times.last()
            - clock.start) - clock.paused_total - paused_intervals(times),
    decreases times.len(),
{
    reveal_with_fuel(ClockModel::toggled_all, 3);
    reveal_with_fuel(paused_intervals, 2);
    if times.len() == 0 {
    } else if times.len() == 1 {
        let p = times[0];
        assert(times.skip(1).len() == 0);
        assert(clock.toggled_all(times) == clock.toggled(p));
    } else {
        let p = times[0];
        let r = times[1];
        let rest = times.skip(2);
        assert(low <= p <= r <= now);
        assert(times.skip(1)[0] == r);
        assert(times.skip(1).skip(1) =~= rest);
        let resumed = clock.toggled(p).toggled(r);
        assert(clock.toggled_all(times) == resumed.toggled_all(rest));
        assert(resumed.paused_total == clock.paused_total + (r - p));
        assert(ascending_within(rest, r, now)) by {
            assert forall|i: int| 0 <= i < rest.len() implies r <= #[trigger] rest[i] <= now by {
                assert(rest[i] == times[i + 2]);
            }
            assert forall|i: int, j: int| 0 <= i <= j < rest.len() implies rest[i] <= rest[j] by {
                assert(rest[i] == times[i + 2]);
                assert(rest[j] == times[j + 2]);
            }
        }
        lemma_cycles_from(resumed, rest, r, now);
        if rest.len() > 0 {
            assert(rest.last() == times.last());
        }
    }
}

} // verus!

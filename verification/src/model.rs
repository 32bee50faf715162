//! The stopwatch as a mathematical value, and its transitions.
//!
//! Instants are points on one clock, counted in nanoseconds from the
//! clock's origin; durations are differences of instants. The clock is taken
//! to be monotonic: a reading that lies before the last recorded event is
//! treated as that event's instant, so no duration is ever negative.

use vstd::prelude::*;

verus! {

/// One recorded split: the time since the previous event and the elapsed
/// time at the moment of recording.
pub ghost struct Split {
    pub lap_time: nat,
    pub total_time: nat,
}

/// The state of a stopwatch.
pub ghost struct TimerModel {
    /// The origin against which elapsed time is measured; moved forward by
    /// the length of each pause when the pause ends.
    pub anchor: nat,
    /// The instant of the latest lap, pause or resume.
    pub last_event: nat,
    /// Whether elapsed time is accumulating.
    pub running: bool,
    /// The laps, oldest first.
    pub laps: Seq<Split>,
    /// The selected row of the newest-first lap list.
    pub selected: Option<nat>,
    /// The first row of the lap list that a renderer last showed.
    pub first_row: nat,
}

/// The sum of the lap times of a lap log.
pub open spec fn lap_sum(laps: Seq<Split>) -> nat
    decreases laps.len(),
{
    if laps.len() == 0 {
        0
    } else {
        lap_sum(laps.drop_last()) + laps.last().lap_time
    }
}

/// Every lap's total is the sum of the lap times up to and including it.
pub open spec fn telescopes(laps: Seq<Split>) -> bool {
    forall|n: int| 0 <= n < laps.len() ==> (#[trigger] laps[n]).total_time == lap_sum(laps.take(n + 1))
}

/// The total of the newest lap, or zero where there is none.
pub open spec fn last_total(laps: Seq<Split>) -> nat {
    if laps.len() == 0 {
        0
    } else {
        laps.last().total_time
    }
}

impl TimerModel {
    /// A stopwatch started at `now`: running, no laps, nothing selected.
    pub open spec fn fresh(now: nat) -> TimerModel {
        TimerModel {
            anchor: now,
            last_event: now,
            running: true,
            laps: Seq::empty(),
            selected: None,
            first_row: 0,
        }
    }

    /// What holds of every stopwatch, whatever was done to it.
    pub open spec fn inv(self) -> bool {
        &&& self.anchor <= self.last_event
        &&& (self.selected matches Some(i) ==> i < self.laps.len())
        &&& forall|i: int|
            0 <= i < self.laps.len() ==> (#[trigger] self.laps[i]).lap_time
                <= self.laps[i].total_time
        &&& forall|i: int, j: int|
            0 <= i <= j < self.laps.len() ==> (#[trigger] self.laps[i]).total_time <= (
            #[trigger] self.laps[j]).total_time
        &&& forall|i: int|
            0 <= i < self.laps.len() ==> lap_sum(self.laps.take(i + 1)) <= (
            #[trigger] self.laps[i]).total_time
        &&& last_total(self.laps) <= self.last_event - self.anchor
        &&& lap_sum(self.laps) <= self.last_event - self.anchor
    }

    /// The instant that a clock reading stands for: the reading itself, or
    /// the latest event where the reading lies before it.
    pub open spec fn observed(self, now: nat) -> nat {
        if now < self.last_event {
            self.last_event
        } else {
            now
        }
    }

    /// Elapsed time at the reading `now`, pauses left out. While paused it
    /// is the same at every reading.
    pub open spec fn elapsed(self, now: nat) -> nat {
        if self.running {
            (self.observed(now) - self.anchor) as nat
        } else {
            (self.last_event - self.anchor) as nat
        }
    }

    /// The lap that a recording at `now` appends.
    pub open spec fn next_split(self, now: nat) -> Split {
        Split {
            lap_time: (self.observed(now) - self.last_event) as nat,
            total_time: (self.observed(now) - self.anchor) as nat,
        }
    }

    /// Records a lap at `now` and selects it.
    pub open spec fn add_lap(self, now: nat) -> TimerModel {
        TimerModel {
            last_event: self.observed(now),
            laps: self.laps.push(self.next_split(now)),
            selected: Some(0),
            ..self
        }
    }

    /// Pauses a running stopwatch at `now`, or resumes a paused one; on
    /// resuming, the anchor moves forward by the length of the pause.
    pub open spec fn toggle_pause(self, now: nat) -> TimerModel {
        if self.running {
            TimerModel { running: false, last_event: self.observed(now), ..self }
        } else {
            TimerModel {
                running: true,
                anchor: (self.anchor + (self.observed(now) - self.last_event)) as nat,
                last_event: self.observed(now),
                ..self
            }
        }
    }

    /// Starts over at `now`.
    pub open spec fn reset(self, now: nat) -> TimerModel {
        TimerModel::fresh(now)
    }

    /// Moves the selection one row up the newest-first list, from the first
    /// row round to the last.
    pub open spec fn scroll_up(self) -> TimerModel {
        if self.laps.len() == 0 {
            self
        } else {
            let row: nat = match self.selected {
                Some(i) => if i == 0 {
                    (self.laps.len() - 1) as nat
                } else {
                    (i - 1) as nat
                },
                None => 0,
            };
            TimerModel { selected: Some(row), ..self }
        }
    }

    /// Moves the selection one row down the newest-first list, from the last
    /// row round to the first.
    pub open spec fn scroll_down(self) -> TimerModel {
        if self.laps.len() == 0 {
            self
        } else {
            let row: nat = match self.selected {
                Some(i) => if i >= self.laps.len() - 1 {
                    0
                } else {
                    i + 1
                },
                None => 0,
            };
            TimerModel { selected: Some(row), ..self }
        }
    }

    /// The lap shown in row `row` of the newest-first list.
    pub open spec fn row(self, row: int) -> Split
        recommends
            0 <= row < self.laps.len(),
    {
        self.laps[self.laps.len() - 1 - row]
    }

    /// The lap log telescopes, and the time between anchor and latest event
    /// is the newest lap's total: no time has been set aside by a pause
    /// since the newest lap.
    pub open spec fn aligned(self) -> bool {
        &&& telescopes(self.laps)
        &&& self.last_event - self.anchor == last_total(self.laps)
    }
}

/// The sum over a log with one more lap.
pub proof fn lemma_lap_sum_push(laps: Seq<Split>, split: Split)
    ensures
        lap_sum(laps.push(split)) == lap_sum(laps) + split.lap_time,
{
    assert(laps.push(split).drop_last() =~= laps);
}

/// Recording a lap keeps a stopwatch valid.
pub proof fn lemma_add_lap_inv(m: TimerModel, now: nat)
    requires
        m.inv(),
    ensures
        m.add_lap(now).inv(),
{
    let next = m.add_lap(now);
    let split = m.next_split(now);
    let old_len = m.laps.len() as int;
    lemma_lap_sum_push(m.laps, split);
    assert forall|i: int| 0 <= i < next.laps.len() implies lap_sum(next.laps.take(i + 1)) <= (
    #[trigger] next.laps[i]).total_time by {
        if i < old_len {
            assert(next.laps.take(i + 1) =~= m.laps.take(i + 1));
            assert(next.laps[i] == m.laps[i]);
        } else {
            assert(next.laps.take(i + 1) =~= next.laps);
        }
    }
    assert forall|i: int, j: int| 0 <= i <= j < next.laps.len() implies (
    #[trigger] next.laps[i]).total_time <= (#[trigger] next.laps[j]).total_time by {
        if j < old_len {
            assert(next.laps[i] == m.laps[i]);
            assert(next.laps[j] == m.laps[j]);
        } else if i < old_len {
            assert(next.laps[i] == m.laps[i]);
            assert(m.laps[i].total_time <= m.laps[old_len - 1].total_time);
        }
    }
    assert forall|i: int| 0 <= i < next.laps.len() implies (#[trigger] next.laps[i]).lap_time
        <= next.laps[i].total_time by {
        if i < old_len {
            assert(next.laps[i] == m.laps[i]);
        }
    }
}

/// Pausing and resuming keep a stopwatch valid.
pub proof fn lemma_toggle_pause_inv(m: TimerModel, now: nat)
    requires
        m.inv(),
    ensures
        m.toggle_pause(now).inv(),
{
}

/// Moving the selection keeps a stopwatch valid.
pub proof fn lemma_scroll_inv(m: TimerModel)
    requires
        m.inv(),
    ensures
        m.scroll_up().inv(),
        m.scroll_down().inv(),
{
}

} // verus!

//! What holds of the stopwatch across its transitions.

use crate::model::last_total;
use crate::model::lap_sum;
use crate::model::lemma_add_lap_inv;
use crate::model::lemma_lap_sum_push;
use crate::model::telescopes;
use crate::model::TimerModel;
use vstd::prelude::*;

verus! {

/// Elapsed time is never negative, and never less than the newest lap's
/// total.
pub proof fn law_elapsed_covers_laps(m: TimerModel, now: nat)
    requires
        m.inv(),
    ensures
        m.elapsed(now) >= last_total(m.laps),
        m.elapsed(now) >= lap_sum(m.laps),
{
}

/// While the stopwatch runs, elapsed time grows with the clock, second for
/// second.
pub proof fn law_running_elapsed_follows_clock(m: TimerModel, earlier: nat, later: nat)
    requires
        m.inv(),
        m.running,
        m.last_event <= earlier <= later,
    ensures
        m.elapsed(later) == m.elapsed(earlier) + (later - earlier),
{
}

/// While the stopwatch is paused, elapsed time is the same at every
/// reading of the clock.
pub proof fn law_paused_elapsed_is_frozen(m: TimerModel, first: nat, second: nat)
    requires
        !m.running,
    ensures
        m.elapsed(first) == m.elapsed(second),
{
}

/// Pausing freezes elapsed time at its value at the moment of pausing.
pub proof fn law_pause_keeps_elapsed(m: TimerModel, paused_at: nat, later: nat)
    requires
        m.inv(),
        m.running,
    ensures
        m.toggle_pause(paused_at).elapsed(later) == m.elapsed(paused_at),
{
}

/// Resuming leaves the pause out: right after resuming, elapsed time is
/// what it was throughout the pause.
pub proof fn law_resume_keeps_elapsed(m: TimerModel, resumed_at: nat, during_pause: nat)
    requires
        m.inv(),
        !m.running,
    ensures
        m.toggle_pause(resumed_at).elapsed(resumed_at) == m.elapsed(during_pause),
{
}

/// Elapsed time just before a pause equals elapsed time just after the
/// resume that follows it, however long the pause lasted; from there on
/// only the time after the resume is added.
pub proof fn law_pause_continuity(m: TimerModel, paused_at: nat, resumed_at: nat, later: nat)
    requires
        m.inv(),
        m.running,
    ensures
        m.toggle_pause(paused_at).toggle_pause(resumed_at).elapsed(resumed_at) == m.elapsed(
            paused_at,
        ),
        later >= m.toggle_pause(paused_at).toggle_pause(resumed_at).last_event ==> m.toggle_pause(
            paused_at,
        ).toggle_pause(resumed_at).elapsed(later) == m.elapsed(paused_at) + (later - m.toggle_pause(
            paused_at,
        ).toggle_pause(resumed_at).last_event),
{
}

/// Moving the selection changes neither the elapsed time nor the laps.
pub proof fn law_scroll_keeps_time(m: TimerModel, now: nat)
    ensures
        m.scroll_up().elapsed(now) == m.elapsed(now),
        m.scroll_down().elapsed(now) == m.elapsed(now),
        m.scroll_up().laps == m.laps,
        m.scroll_down().laps == m.laps,
        m.scroll_up().running == m.running,
        m.scroll_down().running == m.running,
{
}

/// Resetting twice is resetting once: the result is the stopwatch started
/// at the last reset's reading, with no laps, nothing selected and no time
/// elapsed.
pub proof fn law_reset_idempotent(m: TimerModel, first: nat, second: nat)
    ensures
        m.reset(first).reset(second) == m.reset(second),
        m.reset(second).laps.len() == 0,
        m.reset(second).selected.is_none(),
        m.reset(second).running,
        m.reset(second).elapsed(second) == 0,
{
}

/// With laps recorded, scrolling up from the first row selects the last and
/// scrolling down from the last selects the first; elsewhere they move by
/// one row. Without laps both leave the stopwatch as it is.
pub proof fn law_scroll_wraps(m: TimerModel)
    requires
        m.inv(),
    ensures
        m.laps.len() == 0 ==> m.scroll_up() == m && m.scroll_down() == m,
        m.laps.len() > 0 && m.selected == Some(0nat) ==> m.scroll_up().selected == Some(
            (m.laps.len() - 1) as nat,
        ),
        m.laps.len() > 0 && m.selected == Some((m.laps.len() - 1) as nat)
            ==> m.scroll_down().selected == Some(0nat),
        m.laps.len() > 0 && m.selected.is_none() ==> m.scroll_up().selected == Some(0nat)
            && m.scroll_down().selected == Some(0nat),
        m.selected matches Some(i) ==> (0 < i ==> m.scroll_up().selected == Some((i - 1) as nat)),
        m.selected matches Some(i) ==> (i + 1 < m.laps.len() ==> m.scroll_down().selected == Some(
            i + 1,
        )),
{
}

/// With a row selected, scrolling up and scrolling down undo each other.
pub proof fn law_scroll_round_trip(m: TimerModel)
    requires
        m.inv(),
        m.selected.is_some(),
    ensures
        m.scroll_up().scroll_down() == m,
        m.scroll_down().scroll_up() == m,
{
}

/// A fresh stopwatch is valid and aligned.
pub proof fn law_fresh_is_aligned(now: nat)
    ensures
        TimerModel::fresh(now).inv(),
        TimerModel::fresh(now).aligned(),
{
}

/// Recording a lap on an aligned stopwatch leaves it aligned: the new
/// lap's total is the sum of all lap times so far.
pub proof fn law_add_lap_keeps_aligned(m: TimerModel, now: nat)
    requires
        m.inv(),
        m.aligned(),
    ensures
        m.add_lap(now).aligned(),
        m.add_lap(now).laps.last().total_time == lap_sum(m.add_lap(now).laps),
{
    let next = m.add_lap(now);
    let split = m.next_split(now);
    let old_len = m.laps.len() as int;
    lemma_lap_sum_push(m.laps, split);
    if old_len > 0 {
        assert(m.laps.take(old_len) =~= m.laps);
        assert(m.laps[old_len - 1].total_time == lap_sum(m.laps.take(old_len - 1 + 1)));
    }
    assert(last_total(m.laps) == lap_sum(m.laps));
    assert forall|n: int| 0 <= n < next.laps.len() implies (#[trigger] next.laps[n]).total_time
        == lap_sum(next.laps.take(n + 1)) by {
        if n < old_len {
            assert(next.laps.take(n + 1) =~= m.laps.take(n + 1));
            assert(next.laps[n] == m.laps[n]);
        } else {
            assert(next.laps.take(n + 1) =~= next.laps);
        }
    }
}

/// Pausing or resuming an aligned stopwatch leaves it aligned exactly when
/// no time is set aside: always on resuming, and on pausing only at the
/// instant of the latest event.
pub proof fn law_toggle_pause_and_alignment(m: TimerModel, now: nat)
    requires
        m.inv(),
        m.aligned(),
    ensures
        !m.running ==> m.toggle_pause(now).aligned(),
        m.running ==> (m.toggle_pause(now).aligned() <==> m.observed(now) == m.last_event),
{
}

/// The stopwatch after recording a lap at each of `readings` in turn.
pub open spec fn record_all(m: TimerModel, readings: Seq<nat>) -> TimerModel
    decreases readings.len(),
{
    if readings.len() == 0 {
        m
    } else {
        record_all(m, readings.drop_last()).add_lap(readings.last())
    }
}

/// Laps recorded one after another from a fresh start telescope: each
/// lap's total is the sum of the lap times up to and including it.
pub proof fn law_laps_telescope(start: nat, readings: Seq<nat>)
    ensures
        record_all(TimerModel::fresh(start), readings).inv(),
        record_all(TimerModel::fresh(start), readings).aligned(),
        telescopes(record_all(TimerModel::fresh(start), readings).laps),
        record_all(TimerModel::fresh(start), readings).laps.len() == readings.len(),
    decreases readings.len(),
{
    if readings.len() > 0 {
        let before = record_all(TimerModel::fresh(start), readings.drop_last());
        law_laps_telescope(start, readings.drop_last());
        lemma_add_lap_inv(before, readings.last());
        law_add_lap_keeps_aligned(before, readings.last());
    }
}

/// In every lap log, whatever pauses lay between the laps, the lap times up
/// to a lap sum to no more than that lap's total, no lap is longer than its
/// total, and the totals never decrease.
pub proof fn law_lap_times_within_totals(m: TimerModel, earlier: int, later: int)
    requires
        m.inv(),
        0 <= earlier <= later < m.laps.len(),
    ensures
        lap_sum(m.laps.take(later + 1)) <= m.laps[later].total_time,
        m.laps[later].lap_time <= m.laps[later].total_time,
        m.laps[earlier].total_time <= m.laps[later].total_time,
{
}

} // verus!

//! The stopwatch itself: the state that the model describes, held in
//! machine integers, and the operations on it.
//!
//! Each operation that needs the time comes in two forms. The form whose
//! name ends in `_at` takes the clock reading as an argument and says
//! exactly what it does with it. The other form reads a [`Clock`] and then
//! does what the first does with that reading.

use crate::clock::Clock;
use crate::list::list_offset;
use crate::list::list_selected;
use crate::model::lemma_add_lap_inv;
use crate::model::lemma_scroll_inv;
use crate::model::lemma_toggle_pause_inv;
use crate::model::Split;
use crate::model::TimerModel;
use ratatui::widgets::ListState;
use vstd::prelude::*;

verus! {

/// One recorded split, in nanoseconds: the time since the previous event
/// and the elapsed time at the moment of recording.
#[derive(Clone, Copy, Debug, PartialEq, Eq, Structural)]
pub struct Lap {
    pub lap_time: u128,
    pub total_time: u128,
}

impl View for Lap {
    type V = Split;

    open spec fn view(&self) -> Split {
        Split { lap_time: self.lap_time as nat, total_time: self.total_time as nat }
    }
}

/// A lap log as the model sees it.
pub open spec fn splits(laps: Seq<Lap>) -> Seq<Split> {
    laps.map_values(|lap: Lap| lap@)
}

/// A row index as the model sees it.
pub open spec fn row_model(row: Option<usize>) -> Option<nat> {
    match row {
        Some(i) => Some(i as nat),
        None => None,
    }
}

/// A stopwatch.
pub struct TimerState {
    start_time: u128,
    is_running: bool,
    laps: Vec<Lap>,
    last_lap: u128,
    laps_list_state: ListState,
}

impl View for TimerState {
    type V = TimerModel;

    closed spec fn view(&self) -> TimerModel {
        TimerModel {
            anchor: self.start_time as nat,
            last_event: self.last_lap as nat,
            running: self.is_running,
            laps: splits(self.laps@),
            selected: row_model(list_selected(self.laps_list_state)),
            first_row: list_offset(self.laps_list_state) as nat,
        }
    }
}

impl TimerState {
    /// A stopwatch started at the reading `now`.
    pub fn new_at(now: u128) -> (timer: TimerState)
        ensures
            timer@ == TimerModel::fresh(now as nat),
            timer@.inv(),
    {
        let timer = TimerState {
            start_time: now,
            is_running: true,
            laps: Vec::new(),
            last_lap: now,
            laps_list_state: ListState::default(),
        };
        assert(timer@.laps =~= Seq::<Split>::empty());
        timer
    }

    /// Elapsed time at the reading `now`, pauses left out.
    pub fn elapsed_at(&self, now: u128) -> (elapsed: u128)
        requires
            self@.inv(),
        ensures
            elapsed == self@.elapsed(now as nat),
    {
        if self.is_running {
            let seen: u128 = if now < self.last_lap { self.last_lap } else { now };
            seen - self.start_time
        } else {
            self.last_lap - self.start_time
        }
    }

    /// Records a lap at the reading `now` and selects it.
    pub fn add_lap_at(&mut self, now: u128)
        requires
            old(self)@.inv(),
        ensures
            final(self)@ == old(self)@.add_lap(now as nat),
            final(self)@.inv(),
    {
        proof {
            lemma_add_lap_inv(self@, now as nat);
        }
        let seen: u128 = if now < self.last_lap { self.last_lap } else { now };
        let lap = Lap { lap_time: seen - self.last_lap, total_time: seen - self.start_time };
        self.last_lap = seen;
        self.laps.push(lap);
        self.laps_list_state.select(Some(0));
        assert(self@.laps =~= old(self)@.laps.push(lap@));
    }

    /// Pauses a running stopwatch at the reading `now`, or resumes a paused
    /// one, leaving the pause out of the elapsed time.
    pub fn toggle_pause_at(&mut self, now: u128)
        requires
            old(self)@.inv(),
        ensures
            final(self)@ == old(self)@.toggle_pause(now as nat),
            final(self)@.inv(),
    {
        proof {
            lemma_toggle_pause_inv(self@, now as nat);
        }
        let seen: u128 = if now < self.last_lap { self.last_lap } else { now };
        self.is_running = !self.is_running;
        if self.is_running {
            let paused_duration: u128 = seen - self.last_lap;
            self.start_time = self.start_time + paused_duration;
        }
        self.last_lap = seen;
    }

    /// Starts over at the reading `now`: running, no laps, nothing selected.
    pub fn reset_at(&mut self, now: u128)
        ensures
            final(self)@ == old(self)@.reset(now as nat),
            final(self)@.inv(),
    {
        self.start_time = now;
        self.last_lap = now;
        self.is_running = true;
        self.laps.clear();
        self.laps_list_state.select(None);
        assert(self@.laps =~= Seq::<Split>::empty());
    }

    /// Moves the selection one row up the newest-first list, from the first
    /// row round to the last. Without laps it does nothing.
    pub fn scroll_up(&mut self)
        requires
            old(self)@.inv(),
        ensures
            final(self)@ == old(self)@.scroll_up(),
            final(self)@.inv(),
    {
        proof {
            lemma_scroll_inv(self@);
        }
        if self.laps.len() == 0 {
            return ;
        }
        let selected: usize = match self.laps_list_state.selected() {
            Some(i) => {
                if i == 0 {
                    self.laps.len() - 1
                } else {
                    i - 1
                }
            },
            None => 0,
        };
        self.laps_list_state.select(Some(selected));
    }

    /// Moves the selection one row down the newest-first list, from the last
    /// row round to the first. Without laps it does nothing.
    pub fn scroll_down(&mut self)
        requires
            old(self)@.inv(),
        ensures
            final(self)@ == old(self)@.scroll_down(),
            final(self)@.inv(),
    {
        proof {
            lemma_scroll_inv(self@);
        }
        if self.laps.len() == 0 {
            return ;
        }
        let selected: usize = match self.laps_list_state.selected() {
            Some(i) => {
                if i >= self.laps.len() - 1 {
                    0
                } else {
                    i + 1
                }
            },
            None => 0,
        };
        self.laps_list_state.select(Some(selected));
    }

    /// Whether elapsed time is accumulating.
    pub fn is_running(&self) -> (running: bool)
        ensures
            running == self@.running,
    {
        self.is_running
    }

    /// The laps, oldest first.
    pub fn laps(&self) -> (laps: &Vec<Lap>)
        ensures
            splits(laps@) == self@.laps,
    {
        &self.laps
    }

    /// The selected row of the newest-first lap list, if any.
    pub fn selected(&self) -> (row: Option<usize>)
        ensures
            row_model(row) == self@.selected,
    {
        self.laps_list_state.selected()
    }

    /// The lap in the selected row of the newest-first list, if any.
    pub fn selected_lap(&self) -> (lap: Option<Lap>)
        requires
            self@.inv(),
        ensures
            match self@.selected {
                Some(row) => lap.is_some() && lap.unwrap()@ == self@.row(row as int),
                None => lap.is_none(),
            },
    {
        match self.laps_list_state.selected() {
            Some(row) => Some(self.laps[self.laps.len() - 1 - row]),
            None => None,
        }
    }

    /// The list cursor for a renderer to draw with: the selection, and the
    /// first row that was last shown.
    pub fn list_state(&self) -> (state: ListState)
        ensures
            row_model(list_selected(state)) == self@.selected,
            list_offset(state) == self@.first_row,
    {
        self.laps_list_state
    }

    /// Takes the first shown row from the cursor that a renderer drew with,
    /// and leaves the selection as it is.
    pub fn remember_scroll(&mut self, shown: ListState)
        ensures
            final(self)@ == (TimerModel { first_row: list_offset(shown) as nat, ..old(self)@ }),
            final(self)@.inv() == old(self)@.inv(),
    {
        let selected = self.laps_list_state.selected();
        self.laps_list_state = shown.with_selected(selected);
    }

    /// A stopwatch started at the present reading of `clock`.
    pub fn new(clock: &Clock) -> (timer: TimerState)
        ensures
            exists|now: nat| timer@ == #[trigger] TimerModel::fresh(now),
            timer@.inv(),
    {
        let now = clock.now();
        TimerState::new_at(now)
    }

    /// Elapsed time at the present reading of `clock`, pauses left out.
    pub fn elapsed(&self, clock: &Clock) -> (elapsed: u128)
        requires
            self@.inv(),
        ensures
            exists|now: nat| elapsed == #[trigger] self@.elapsed(now),
    {
        let now = clock.now();
        self.elapsed_at(now)
    }

    /// Records a lap at the present reading of `clock` and selects it.
    pub fn add_lap(&mut self, clock: &Clock)
        requires
            old(self)@.inv(),
        ensures
            exists|now: nat| final(self)@ == #[trigger] old(self)@.add_lap(now),
            final(self)@.inv(),
    {
        let now = clock.now();
        self.add_lap_at(now);
    }

    /// Pauses or resumes at the present reading of `clock`.
    pub fn toggle_pause(&mut self, clock: &Clock)
        requires
            old(self)@.inv(),
        ensures
            exists|now: nat| final(self)@ == #[trigger] old(self)@.toggle_pause(now),
            final(self)@.inv(),
    {
        let now = clock.now();
        self.toggle_pause_at(now);
    }

    /// Starts over at the present reading of `clock`.
    pub fn reset(&mut self, clock: &Clock)
        ensures
            exists|now: nat| final(self)@ == #[trigger] old(self)@.reset(now),
            final(self)@.inv(),
    {
        let now = clock.now();
        self.reset_at(now);
    }
}

} // verus!

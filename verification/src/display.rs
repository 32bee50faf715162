//! What a renderer shows of the stopwatch, as plain values: the rows of the
//! lap list, newest first, the label of a row, and the band that the
//! elapsed time falls in.

use crate::format::decimal;
use crate::format::push_decimal;
use crate::timer::Lap;
use vstd::prelude::*;

verus! {

/// Nanoseconds in one second.
pub const NANOS_PER_SECOND: u128 = 1_000_000_000;

/// How far the elapsed time has come, by whole seconds.
#[derive(Clone, Copy, Debug, PartialEq, Eq, Structural)]
pub enum ElapsedBand {
    /// Less than ten seconds.
    UnderTenSeconds,
    /// Ten seconds or more, less than one minute.
    UnderOneMinute,
    /// One minute or more, less than five.
    UnderFiveMinutes,
    /// Five minutes or more.
    FiveMinutesOrMore,
}

/// The band of an elapsed time given in nanoseconds.
pub open spec fn band_of(elapsed: nat) -> ElapsedBand {
    if elapsed < 10_000_000_000 {
        ElapsedBand::UnderTenSeconds
    } else if elapsed < 60_000_000_000 {
        ElapsedBand::UnderOneMinute
    } else if elapsed < 300_000_000_000 {
        ElapsedBand::UnderFiveMinutes
    } else {
        ElapsedBand::FiveMinutesOrMore
    }
}

/// The band of an elapsed time given in nanoseconds.
pub fn elapsed_band(elapsed: u128) -> (band: ElapsedBand)
    ensures
        band == band_of(elapsed as nat),
{
    let seconds: u128 = elapsed / NANOS_PER_SECOND;
    if seconds < 10 {
        ElapsedBand::UnderTenSeconds
    } else if seconds < 60 {
        ElapsedBand::UnderOneMinute
    } else if seconds < 300 {
        ElapsedBand::UnderFiveMinutes
    } else {
        ElapsedBand::FiveMinutesOrMore
    }
}

/// One row of the lap list: a lap and its number, the oldest lap being
/// number 1.
#[derive(Clone, Copy, Debug, PartialEq, Eq, Structural)]
pub struct LapRow {
    pub number: usize,
    pub lap: Lap,
}

/// The rows of a lap log, newest lap first.
pub open spec fn rows_of(laps: Seq<Lap>) -> Seq<LapRow> {
    Seq::new(
        laps.len(),
        |row: int| LapRow { number: (laps.len() - row) as usize, lap: laps[laps.len() - 1 - row] },
    )
}

/// The label of the row of lap `number`: the number right-aligned in two
/// columns, as in `Lap  7: ` and `Lap 12: `.
pub open spec fn label_text(number: nat) -> Seq<char> {
    seq!['L', 'a', 'p', ' '] + (if number < 10 {
        seq![' ']
    } else {
        Seq::<char>::empty()
    }) + decimal(number) + seq![':', ' ']
}

/// The rows of a lap log, newest lap first.
pub fn newest_first(laps: &Vec<Lap>) -> (rows: Vec<LapRow>)
    ensures
        rows@ == rows_of(laps@),
{
    let count: usize = laps.len();
    let mut rows: Vec<LapRow> = Vec::new();
    let mut row: usize = 0;
    while row < count
        invariant
            count == laps.len(),
            row <= count,
            rows.len() == row,
            forall|k: int| 0 <= k < row ==> rows[k] == rows_of(laps@)[k],
        decreases count - row,
    {
        rows.push(LapRow { number: count - row, lap: laps[count - 1 - row] });
        row = row + 1;
    }
    assert(rows@ =~= rows_of(laps@));
    rows
}

/// The label of the row of lap `number`.
pub fn lap_label(number: usize) -> (label: String)
    ensures
        label@ == label_text(number as nat),
{
    let mut label = String::new();
    label.push('L');
    label.push('a');
    label.push('p');
    label.push(' ');
    if number < 10 {
        label.push(' ');
    }
    push_decimal(&mut label, number as u128);
    label.push(':');
    label.push(' ');
    assert(label@ =~= label_text(number as nat));
    label
}

} // verus!

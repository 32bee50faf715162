//! Keys, the commands they stand for, and what a command does to the
//! stopwatch.

use crate::clock::Clock;
use crate::model::TimerModel;
use crate::timer::TimerState;
use vstd::prelude::*;

verus! {

/// How long, in milliseconds, the input is waited for before the display is
/// drawn again.
pub const POLL_INTERVAL_MILLIS: u64 = 50;

/// A key of the keyboard, as far as the stopwatch tells keys apart.
#[derive(Clone, Copy, Debug, PartialEq, Eq, Structural)]
pub enum Key {
    /// A character key.
    Char(char),
    /// The escape key.
    Esc,
    /// The up arrow.
    Up,
    /// The down arrow.
    Down,
    /// Any other key.
    Other,
}

/// What the user can ask of the stopwatch.
#[derive(Clone, Copy, Debug, PartialEq, Eq, Structural)]
pub enum Command {
    /// Record a lap.
    Lap,
    /// Pause, or resume.
    TogglePause,
    /// Start over.
    Reset,
    /// Select the row above.
    ScrollUp,
    /// Select the row below.
    ScrollDown,
    /// Leave.
    Quit,
}

/// What the loop around the stopwatch does next.
#[derive(Clone, Copy, Debug, PartialEq, Eq, Structural)]
pub enum Flow {
    /// Draw, and wait for the next input.
    Continue,
    /// Leave the loop.
    Quit,
}

/// The command that a key event stands for. Only presses count, not
/// releases or repeats: `q` and escape quit, space records a lap, `p`
/// pauses or resumes, `r` resets, the arrows move the selection. Every
/// other key stands for nothing.
pub open spec fn command_of(key: Key, pressed: bool) -> Option<Command> {
    if !pressed {
        None
    } else {
        match key {
            Key::Char(c) => if c == 'q' {
                Some(Command::Quit)
            } else if c == ' ' {
                Some(Command::Lap)
            } else if c == 'p' {
                Some(Command::TogglePause)
            } else if c == 'r' {
                Some(Command::Reset)
            } else {
                None
            },
            Key::Esc => Some(Command::Quit),
            Key::Up => Some(Command::ScrollUp),
            Key::Down => Some(Command::ScrollDown),
            Key::Other => None,
        }
    }
}

/// The stopwatch after a command given at the reading `now`.
pub open spec fn after_command(m: TimerModel, command: Command, now: nat) -> TimerModel {
    match command {
        Command::Lap => m.add_lap(now),
        Command::TogglePause => m.toggle_pause(now),
        Command::Reset => m.reset(now),
        Command::ScrollUp => m.scroll_up(),
        Command::ScrollDown => m.scroll_down(),
        Command::Quit => m,
    }
}

/// The stopwatch after a key event at the reading `now`.
pub open spec fn after_key(m: TimerModel, key: Key, pressed: bool, now: nat) -> TimerModel {
    match command_of(key, pressed) {
        Some(command) => after_command(m, command, now),
        None => m,
    }
}

/// What the loop does after a command: it leaves on `Quit` and on nothing
/// else.
pub open spec fn flow_of(command: Option<Command>) -> Flow {
    if command == Some(Command::Quit) {
        Flow::Quit
    } else {
        Flow::Continue
    }
}

/// The command that a key event stands for, if any.
pub fn command_for_key(key: Key, pressed: bool) -> (command: Option<Command>)
    ensures
        command == command_of(key, pressed),
{
    if !pressed {
        return None;
    }
    match key {
        Key::Char(c) => {
            if c == 'q' {
                Some(Command::Quit)
            } else if c == ' ' {
                Some(Command::Lap)
            } else if c == 'p' {
                Some(Command::TogglePause)
            } else if c == 'r' {
                Some(Command::Reset)
            } else {
                None
            }
        },
        Key::Esc => Some(Command::Quit),
        Key::Up => Some(Command::ScrollUp),
        Key::Down => Some(Command::ScrollDown),
        Key::Other => None,
    }
}

impl TimerState {
    /// Carries out a command given at the reading `now`, and says whether
    /// the loop goes on.
    pub fn apply_at(&mut self, command: Command, now: u128) -> (flow: Flow)
        requires
            old(self)@.inv(),
        ensures
            final(self)@ == after_command(old(self)@, command, now as nat),
            final(self)@.inv(),
            flow == flow_of(Some(command)),
    {
        match command {
            Command::Lap => {
                self.add_lap_at(now);
                Flow::Continue
            },
            Command::TogglePause => {
                self.toggle_pause_at(now);
                Flow::Continue
            },
            Command::Reset => {
                self.reset_at(now);
                Flow::Continue
            },
            Command::ScrollUp => {
                self.scroll_up();
                Flow::Continue
            },
            Command::ScrollDown => {
                self.scroll_down();
                Flow::Continue
            },
            Command::Quit => Flow::Quit,
        }
    }

    /// Handles a key event that arrived at the reading `now`: carries out
    /// the command it stands for, if any, and says whether the loop goes on.
    pub fn handle_key_at(&mut self, key: Key, pressed: bool, now: u128) -> (flow: Flow)
        requires
            old(self)@.inv(),
        ensures
            final(self)@ == after_key(old(self)@, key, pressed, now as nat),
            final(self)@.inv(),
            flow == flow_of(command_of(key, pressed)),
    {
        match command_for_key(key, pressed) {
            Some(command) => self.apply_at(command, now),
            None => Flow::Continue,
        }
    }

    /// Handles a key event at the present reading of `clock`.
    pub fn handle_key(&mut self, key: Key, pressed: bool, clock: &Clock) -> (flow: Flow)
        requires
            old(self)@.inv(),
        ensures
            exists|now: nat| final(self)@ == #[trigger] after_key(old(self)@, key, pressed, now),
            final(self)@.inv(),
            flow == flow_of(command_of(key, pressed)),
    {
        let now = clock.now();
        self.handle_key_at(key, pressed, now)
    }
}

/// Only a quit command ends the loop, and it leaves the stopwatch as it is;
/// a key that stands for no command changes nothing either.
pub proof fn law_quit_and_idle_keys(m: TimerModel, key: Key, pressed: bool, now: nat)
    ensures
        flow_of(command_of(key, pressed)) == Flow::Quit <==> pressed && (key == Key::Esc || key
            == Key::Char('q')),
        command_of(key, pressed).is_none() ==> after_key(m, key, pressed, now) == m,
        command_of(key, pressed) == Some(Command::Quit) ==> after_key(m, key, pressed, now) == m,
{
}

} // verus!

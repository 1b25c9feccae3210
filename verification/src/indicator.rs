//! The indicator as a state machine. Each call of [`Indicator::step`] hands
//! out the next thing to do with the outputs, so that the caller only has to
//! drive lines and to let time pass. Inside a colour phase the heartbeat line
//! blinks four times; the phase ends with the change of one colour line.

use vstd::prelude::*;
use crate::color::{Color, Level, Line, Lines};

verus! {

/// Number of full colour cycles that a fresh indicator runs through.
pub const CYCLE_BUDGET: u32 = 5;

/// Length in milliseconds of each hold: the time that the heartbeat line
/// stays low, and the time that it stays high, in each blink.
pub const BLINK_DELAY_MS: u64 = 100;

/// What the caller is to do next.
#[derive(Clone, Copy, PartialEq, Eq, Debug, Structural)]
pub enum Action {
    /// Drive the heartbeat line to the level.
    Heartbeat(Level),
    /// Let `millis` milliseconds pass. This is the only point at which the
    /// indicator gives the processor up.
    Hold { millis: u64 },
    /// Drive the colour line to the level.
    Drive(Line, Level),
    /// The cycle budget is used up: nothing is left to do.
    Finished,
}

impl Action {
    /// Whether the action is a point at which the indicator gives the
    /// processor up.
    pub open spec fn suspends(self) -> bool {
        self is Hold
    }
}

/// The state of the indicator as the contracts see it.
pub struct IndicatorState {
    /// The colour of the running phase.
    pub color: Color,
    /// Number of actions of the running phase that were handed out.
    pub slot: nat,
    /// Number of cycles that are left, the running one included.
    pub cycles: nat,
}

impl IndicatorState {
    /// The state before the first action, with `budget` cycles to run.
    pub open spec fn start(budget: nat) -> IndicatorState {
        IndicatorState { color: Color::Red, slot: 0, cycles: budget }
    }

    /// The slot lies inside the phase.
    pub open spec fn wf(self) -> bool {
        self.slot < 17
    }

    /// The budget is used up.
    pub open spec fn finished(self) -> bool {
        self.cycles == 0
    }

    /// The action that the machine hands out in this state. A blink takes
    /// four slots: heartbeat low, hold, heartbeat high, hold, and both holds
    /// are `BLINK_DELAY_MS` long. The last slot of a phase changes the colour
    /// line that tells the next colour from this one.
    pub open spec fn action(self) -> Action {
        if self.finished() {
            Action::Finished
        } else if self.slot >= 16 {
            Action::Drive(self.color.changed_line(), self.color.changed_level())
        } else if self.slot % 4 == 0 {
            Action::Heartbeat(Level::Low)
        } else if self.slot % 4 == 2 {
            Action::Heartbeat(Level::High)
        } else {
            Action::Hold { millis: BLINK_DELAY_MS }
        }
    }

    /// The state after that action. A phase is followed by the phase of the
    /// next colour. Leaving `BlueRed` ends a cycle: the budget goes down by
    /// one, and the machine starts over at `Red` unless the budget is used up.
    pub open spec fn next(self) -> IndicatorState {
        if self.finished() {
            self
        } else if self.slot < 16 {
            IndicatorState { slot: self.slot + 1, ..self }
        } else if self.color != Color::BlueRed {
            IndicatorState { color: self.color.successor(), slot: 0, ..self }
        } else if self.cycles == 1 {
            IndicatorState { cycles: 0, ..self }
        } else {
            IndicatorState { color: Color::Red, slot: 0, cycles: (self.cycles - 1) as nat }
        }
    }

    /// The state after `n` actions.
    pub open spec fn after(self, n: nat) -> IndicatorState
        decreases n,
    {
        if n == 0 {
            self
        } else {
            self.after((n - 1) as nat).next()
        }
    }

    /// The first `n` actions, in the order in which they are handed out.
    pub open spec fn trace(self, n: nat) -> Seq<Action> {
        Seq::new(n, |t: int| self.after(t as nat).action())
    }

    /// The colours of the first `m` phases, for a state at the start of a
    /// phase.
    pub open spec fn colors_visited(self, m: nat) -> Seq<Color> {
        Seq::new(m, |j: int| self.after((17 * j) as nat).color)
    }

    /// The colour lines after the first `n` actions, where they were `lines`
    /// before the first.
    pub open spec fn lines_after(self, lines: Lines, n: nat) -> Lines
        decreases n,
    {
        if n == 0 {
            lines
        } else {
            let before = self.lines_after(lines, (n - 1) as nat);
            match self.after((n - 1) as nat).action() {
                Action::Drive(line, level) => before.drive(line, level),
                _ => before,
            }
        }
    }

    /// Number of actions that are left before the machine is finished.
    pub open spec fn remaining(self) -> nat {
        if self.finished() {
            0
        } else {
            (102 * (self.cycles - 1) + 17 * (5 - self.color.index()) + (17 - self.slot)) as nat
        }
    }
}

/// The indicator: a colour, a place inside the colour's phase and the cycles
/// that are left. Its view is its state.
#[derive(Debug)]
pub struct Indicator {
    color: Color,
    slot: u8,
    cycles: u32,
}

impl View for Indicator {
    type V = IndicatorState;

    closed spec fn view(&self) -> IndicatorState {
        IndicatorState { color: self.color, slot: self.slot as nat, cycles: self.cycles as nat }
    }
}

impl Indicator {
    #[verifier::type_invariant]
    spec fn inv(self) -> bool {
        self.slot < 17
    }

    /// An indicator at the start of the `Red` phase, with the full budget.
    pub fn new() -> (indicator: Indicator)
        ensures
            indicator@ == IndicatorState::start(CYCLE_BUDGET as nat),
    {
        Indicator { color: Color::Red, slot: 0, cycles: CYCLE_BUDGET }
    }

    /// The colour of the running phase.
    pub fn color(&self) -> (color: Color)
        ensures
            color == self@.color,
    {
        self.color
    }

    /// Number of cycles that are left, the running one included.
    pub fn cycles_left(&self) -> (cycles: u32)
        ensures
            cycles == self@.cycles,
    {
        self.cycles
    }

    /// Number of blinks of the running phase that are complete.
    pub fn blinks_done(&self) -> (blinks: u8)
        ensures
            self@.wf(),
            blinks == self@.slot / 4,
    {
        proof {
            use_type_invariant(self);
        }
        self.slot / 4
    }

    /// Whether the budget is used up.
    pub fn is_finished(&self) -> (finished: bool)
        ensures
            finished == self@.finished(),
    {
        self.cycles == 0
    }

    /// Hands out the next action and moves on.
    pub fn step(&mut self) -> (action: Action)
        ensures
            old(self)@.wf(),
            action == old(self)@.action(),
            final(self)@ == old(self)@.next(),
            final(self)@.wf(),
    {
        proof {
            use_type_invariant(&*self);
        }
        if self.cycles == 0 {
            return Action::Finished;
        }
        if self.slot < 16 {
            let beat: u8 = self.slot % 4;
            self.slot = self.slot + 1;
            if beat == 0 {
                Action::Heartbeat(Level::Low)
            } else if beat == 2 {
                Action::Heartbeat(Level::High)
            } else {
                Action::Hold { millis: BLINK_DELAY_MS }
            }
        } else {
            let (line, level) = self.color.change();
            match self.color {
                Color::BlueRed => {
                    self.cycles = self.cycles - 1;
                    if self.cycles != 0 {
                        self.color = Color::Red;
                        self.slot = 0;
                    }
                },
                _ => {
                    self.color = self.color.next();
                    self.slot = 0;
                },
            }
            Action::Drive(line, level)
        }
    }
}

} // verus!

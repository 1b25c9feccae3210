//! What the indicator does over a whole run: where it stands after any
//! number of actions, which colours it visits, how often it blinks, where the
//! colour lines stand, and when it is finished.

use vstd::prelude::*;
use crate::color::{Color, Level, Line, Lines};
use crate::indicator::{Action, IndicatorState, BLINK_DELAY_MS, CYCLE_BUDGET};

verus! {

impl IndicatorState {
    /// Number of actions between the start of the running cycle and this
    /// state.
    pub open spec fn offset(self) -> nat {
        17 * self.color.index() + self.slot
    }

    /// The state `t` actions later, computed at once: the place in the cycle
    /// moves on by `t`, and each cycle that is left behind costs one unit of
    /// the budget.
    pub open spec fn jump(self, t: nat) -> IndicatorState {
        let q = self.offset() + t;
        if q < 102 * self.cycles {
            IndicatorState {
                color: Color::at(q / 17),
                slot: q % 17,
                cycles: (self.cycles - q / 102) as nat,
            }
        } else {
            IndicatorState { color: Color::BlueRed, slot: 16, cycles: 0 }
        }
    }

    /// The action in slot `k` of the phase of `color`.
    pub open spec fn phase_action(color: Color, k: nat) -> Action {
        IndicatorState { color, slot: k, cycles: 1 }.action()
    }
}

/// Number of times that `action` occurs in `actions`.
pub open spec fn occurrences(actions: Seq<Action>, action: Action) -> nat
    decreases actions.len(),
{
    if actions.len() == 0 {
        0
    } else {
        occurrences(actions.drop_last(), action) + if actions.last() == action {
            1nat
        } else {
            0nat
        }
    }
}

/// The colours in cycle order, `m` of them, from `Red` on.
pub open spec fn color_cycle(m: nat) -> Seq<Color> {
    Seq::new(m, |j: int| Color::at(j as nat))
}

/// A step keeps a state well formed.
pub proof fn lemma_next_wf(s: IndicatorState)
    requires
        s.wf(),
    ensures
        s.next().wf(),
{
}

/// Stepping `t` times and jumping by `t` lead to the same state.
pub proof fn lemma_after_is_jump(s: IndicatorState, t: nat)
    requires
        s.wf(),
        !s.finished(),
    ensures
        s.after(t) == s.jump(t),
        s.after(t).wf(),
    decreases t,
{
    if t > 0 {
        lemma_after_is_jump(s, (t - 1) as nat);
    }
}

/// The machine is finished after exactly `remaining` actions, whatever state
/// it is in.
pub proof fn lemma_finished_after(s: IndicatorState, t: nat)
    requires
        s.wf(),
    ensures
        s.after(t).finished() <==> t >= s.remaining(),
        s.after(t).action() == Action::Finished <==> t >= s.remaining(),
    decreases t,
{
    if s.finished() {
        if t > 0 {
            lemma_finished_after(s, (t - 1) as nat);
        }
    } else {
        lemma_after_is_jump(s, t);
    }
}

/// Phase by phase, what a fresh machine with `budget` cycles does: its phase
/// `j` runs in the colour at place `j` of the cycle, and the action in slot
/// `k` of that phase is the one that the phase's pattern has there. Six
/// phases cost one cycle of the budget.
pub proof fn lemma_phase(budget: nat, j: nat, k: nat)
    requires
        j < 6 * budget,
        k < 17,
    ensures
        IndicatorState::start(budget).after(17 * j + k) == (IndicatorState {
            color: Color::at(j),
            slot: k,
            cycles: (budget - j / 6) as nat,
        }),
        IndicatorState::start(budget).after(17 * j + k).action() == IndicatorState::phase_action(
            Color::at(j),
            k,
        ),
{
    lemma_after_is_jump(IndicatorState::start(budget), 17 * j + k);
}

/// Over its first `n` full cycles a fresh machine visits the colours in cycle
/// order, from `Red` on, `n` times round.
pub proof fn lemma_colors_visited(budget: nat, n: nat)
    requires
        n <= budget,
    ensures
        IndicatorState::start(budget).colors_visited(6 * n) == color_cycle(6 * n),
{
    let s = IndicatorState::start(budget);
    let visited = s.colors_visited(6 * n);
    assert forall|j: int| 0 <= j < 6 * n implies #[trigger] visited[j] == Color::at(j as nat) by {
        lemma_phase(budget, j as nat, 0);
    }
    assert(visited =~= color_cycle(6 * n));
}

/// `x`, or `cap` where `x` is larger.
spec fn capped(x: nat, cap: nat) -> nat {
    if x < cap {
        x
    } else {
        cap
    }
}

/// Number of slots among the first `t` of a run of phases that drive the
/// heartbeat line low.
spec fn lows_before(t: nat) -> nat {
    4 * (t / 17) + capped((t % 17 + 3) / 4, 4)
}

/// Number of slots among the first `t` that drive the heartbeat line high.
spec fn highs_before(t: nat) -> nat {
    4 * (t / 17) + capped((t % 17 + 1) / 4, 4)
}

/// Number of slots among the first `t` that hold.
spec fn holds_before(t: nat) -> nat {
    8 * (t / 17) + capped((t % 17) / 2, 8)
}

/// One more action adds one occurrence where it is the action counted.
proof fn lemma_trace_step(s: IndicatorState, u: nat, action: Action)
    ensures
        occurrences(s.trace(u + 1), action) == occurrences(s.trace(u), action) + (if s.after(
            u,
        ).action() == action {
            1nat
        } else {
            0nat
        }),
{
    assert(s.trace(u + 1).drop_last() =~= s.trace(u));
    assert(s.trace(u + 1).last() == s.after(u).action());
}

/// The three counts grow by one in the slots of their action.
proof fn lemma_counts_step(u: nat)
    ensures
        lows_before(u + 1) == lows_before(u) + (if u % 17 < 16 && (u % 17) % 4 == 0 {
            1nat
        } else {
            0nat
        }),
        highs_before(u + 1) == highs_before(u) + (if u % 17 < 16 && (u % 17) % 4 == 2 {
            1nat
        } else {
            0nat
        }),
        holds_before(u + 1) == holds_before(u) + (if u % 17 < 16 && (u % 17) % 2 == 1 {
            1nat
        } else {
            0nat
        }),
{
    let r = u % 17;
    if r == 16 {
        assert((u + 1) % 17 == 0);
        assert((u + 1) / 17 == u / 17 + 1);
    } else {
        assert((u + 1) % 17 == r + 1);
        assert((u + 1) / 17 == u / 17);
    }
}

/// How often each action of a blink occurs among the first `t` actions of a
/// fresh machine.
proof fn lemma_occurrences_prefix(budget: nat, t: nat)
    requires
        t <= 102 * budget,
    ensures
        occurrences(IndicatorState::start(budget).trace(t), Action::Heartbeat(Level::Low))
            == lows_before(t),
        occurrences(IndicatorState::start(budget).trace(t), Action::Heartbeat(Level::High))
            == highs_before(t),
        occurrences(
            IndicatorState::start(budget).trace(t),
            Action::Hold { millis: BLINK_DELAY_MS },
        ) == holds_before(t),
    decreases t,
{
    let s = IndicatorState::start(budget);
    if t > 0 {
        let u = (t - 1) as nat;
        lemma_occurrences_prefix(budget, u);
        lemma_after_is_jump(s, u);
        lemma_trace_step(s, u, Action::Heartbeat(Level::Low));
        lemma_trace_step(s, u, Action::Heartbeat(Level::High));
        lemma_trace_step(s, u, Action::Hold { millis: BLINK_DELAY_MS });
        lemma_counts_step(u);
    }
}

/// Over its first `m` phases a fresh machine drives the heartbeat line low
/// four times in each phase, and high as often, and holds after each of the
/// two: four blinks in a phase.
pub proof fn lemma_blinks_in_phases(budget: nat, m: nat)
    requires
        m <= 6 * budget,
    ensures
        occurrences(IndicatorState::start(budget).trace(17 * m), Action::Heartbeat(Level::Low)) == 4
            * m,
        occurrences(IndicatorState::start(budget).trace(17 * m), Action::Heartbeat(Level::High))
            == 4 * m,
        occurrences(
            IndicatorState::start(budget).trace(17 * m),
            Action::Hold { millis: BLINK_DELAY_MS },
        ) == 8 * m,
{
    lemma_occurrences_prefix(budget, 17 * m);
}

/// Over its first `n` full cycles a fresh machine blinks the heartbeat four
/// times in each of the six phases of each cycle, with a hold after each
/// change of the heartbeat line, and it has then used up `n` cycles of its
/// budget: it is finished after the last cycle of the budget and not before.
pub proof fn lemma_blinks_in_cycles(budget: nat, n: nat)
    requires
        n <= budget,
    ensures
        occurrences(IndicatorState::start(budget).trace(102 * n), Action::Heartbeat(Level::Low))
            == 24 * n,
        occurrences(IndicatorState::start(budget).trace(102 * n), Action::Heartbeat(Level::High))
            == 24 * n,
        occurrences(
            IndicatorState::start(budget).trace(102 * n),
            Action::Hold { millis: BLINK_DELAY_MS },
        ) == 48 * n,
        IndicatorState::start(budget).after(102 * n).cycles == budget - n,
        IndicatorState::start(budget).after(102 * n).finished() <==> n == budget,
{
    lemma_blinks_in_phases(budget, 6 * n);
    assert(17 * (6 * n) == 102 * n);
    lemma_finished_after(IndicatorState::start(budget), 102 * n);
    if n < budget {
        lemma_phase(budget, 6 * n, 0);
    }
}

/// The run of a fresh indicator with its fixed budget. Over its first `n`
/// full cycles it blinks the heartbeat four times in each of the six phases
/// of each cycle and visits the colours in cycle order, `n` times round. It is
/// finished after the last cycle of the budget and not before.
pub proof fn lemma_fresh_run(n: nat)
    requires
        n <= CYCLE_BUDGET,
    ensures
        occurrences(
            IndicatorState::start(CYCLE_BUDGET as nat).trace(102 * n),
            Action::Heartbeat(Level::Low),
        ) == 24 * n,
        occurrences(
            IndicatorState::start(CYCLE_BUDGET as nat).trace(102 * n),
            Action::Heartbeat(Level::High),
        ) == 24 * n,
        occurrences(
            IndicatorState::start(CYCLE_BUDGET as nat).trace(102 * n),
            Action::Hold { millis: BLINK_DELAY_MS },
        ) == 48 * n,
        IndicatorState::start(CYCLE_BUDGET as nat).colors_visited(6 * n) == color_cycle(6 * n),
        IndicatorState::start(CYCLE_BUDGET as nat).after(102 * n).cycles == CYCLE_BUDGET - n,
        IndicatorState::start(CYCLE_BUDGET as nat).after(102 * n).finished() <==> n
            == CYCLE_BUDGET,
{
    lemma_blinks_in_cycles(CYCLE_BUDGET as nat, n);
    lemma_colors_visited(CYCLE_BUDGET as nat, n);
}

/// Where the colour lines stand during the run of a fresh machine that
/// started with all lines dark: the green and the blue line are lit when the
/// running colour lights them, and so is the red line from the third phase
/// on. Before that, in the first `Red` and `RedGreen` phase, it is dark.
pub proof fn lemma_lines_follow_color(budget: nat, t: nat)
    requires
        t < 102 * budget,
    ensures
        IndicatorState::start(budget).lines_after(Lines::dark(), t).green == Level::Low
            <==> IndicatorState::start(budget).after(t).color.lights(Line::Green),
        IndicatorState::start(budget).lines_after(Lines::dark(), t).blue == Level::Low
            <==> IndicatorState::start(budget).after(t).color.lights(Line::Blue),
        IndicatorState::start(budget).lines_after(Lines::dark(), t).red == Level::Low <==> t >= 34
            && IndicatorState::start(budget).after(t).color.lights(Line::Red),
    decreases t,
{
    let s = IndicatorState::start(budget);
    lemma_after_is_jump(s, t);
    if t > 0 {
        let u = (t - 1) as nat;
        lemma_lines_follow_color(budget, u);
        lemma_after_is_jump(s, u);
    }
}

/// From its third phase on, a fresh machine that started with all lines dark
/// keeps the lines on the running colour: the lines that the colour lights
/// are low, and the others are high.
pub proof fn lemma_lines_show_color(budget: nat, t: nat)
    requires
        34 <= t < 102 * budget,
    ensures
        IndicatorState::start(budget).lines_after(Lines::dark(), t).shows(
            IndicatorState::start(budget).after(t).color,
        ),
{
    lemma_lines_follow_color(budget, t);
}

/// The indicator never keeps the processor for long: of any three actions in
/// a row, one is a hold, unless the run ends there.
pub proof fn lemma_hold_within_three(s: IndicatorState)
    requires
        s.wf(),
    ensures
        s.action().suspends() || s.after(1).action().suspends() || s.after(2).action().suspends()
            || s.after(2).finished(),
{
    assert(s.after(2) == s.next().next()) by {
        reveal_with_fuel(IndicatorState::after, 3);
    }
}

/// One full cycle from the start of a `Red` phase: the machine is back at
/// `Red` after the sixth phase and at no phase in between, and the cycle has
/// cost one unit of the budget.
pub proof fn lemma_cycle_returns_to_red(cycles: nat, j: nat)
    requires
        cycles > 1,
        0 < j <= 6,
    ensures
        IndicatorState::start(cycles).after(17 * j).color == Color::Red <==> j == 6,
        IndicatorState::start(cycles).after(102) == IndicatorState::start((cycles - 1) as nat),
{
    lemma_phase(cycles, j, 0);
    lemma_phase(cycles, 6, 0);
}

} // verus!

//! The count of the overflows of a free-running 32-bit hardware counter. The
//! overflow interrupt is its only writer; together with the counter it gives
//! a time base that reaches beyond one round of the counter.

use vstd::prelude::*;

verus! {

/// The count after one more overflow. After the largest count that 32 bits
/// hold the count starts again at zero.
pub open spec fn count_next(count: nat) -> nat {
    if count >= u32::MAX {
        0
    } else {
        count + 1
    }
}

/// The count after `firings` more overflows.
pub open spec fn count_after(count: nat, firings: nat) -> nat
    decreases firings,
{
    if firings == 0 {
        count
    } else {
        count_next(count_after(count, (firings - 1) as nat))
    }
}

/// The ticks that have passed when the overflows were counted `overflows`
/// times and the hardware counter stands at `counter`.
pub open spec fn ticks_of(overflows: nat, counter: nat) -> nat {
    overflows * 0x1_0000_0000 + counter
}

/// Each firing adds exactly one to the count, as long as the count fits in 32
/// bits.
pub proof fn lemma_count_after(count: nat, firings: nat)
    requires
        count + firings <= u32::MAX,
    ensures
        count_after(count, firings) == count + firings,
    decreases firings,
{
    if firings > 0 {
        lemma_count_after(count, (firings - 1) as nat);
    }
}

/// The count never goes down over any run of firings, as long as it fits in
/// 32 bits.
pub proof fn lemma_count_monotonic(count: nat, earlier: nat, later: nat)
    requires
        earlier <= later,
        count + later <= u32::MAX,
    ensures
        count <= count_after(count, earlier) <= count_after(count, later),
{
    lemma_count_after(count, earlier);
    lemma_count_after(count, later);
}

/// Whatever the count, `firings` firings lead to the count that 32-bit
/// arithmetic gives.
pub proof fn lemma_count_wraps(count: nat, firings: nat)
    requires
        count <= u32::MAX,
    ensures
        count_after(count, firings) == (count + firings) % 0x1_0000_0000,
    decreases firings,
{
    if firings > 0 {
        lemma_count_wraps(count, (firings - 1) as nat);
    }
}

/// The time base never runs backwards: a later reading, taken after at least
/// as many overflows and, where their number is the same, at a counter that is
/// no smaller, gives at least as many ticks.
pub proof fn lemma_ticks_monotonic(overflows: nat, counter: nat, later_overflows: nat, later_counter: nat)
    requires
        counter <= u32::MAX,
        later_counter <= u32::MAX,
        overflows < later_overflows || (overflows == later_overflows && counter <= later_counter),
    ensures
        ticks_of(overflows, counter) <= ticks_of(later_overflows, later_counter),
{
    if overflows < later_overflows {
        assert((overflows + 1) * 0x1_0000_0000 <= later_overflows * 0x1_0000_0000)
            by (nonlinear_arith)
            requires
                overflows + 1 <= later_overflows,
        ;
    }
}

/// The time base goes on across an overflow: the first tick that is counted
/// after the overflow follows the last one before it.
pub proof fn lemma_ticks_continue(overflows: nat)
    requires
        overflows < u32::MAX,
    ensures
        ticks_of(count_next(overflows), 0) == ticks_of(overflows, u32::MAX as nat) + 1,
{
}

/// What the overflow interrupt is to do with the timer once the count is
/// written back.
#[derive(Clone, Copy, PartialEq, Eq, Debug, Structural)]
pub enum Acknowledge {
    /// Clear the timer's pending overflow flag.
    ClearOverflowFlag,
}

/// The overflow count. Its view is the count.
#[derive(Clone, Copy, Debug)]
pub struct OverflowCounter {
    count: u32,
}

impl View for OverflowCounter {
    type V = nat;

    closed spec fn view(&self) -> nat {
        self.count as nat
    }
}

impl OverflowCounter {
    /// The counter at boot: no overflow was seen.
    pub fn new() -> (counter: OverflowCounter)
        ensures
            counter@ == 0,
    {
        OverflowCounter { count: 0 }
    }

    /// The counter that stands at `count`.
    pub fn from_count(count: u32) -> (counter: OverflowCounter)
        ensures
            counter@ == count,
    {
        OverflowCounter { count }
    }

    /// The number of overflows counted.
    pub fn count(&self) -> (count: u32)
        ensures
            count == self@,
    {
        self.count
    }

    /// Counts one overflow, and tells the overflow interrupt to clear the
    /// flag that has raised it.
    pub fn on_overflow(&mut self) -> (acknowledge: Acknowledge)
        ensures
            final(self)@ == count_next(old(self)@),
            old(self)@ < u32::MAX ==> final(self)@ == old(self)@ + 1,
            acknowledge == Acknowledge::ClearOverflowFlag,
    {
        self.count = self.count.wrapping_add(1);
        Acknowledge::ClearOverflowFlag
    }

    /// The ticks that have passed at a reading `counter` of the hardware
    /// counter.
    pub fn ticks(&self, counter: u32) -> (ticks: u64)
        ensures
            ticks == ticks_of(self@, counter as nat),
    {
        let high: u64 = (self.count as u64) * 0x1_0000_0000;
        high + counter as u64
    }
}

} // verus!

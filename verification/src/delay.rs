//! Blocking waits of any length on a timer whose delay takes a 32-bit count
//! of microseconds. A wait is cut into delays that each fit that count: the
//! part of the wait below one second first, then the whole seconds in chunks
//! as large as the count allows.

use vstd::prelude::*;
use crate::time::Duration;

verus! {

/// The largest number of whole seconds whose microseconds fit in 32 bits.
pub const MAX_CHUNK_SECS: u64 = 4_294;

/// The delays, in microseconds, that stand for `secs` whole seconds: each
/// takes as many of the seconds that are left as fit in one delay.
pub open spec fn second_delays(secs: nat) -> Seq<nat>
    decreases secs,
{
    if secs == 0 {
        Seq::empty()
    } else if secs <= 4_294 {
        seq![secs * 1_000_000]
    } else {
        seq![4_294_000_000nat] + second_delays((secs - 4_294) as nat)
    }
}

/// The delay, if any, that stands for `micros` microseconds below one second.
pub open spec fn remainder_delay(micros: nat) -> Seq<nat> {
    if micros == 0 {
        Seq::empty()
    } else {
        seq![micros]
    }
}

/// The delays, in microseconds and in the order in which they are issued,
/// that make up a wait of `nanos` nanoseconds.
pub open spec fn delays(nanos: nat) -> Seq<nat> {
    remainder_delay((nanos % 1_000_000_000) / 1_000) + second_delays(nanos / 1_000_000_000)
}

/// The sum of the delays.
pub open spec fn total(delays: Seq<nat>) -> nat
    decreases delays.len(),
{
    if delays.len() == 0 {
        0
    } else {
        delays[0] + total(delays.skip(1))
    }
}

/// A chunk is the largest number of seconds whose microseconds fit in 32
/// bits.
pub proof fn lemma_chunk_is_largest()
    ensures
        MAX_CHUNK_SECS * 1_000_000 <= u32::MAX < (MAX_CHUNK_SECS + 1) * 1_000_000,
{
}

/// The whole seconds of a wait are never cut short: their delays add up to
/// them, microsecond for microsecond.
pub proof fn lemma_second_delays_total(secs: nat)
    ensures
        total(second_delays(secs)) == secs * 1_000_000,
    decreases secs,
{
    let all = second_delays(secs);
    if secs == 0 {
    } else if secs <= 4_294 {
        assert(all.skip(1) =~= Seq::<nat>::empty());
        assert(total(all) == all[0] + total(all.skip(1)));
    } else {
        let rest = (secs - 4_294) as nat;
        lemma_second_delays_total(rest);
        assert(all.skip(1) =~= second_delays(rest));
        assert(total(all) == all[0] + total(all.skip(1)));
    }
}

/// The seconds take one delay for each full chunk and one for what is left
/// over.
pub proof fn lemma_second_delays_len(secs: nat)
    ensures
        second_delays(secs).len() == (secs + 4_293) / 4_294,
    decreases secs,
{
    if secs > 4_294 {
        lemma_second_delays_len((secs - 4_294) as nat);
    }
}

/// Each delay for the seconds fits in 32 bits, none is empty, and each but
/// the last is as long as 32 bits allow in whole seconds.
pub proof fn lemma_second_delays_fit(secs: nat, i: int)
    requires
        0 <= i < second_delays(secs).len(),
    ensures
        0 < second_delays(secs)[i] <= 4_294_000_000,
        i + 1 < second_delays(secs).len() ==> second_delays(secs)[i] == 4_294_000_000,
    decreases secs,
{
    if secs > 4_294 {
        if i > 0 {
            lemma_second_delays_fit((secs - 4_294) as nat, i - 1);
        }
    }
}

/// The delays of a wait add up to the wait in whole microseconds.
pub proof fn lemma_delays_total(nanos: nat)
    ensures
        total(delays(nanos)) == nanos / 1_000,
{
    let micros = (nanos % 1_000_000_000) / 1_000;
    let secs = nanos / 1_000_000_000;
    lemma_second_delays_total(secs);
    if micros == 0 {
        assert(delays(nanos) =~= second_delays(secs));
    } else {
        assert(delays(nanos).skip(1) =~= second_delays(secs));
    }
}

/// No delay of a wait is larger than 32 bits hold, and none is empty.
pub proof fn lemma_delays_fit(nanos: nat, i: int)
    requires
        0 <= i < delays(nanos).len(),
    ensures
        0 < delays(nanos)[i] <= u32::MAX,
{
    let micros = (nanos % 1_000_000_000) / 1_000;
    let secs = nanos / 1_000_000_000;
    if micros == 0 {
        assert(delays(nanos) =~= second_delays(secs));
        lemma_second_delays_fit(secs, i);
    } else if i > 0 {
        lemma_second_delays_fit(secs, i - 1);
    }
}

/// The number of delays of a wait: one for the part below a second unless it
/// is empty, and one for each chunk of the seconds.
pub proof fn lemma_delays_len(nanos: nat)
    ensures
        delays(nanos).len() == (if (nanos % 1_000_000_000) / 1_000 == 0 {
            0int
        } else {
            1int
        }) + (nanos / 1_000_000_000 + 4_293) / 4_294,
{
    lemma_second_delays_len(nanos / 1_000_000_000);
}

/// A blocking wait that is under way. Its view is the delays that are still
/// to be issued.
#[derive(Debug)]
pub struct BlockingWait {
    micros: u32,
    secs: u64,
}

impl View for BlockingWait {
    type V = Seq<nat>;

    closed spec fn view(&self) -> Seq<nat> {
        remainder_delay(self.micros as nat) + second_delays(self.secs as nat)
    }
}

impl BlockingWait {
    /// The wait for `duration`, before its first delay.
    pub fn new(duration: Duration) -> (wait: BlockingWait)
        ensures
            wait@ == delays(duration@),
    {
        BlockingWait { micros: duration.subsec_micros(), secs: duration.as_secs() }
    }

    /// Whether every delay of the wait has been handed out.
    pub fn is_done(&self) -> (done: bool)
        ensures
            done <==> self@.len() == 0,
    {
        self.micros == 0 && self.secs == 0
    }

    /// Hands out the next delay in microseconds, or `None` when the wait is
    /// over.
    pub fn next_delay(&mut self) -> (delay: Option<u32>)
        ensures
            delay.is_some() <==> old(self)@.len() > 0,
            delay matches Some(micros) ==> micros == old(self)@[0] && final(self)@ == old(self)@.skip(
                1,
            ),
            delay.is_none() ==> final(self)@ == old(self)@,
    {
        if self.micros > 0 {
            let micros: u32 = self.micros;
            self.micros = 0;
            Some(micros)
        } else if self.secs > 0 {
            let chunk: u64 = if self.secs < MAX_CHUNK_SECS {
                self.secs
            } else {
                MAX_CHUNK_SECS
            };
            self.secs = self.secs - chunk;
            Some((chunk as u32) * 1_000_000)
        } else {
            None
        }
    }
}

/// The delays in microseconds that a blocking wait for `duration` issues, in
/// their order.
pub fn delay_calls(duration: Duration) -> (calls: Vec<u32>)
    ensures
        calls@.map_values(|micros: u32| micros as nat) == delays(duration@),
{
    let mut calls: Vec<u32> = Vec::new();
    let mut wait = BlockingWait::new(duration);
    loop
        invariant
            calls@.map_values(|micros: u32| micros as nat) + wait@ == delays(duration@),
        ensures
            calls@.map_values(|micros: u32| micros as nat) == delays(duration@),
        decreases wait@.len(),
    {
        match wait.next_delay() {
            Some(micros) => {
                calls.push(micros);
            },
            None => {
                break ;
            },
        }
    }
    calls
}

} // verus!

//! What the network tasks have in common: what they are told, and what they do on the side.

use vstd::prelude::*;

use crate::bytes;
use crate::network::report::{send_report, Report};

verus! {

/// What came out of a queue of settings.
#[derive(Debug, Clone)]
pub enum Received<T> {
    Got(T),
    /// Nothing in the time that was waited.
    Nothing,
    /// Nothing, and nothing will come any more.
    Closed,
}

/// What a task does besides the call it makes next.
#[derive(Debug, Clone, Copy)]
pub enum Effect {
    /// The driver has gone through its start, for better or worse: sockets may be opened once
    /// every driver has.
    DriverStarted,
    /// One more interface has a link.
    LinkUp,
    /// One interface less has a link.
    LinkDown,
    /// The connections of the TCP server are void.
    ResetTcp,
    /// The master is told.
    Report(Report),
}

/// By how much effects change the number of interfaces with a link.
pub open spec fn link_change(effects: Seq<Effect>) -> int
    decreases effects.len(),
{
    if effects.len() == 0 {
        0
    } else {
        link_change(effects.drop_last()) + match effects.last() {
            Effect::LinkUp => 1int,
            Effect::LinkDown => -1int,
            _ => 0int,
        }
    }
}

/// The frames that effects send, in order.
pub open spec fn frames(effects: Seq<Effect>) -> Seq<Seq<u8>>
    decreases effects.len(),
{
    if effects.len() == 0 {
        Seq::empty()
    } else {
        match effects.last() {
            Effect::Report(report) => crate::network::wifi::state::queued(
                frames(effects.drop_last()),
                report.frame(),
            ),
            _ => frames(effects.drop_last()),
        }
    }
}

/// Queues what effects report, in order.
pub fn send_effects(effects: &Vec<Effect>, outbox: &mut Vec<Vec<u8>>)
    ensures
        bytes::views(final(outbox)@) == bytes::views(old(outbox)@) + frames(effects@),
{
    let ghost before = bytes::views(outbox@);
    let mut i: usize = 0;
    assert(before + frames(effects@.take(0)) =~= before);
    while i < effects.len()
        invariant
            0 <= i <= effects@.len(),
            before == bytes::views(old(outbox)@),
            bytes::views(outbox@) == before + frames(effects@.take(i as int)),
        decreases effects@.len() - i,
    {
        let ghost done = frames(effects@.take(i as int));
        assert(effects@.take(i + 1).drop_last() =~= effects@.take(i as int));
        match effects[i] {
            Effect::Report(report) => {
                send_report(outbox, report);
                proof {
                    if let Ok(frame) = report.frame() {
                        assert((before + done).push(frame) =~= before + done.push(frame));
                    }
                }
            },
            _ => {},
        }
        i += 1;
    }
    assert(effects@.take(i as int) =~= effects@);
}

/// Whether an answer was given, and was yes.
pub open spec fn yes(answer: Option<bool>) -> bool {
    answer == Some(true)
}

/// Whether an answer was given, and was yes.
pub fn is_yes(answer: Option<bool>) -> (r: bool)
    ensures
        r == yes(answer),
{
    match answer {
        Some(v) => v,
        None => false,
    }
}

/// Whether `millis` have passed from `since` to `now`.
pub open spec fn passed(since: u64, now: u64, millis: int) -> bool {
    now - since >= millis
}

/// Whether `millis` have passed from `since` to `now`.
pub fn has_passed(since: u64, now: u64, millis: u64) -> (r: bool)
    ensures
        r == passed(since, now, millis as int),
{
    now >= since && now - since >= millis
}

pub(crate) fn no_effects() -> (effects: Vec<Effect>)
    ensures
        effects@ == Seq::<Effect>::empty(),
{
    Vec::new()
}

pub(crate) fn one_effect(a: Effect) -> (effects: Vec<Effect>)
    ensures
        effects@ == seq![a],
{
    let mut effects: Vec<Effect> = Vec::new();
    effects.push(a);
    assert(effects@ =~= seq![a]);
    effects
}

pub(crate) fn two_effects(a: Effect, b: Effect) -> (effects: Vec<Effect>)
    ensures
        effects@ == seq![a, b],
{
    let mut effects: Vec<Effect> = Vec::new();
    effects.push(a);
    effects.push(b);
    assert(effects@ =~= seq![a, b]);
    effects
}

} // verus!

use vstd::prelude::*;

verus! {

use crate::counter::RateCounter;
use crate::event_loop::{Event, LoopState, SubLoop, QUIT_BYTE, outputs, run, step};

/// Every event of the sequence is a message arrival.
pub open spec fn all_arrivals(es: Seq<Event>) -> bool {
    forall|i: int| 0 <= i < es.len() ==> es[i] == Event::MessageArrived
}

/// Running a concatenation is running the two halves in turn.
pub proof fn lemma_run_append(s: SubLoop, a: Seq<Event>, b: Seq<Event>)
    ensures
        run(s, a + b) == run(run(s, a), b),
    decreases a.len(),
{
    if a.len() == 0 {
        assert(a + b =~= b);
    } else {
        assert((a + b).drop_first() =~= a.drop_first() + b);
        lemma_run_append(step(s, a[0]).0, a.drop_first(), b);
    }
}

/// The loop emits exactly one entry per event it is fed.
pub proof fn lemma_outputs_len(s: SubLoop, es: Seq<Event>)
    ensures
        outputs(s, es).len() == es.len(),
    decreases es.len(),
{
    if es.len() > 0 {
        lemma_outputs_len(step(s, es[0]).0, es.drop_first());
    }
}

/// No lost updates: a burst of arrivals, with no tick and no input
/// interleaved, raises the counter by exactly the number of arrivals,
/// leaves the reporter's snapshot alone, and keeps the loop running —
/// whatever the counter held before.
pub proof fn lemma_arrival_burst(s: SubLoop, es: Seq<Event>)
    requires
        s.state is Running,
        all_arrivals(es),
        s.counter.count + es.len() <= u64::MAX,
    ensures
        run(s, es) == (SubLoop {
            state: LoopState::Running,
            counter: RateCounter {
                count: (s.counter.count + es.len()) as u64,
                last_seen: s.counter.last_seen,
            },
        }),
    decreases es.len(),
{
    if es.len() == 0 {
        assert(s == (SubLoop {
            state: LoopState::Running,
            counter: RateCounter {
                count: (s.counter.count + 0) as u64,
                last_seen: s.counter.last_seen,
            },
        }));
    } else {
        let s1 = step(s, es[0]).0;
        assert(all_arrivals(es.drop_first()));
        lemma_arrival_burst(s1, es.drop_first());
    }
}

/// Whatever the events, one run moves the counter up by at most one per
/// event and never down.
proof fn lemma_run_bounds(s: SubLoop, es: Seq<Event>)
    requires
        s.counter.count + es.len() <= u64::MAX,
    ensures
        s.counter.count <= run(s, es).counter.count,
        run(s, es).counter.count <= s.counter.count + es.len(),
    decreases es.len(),
{
    if es.len() > 0 {
        lemma_run_bounds(step(s, es[0]).0, es.drop_first());
    }
}

/// The counter is monotone: of any two observation points of one run, the
/// earlier one sees a count at most that of the later one. The counter must
/// have room for the run: it can climb by at most one per event.
pub proof fn lemma_counter_monotonic(s: SubLoop, es: Seq<Event>, t1: int, t2: int)
    requires
        0 <= t1 <= t2 <= es.len(),
        s.counter.count + es.len() <= u64::MAX,
    ensures
        run(s, es.take(t1)).counter.count <= run(s, es.take(t2)).counter.count,
{
    let mid = es.subrange(t1, t2);
    assert(es.take(t2) =~= es.take(t1) + mid);
    lemma_run_append(s, es.take(t1), mid);
    lemma_run_bounds(s, es.take(t1));
    lemma_run_bounds(run(s, es.take(t1)), mid);
}

/// Between two consecutive reporting ticks: if exactly the events of `es`,
/// all of them arrivals, land after a tick (which left the snapshot equal to
/// the count), the tick that closes the gap emits exactly their number and
/// moves the snapshot to the post-arrival count.
pub proof fn lemma_tick_counts_arrivals(s: SubLoop, es: Seq<Event>)
    requires
        s.state is Running,
        s.counter.last_seen == s.counter.count,
        all_arrivals(es),
        s.counter.count + es.len() <= u64::MAX,
    ensures
        step(run(s, es), Event::ReportTick).1 == Some(es.len() as u64),
        step(run(s, es), Event::ReportTick).0.counter.last_seen == s.counter.count + es.len(),
{
    lemma_arrival_burst(s, es);
}

/// A tick straight after a tick, with no arrival in between, emits exactly
/// zero.
pub proof fn lemma_idle_tick(s: SubLoop)
    requires
        s.state is Running,
        s.counter.well_formed(),
    ensures
        step(step(s, Event::ReportTick).0, Event::ReportTick).1 == Some(0u64),
{
}

/// Quit semantics of one input byte: the quit byte stops a running loop,
/// any other byte leaves it as it was; neither touches the counter and
/// neither emits anything.
pub proof fn lemma_quit_byte(s: SubLoop, b: u8)
    requires
        s.state is Running,
    ensures
        b == QUIT_BYTE ==> step(s, Event::InputByte(b)).0.state is Stopped,
        b != QUIT_BYTE ==> step(s, Event::InputByte(b)).0 == s,
        step(s, Event::InputByte(b)).0.counter == s.counter,
        step(s, Event::InputByte(b)).1 is None,
{
}

/// A stopped loop is terminal: no later event changes anything, and no
/// later event makes it emit.
pub proof fn lemma_stopped_is_terminal(s: SubLoop, es: Seq<Event>)
    requires
        s.state is Stopped,
    ensures
        run(s, es) == s,
        outputs(s, es).len() == es.len(),
        forall|i: int| 0 <= i < es.len() ==> outputs(s, es)[i] is None,
    decreases es.len(),
{
    lemma_outputs_len(s, es);
    if es.len() > 0 {
        lemma_stopped_is_terminal(s, es.drop_first());
        assert forall|i: int| 0 <= i < es.len() implies outputs(s, es)[i] is None by {
            if i > 0 {
                assert(outputs(s, es)[i] == outputs(s, es.drop_first())[i - 1]);
            }
        }
    }
}

} // verus!

use vstd::prelude::*;

verus! {

use crate::counter::RateCounter;

/// The control loop is either still serving events or done for good.
#[derive(Clone, Copy, Debug, PartialEq, Eq, Structural)]
pub enum LoopState {
    Running,
    Stopped,
}

/// One event, from whichever of the three sources became ready first:
/// the subscription delivered a message, the one-second reporting timer
/// fired, or one byte of operator input arrived.
#[derive(Clone, Copy, Debug, PartialEq, Eq, Structural)]
pub enum Event {
    MessageArrived,
    ReportTick,
    InputByte(u8),
}

/// The byte of operator input that stops the loop: ASCII 'q'.
pub const QUIT_BYTE: u8 = 113;

/// The loop's whole state: whether it still serves events, and the counter
/// that the delivery path bumps and the reporter diffs.
pub struct SubLoop {
    pub state: LoopState,
    pub counter: RateCounter,
}

/// The state the loop starts in: running, nothing counted, nothing reported.
pub open spec fn init() -> SubLoop {
    SubLoop {
        state: LoopState::Running,
        counter: RateCounter { count: 0, last_seen: 0 },
    }
}

/// One step of the loop: the next state and what, if anything, is emitted.
///
/// A stopped loop handles nothing. A running loop counts an arrival, answers
/// a reporting tick with the delta since the previous tick (and moves the
/// snapshot up), stops on the quit byte, and shrugs off any other byte.
pub open spec fn step(s: SubLoop, e: Event) -> (SubLoop, Option<u64>) {
    if s.state is Stopped {
        (s, None)
    } else {
        match e {
            Event::MessageArrived => (
                SubLoop {
                    state: LoopState::Running,
                    counter: RateCounter {
                        count: (s.counter.count + 1) as u64,
                        last_seen: s.counter.last_seen,
                    },
                },
                None,
            ),
            Event::ReportTick => (
                SubLoop {
                    state: LoopState::Running,
                    counter: RateCounter {
                        count: s.counter.count,
                        last_seen: s.counter.count,
                    },
                },
                Some((s.counter.count - s.counter.last_seen) as u64),
            ),
            Event::InputByte(b) => if b == QUIT_BYTE {
                (SubLoop { state: LoopState::Stopped, counter: s.counter }, None)
            } else {
                (s, None)
            },
        }
    }
}

/// The state after a whole sequence of events, first event first.
pub open spec fn run(s: SubLoop, es: Seq<Event>) -> SubLoop
    decreases es.len(),
{
    if es.len() == 0 {
        s
    } else {
        run(step(s, es[0]).0, es.drop_first())
    }
}

/// Everything a sequence of events makes the loop emit, in order: one entry
/// per event, `Some(delta)` where the event was an answered reporting tick.
pub open spec fn outputs(s: SubLoop, es: Seq<Event>) -> Seq<Option<u64>>
    decreases es.len(),
{
    if es.len() == 0 {
        Seq::empty()
    } else {
        seq![step(s, es[0]).1] + outputs(step(s, es[0]).0, es.drop_first())
    }
}

impl SubLoop {
    /// A loop that can still take one more arrival without the counter
    /// overflowing, and whose counter is well formed.
    pub open spec fn well_formed(self) -> bool {
        self.counter.well_formed()
    }

    /// A fresh loop, in the initial state.
    pub fn new() -> (l: SubLoop)
        ensures
            l == init(),
            l.well_formed(),
    {
        SubLoop { state: LoopState::Running, counter: RateCounter::new() }
    }

    /// Whether the loop still serves events.
    pub fn is_running(&self) -> (r: bool)
        ensures
            r == (self.state is Running),
    {
        match self.state {
            LoopState::Running => true,
            LoopState::Stopped => false,
        }
    }

    /// Handles one event, exactly as `step` says: the returned value is the
    /// emitted delta where the event was an answered reporting tick.
    pub fn handle_event(&mut self, e: Event) -> (out: Option<u64>)
        requires
            old(self).well_formed(),
            old(self).state is Running && e is MessageArrived ==> old(self).counter.count
                < u64::MAX,
        ensures
            *final(self) == step(*old(self), e).0,
            out == step(*old(self), e).1,
            final(self).well_formed(),
    {
        match self.state {
            LoopState::Stopped => None,
            LoopState::Running => match e {
                Event::MessageArrived => {
                    self.counter.record_arrival();
                    None
                },
                Event::ReportTick => {
                    let delta = self.counter.report_tick();
                    Some(delta)
                },
                Event::InputByte(b) => {
                    if b == QUIT_BYTE {
                        self.state = LoopState::Stopped;
                    }
                    None
                },
            },
        }
    }
}

} // verus!

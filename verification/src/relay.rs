//! The relay: copies one source into one destination unmodified until
//! end-of-stream or error, then closes the destination exactly once.
//!
//! The relay performs no I/O.  The surrounding loop reads one chunk at
//! a time and hands the result to [`Relay::on_event`]; the action
//! returned says what to do with the destination handle.  A failed
//! destination write is reported back as a [`ReadOutcome::Failed`]
//! event, which takes the same terminal path as a read error: both are
//! normal task completion, never escalated.

use vstd::prelude::*;

use crate::mux::ReadOutcome;

verus! {

/// What the engine loop must do with the destination handle after one
/// relay event: write the chunk's bytes, or close the handle.
pub enum RelayAction {
    Forward(Vec<u8>),
    CloseDest,
}

/// The relay's state: whether the copy task is still going, and how
/// many times it has ordered its destination handle closed.  The close
/// count is part of the state so that the close-exactly-once discipline
/// is a stated property, not a convention.
pub struct Relay {
    pub running: bool,
    pub closes: u8,
}

impl Relay {
    /// The destination handle has exactly one close ordered on the
    /// task's terminal path, and none before it.
    pub open spec fn inv(self) -> bool {
        self.closes == if self.running {
            0int
        } else {
            1int
        }
    }

    /// A fresh relay: running, destination still open.
    pub fn new() -> (r: Relay)
        ensures
            r.running,
            r.closes == 0,
            r.inv(),
    {
        Relay { running: true, closes: 0 }
    }

    /// Steps one read result.  A chunk is forwarded verbatim and the
    /// task keeps going; end-of-stream and errors both end the task,
    /// and the destination close is ordered on that transition and on
    /// no other, so it happens exactly once per run.
    pub fn on_event(&mut self, outcome: &ReadOutcome) -> (act: RelayAction)
        requires
            old(self).running,
            old(self).inv(),
        ensures
            final(self).inv(),
            match *outcome {
                ReadOutcome::Data(d) => {
                    &&& act matches RelayAction::Forward(f) && f@ == d@
                    &&& final(self).running
                    &&& final(self).closes == old(self).closes
                },
                _ => {
                    &&& act is CloseDest
                    &&& !final(self).running
                    &&& final(self).closes == old(self).closes + 1
                },
            },
    {
        match outcome {
            ReadOutcome::Data(d) => {
                let mut f: Vec<u8> = Vec::new();
                let mut j: usize = 0;
                while j < d.len()
                    invariant
                        j <= d.len(),
                        f@ == d@.take(j as int),
                    decreases d.len() - j,
                {
                    f.push(d[j]);
                    proof {
                        assert(d@.take(j as int).push(d@[j as int]) =~= d@.take(j as int + 1));
                    }
                    j = j + 1;
                }
                proof {
                    assert(d@.take(d@.len() as int) =~= d@);
                }
                RelayAction::Forward(f)
            },
            ReadOutcome::Eof => {
                self.running = false;
                self.closes = self.closes + 1;
                RelayAction::CloseDest
            },
            ReadOutcome::Failed => {
                self.running = false;
                self.closes = self.closes + 1;
                RelayAction::CloseDest
            },
        }
    }
}

/// The bytes a relay run forwards: the concatenation of the data
/// chunks up to (not including) the first terminal event.
pub open spec fn relay_data(t: Seq<ReadOutcome>) -> Seq<u8>
    decreases t.len(),
{
    if t.len() == 0 {
        Seq::empty()
    } else {
        match t[0] {
            ReadOutcome::Data(d) => d@ + relay_data(t.skip(1)),
            _ => Seq::empty(),
        }
    }
}

/// A whole relay run: every event before the last is a data chunk, and
/// the last is terminal (end-of-stream or error).
pub open spec fn relay_run(t: Seq<ReadOutcome>) -> bool {
    &&& t.len() > 0
    &&& !(t[t.len() - 1] is Data)
    &&& forall|i: int| 0 <= i < t.len() - 1 ==> t[i] is Data
}

/// Plays a whole relay run and returns the bytes forwarded to the
/// destination and the number of destination closes ordered.  Every
/// run copies its source verbatim and closes the destination exactly
/// once: never zero times, never more than once.
pub fn run_relay(events: &Vec<ReadOutcome>) -> (r: (Vec<u8>, u8))
    requires
        relay_run(events@),
    ensures
        r.0@ == relay_data(events@),
        r.1 == 1,
{
    let mut relay = Relay::new();
    let mut out: Vec<u8> = Vec::new();
    let ghost whole = events@;
    proof {
        assert(whole.skip(0) =~= whole);
    }
    for k in 0..events.len()
        invariant
            whole == events@,
            relay_run(whole),
            relay.inv(),
            relay.running <==> k < whole.len(),
            k < whole.len() ==> out@ + relay_data(whole.skip(k as int)) == relay_data(whole),
            k == whole.len() ==> out@ == relay_data(whole),
    {
        proof {
            assert(whole.skip(k as int)[0] == whole[k as int]);
            assert(whole.skip(k as int).skip(1) =~= whole.skip(k as int + 1));
        }
        let act = relay.on_event(&events[k]);
        match act {
            RelayAction::Forward(mut f) => {
                out.append(&mut f);
            },
            RelayAction::CloseDest => {},
        }
    }
    (out, relay.closes)
}

} // verus!

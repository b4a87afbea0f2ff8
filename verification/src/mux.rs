//! The tagging multiplexer: drains two sources into one destination,
//! writing a marker sequence exactly when the active source changes.
//!
//! The multiplexer itself performs no I/O.  The surrounding loop waits
//! for readiness, reads one chunk from the chosen source, and hands the
//! result to [`Muxer::step`] as a [`MuxEvent`]; the bytes returned are
//! what must be written to the destination next.  When the last step of
//! a run (both sources at end-of-stream, or a failed read) is taken,
//! the step's output already ends with the final default marker, so the
//! destination is never left in a highlighted state.  A run cut short
//! from outside (a failed write) is finished with [`Muxer::abort`],
//! which yields that same final marker.

use vstd::prelude::*;

use crate::marker::{default_marker, marker_for, Source};

verus! {

/// The result of one read attempt on a source, as the engine loop
/// observed it.  A successful read of `n > 0` bytes is `Data`; a read
/// returning zero bytes is `Eof`; a read error is `Failed`.
pub enum ReadOutcome {
    Data(Vec<u8>),
    Eof,
    Failed,
}

/// One readiness event: the source the scheduler chose, and what
/// reading it produced.
pub struct MuxEvent {
    pub source: Source,
    pub outcome: ReadOutcome,
}

/// A well-formed event carries at least one byte in its `Data` case: a
/// successful read of zero bytes is end-of-stream and must be handed
/// over as `Eof`.
pub open spec fn event_wf(e: MuxEvent) -> bool {
    e.outcome matches ReadOutcome::Data(d) ==> d@.len() > 0
}

/// The multiplexer's state: the active-source marker (the source of
/// the most recently copied chunk, or none before any chunk), which
/// sources are still in the readiness candidate set, and whether the
/// run is over and the final marker has been emitted.
pub struct Muxer {
    pub active: Option<Source>,
    pub a_open: bool,
    pub b_open: bool,
    pub done: bool,
}

impl Muxer {
    /// The state before any event: no active source, both sources in
    /// the candidate set.
    pub open spec fn init() -> Muxer {
        Muxer { active: None, a_open: true, b_open: true, done: false }
    }

    /// The run is not over yet: further events may be stepped.
    pub open spec fn running(self) -> bool {
        !self.done
    }

    /// Source `s` is still in the readiness candidate set: it has not
    /// reached end-of-stream, so the scheduler may still choose it.
    pub open spec fn source_open(self, s: Source) -> bool {
        match s {
            Source::A => self.a_open,
            Source::B => self.b_open,
        }
    }
}

/// The state after stepping one event from state `pre`.
pub open spec fn step_state(pre: Muxer, e: MuxEvent) -> Muxer {
    match e.outcome {
        ReadOutcome::Data(_) => Muxer { active: Some(e.source), ..pre },
        ReadOutcome::Eof => {
            let closed = match e.source {
                Source::A => Muxer { a_open: false, ..pre },
                Source::B => Muxer { b_open: false, ..pre },
            };
            Muxer { done: !closed.a_open && !closed.b_open, ..closed }
        },
        ReadOutcome::Failed => Muxer { done: true, ..pre },
    }
}

/// Whether stepping `e` from `pre` ends the run: the chosen source was
/// the last one still open and reached end-of-stream, or a read failed.
pub open spec fn step_finishes(pre: Muxer, e: MuxEvent) -> bool {
    match e.outcome {
        ReadOutcome::Data(_) => false,
        ReadOutcome::Eof => match e.source {
            Source::A => !pre.b_open,
            Source::B => !pre.a_open,
        },
        ReadOutcome::Failed => true,
    }
}

/// The bytes the destination receives for one event: the chunk's bytes,
/// preceded by the new source's marker exactly when the active source
/// changes, and followed by the final default marker exactly when the
/// event ends the run.
pub open spec fn step_out(pre: Muxer, e: MuxEvent) -> Seq<u8> {
    match e.outcome {
        ReadOutcome::Data(d) => {
            if pre.active == Some(e.source) {
                d@
            } else {
                marker_for(e.source) + d@
            }
        },
        ReadOutcome::Eof => {
            if step_finishes(pre, e) {
                default_marker()
            } else {
                Seq::empty()
            }
        },
        ReadOutcome::Failed => default_marker(),
    }
}

/// A trace is playable from state `m`: every event names a source still
/// in the candidate set, is well formed, and arrives while the run is
/// still going.
pub open spec fn valid_from(t: Seq<MuxEvent>, m: Muxer) -> bool
    decreases t.len(),
{
    t.len() == 0 || {
        &&& m.running()
        &&& m.source_open(t[0].source)
        &&& event_wf(t[0])
        &&& valid_from(t.skip(1), step_state(m, t[0]))
    }
}

/// A trace is playable from the initial state.
pub open spec fn valid_trace(t: Seq<MuxEvent>) -> bool {
    valid_from(t, Muxer::init())
}

/// The whole destination stream produced by playing `t` from state `m`.
/// If the trace ends without a run-ending event (the loop was cut short
/// by a failed write), the final default marker is still appended.
pub open spec fn output_from(t: Seq<MuxEvent>, m: Muxer) -> Seq<u8>
    decreases t.len(),
{
    if t.len() == 0 {
        if m.done {
            Seq::empty()
        } else {
            default_marker()
        }
    } else {
        step_out(m, t[0]) + output_from(t.skip(1), step_state(m, t[0]))
    }
}

/// The whole destination stream produced by playing `t` from the
/// initial state.
pub open spec fn mux_output(t: Seq<MuxEvent>) -> Seq<u8> {
    output_from(t, Muxer::init())
}

impl Muxer {
    /// A fresh multiplexer, ready for the first event.
    pub fn new() -> (m: Muxer)
        ensures
            m == Muxer::init(),
    {
        Muxer { active: None, a_open: true, b_open: true, done: false }
    }

    /// Whether the run is still going.
    pub fn is_running(&self) -> (r: bool)
        ensures
            r == self.running(),
    {
        !self.done
    }

    /// Whether source `s` is still in the readiness candidate set.
    pub fn is_open(&self, s: Source) -> (r: bool)
        ensures
            r == self.source_open(s),
    {
        match s {
            Source::A => self.a_open,
            Source::B => self.b_open,
        }
    }

    /// Steps one readiness event and returns the bytes to write to the
    /// destination: the marker for the event's source exactly when the
    /// active source changes, then the chunk's bytes; and the final
    /// default marker exactly when this event ends the run.
    pub fn step(&mut self, event: &MuxEvent) -> (out: Vec<u8>)
        requires
            old(self).running(),
            old(self).source_open(event.source),
            event_wf(*event),
        ensures
            *final(self) == step_state(*old(self), *event),
            out@ == step_out(*old(self), *event),
    {
        let mut out: Vec<u8> = Vec::new();
        match &event.outcome {
            ReadOutcome::Data(d) => {
                let same = match (self.active, event.source) {
                    (Some(Source::A), Source::A) => true,
                    (Some(Source::B), Source::B) => true,
                    _ => false,
                };
                if !same {
                    let mut mk = crate::marker::marker_bytes(event.source);
                    out.append(&mut mk);
                    self.active = Some(event.source);
                }
                let ghost pre_data = out@;
                let mut j: usize = 0;
                while j < d.len()
                    invariant
                        j <= d.len(),
                        out@ == pre_data + d@.take(j as int),
                    decreases d.len() - j,
                {
                    out.push(d[j]);
                    proof {
                        assert(d@.take(j as int).push(d@[j as int]) =~= d@.take(j as int + 1));
                    }
                    j = j + 1;
                }
                proof {
                    assert(d@.take(d@.len() as int) =~= d@);
                }
            },
            ReadOutcome::Eof => {
                match event.source {
                    Source::A => {
                        self.a_open = false;
                    },
                    Source::B => {
                        self.b_open = false;
                    },
                }
                if !self.a_open && !self.b_open {
                    self.done = true;
                    let mut mk = crate::marker::default_marker_bytes();
                    out.append(&mut mk);
                }
            },
            ReadOutcome::Failed => {
                self.done = true;
                let mut mk = crate::marker::default_marker_bytes();
                out.append(&mut mk);
            },
        }
        out
    }

    /// Ends a run cut short from outside (a failed destination write):
    /// the run is marked over and the final default marker is returned,
    /// so the destination is not left in a highlighted state.
    pub fn abort(&mut self) -> (out: Vec<u8>)
        requires
            old(self).running(),
        ensures
            *final(self) == (Muxer { done: true, ..*old(self) }),
            out@ == default_marker(),
    {
        self.done = true;
        crate::marker::default_marker_bytes()
    }
}

/// Plays a whole trace of readiness events through a fresh multiplexer
/// and returns the destination stream it produces.  The trace may end
/// without a run-ending event; the final default marker is appended
/// either way.
pub fn run_mux(events: &Vec<MuxEvent>) -> (out: Vec<u8>)
    requires
        valid_trace(events@),
    ensures
        out@ == mux_output(events@),
{
    let mut m = Muxer::new();
    let mut out: Vec<u8> = Vec::new();
    proof {
        assert(events@.skip(0) =~= events@);
    }
    for i in 0..events.len()
        invariant
            valid_from(events@.skip(i as int), m),
            out@ + output_from(events@.skip(i as int), m) == mux_output(events@),
    {
        proof {
            assert(events@.skip(i as int)[0] == events@[i as int]);
        }
        let e = &events[i];
        let mut piece = m.step(e);
        out.append(&mut piece);
        proof {
            assert(events@.skip(i as int).skip(1) =~= events@.skip(i as int + 1));
        }
    }
    proof {
        assert(events@.skip(events@.len() as int) =~= Seq::<MuxEvent>::empty());
    }
    if m.is_running() {
        let mut fin = m.abort();
        out.append(&mut fin);
    }
    proof {
        assert(out@ =~= mux_output(events@));
    }
    out
}

} // verus!

//! The readiness scheduler's choice rule: which ready source the
//! tagging multiplexer drains next.
//!
//! The engine loop learns from the OS which sources currently have
//! data and asks this rule which one to read.  A lone ready source is
//! always chosen; when both are ready at once the grant alternates
//! away from the source granted last, so neither source can be starved
//! while the other continually has data.

use vstd::prelude::*;

use crate::marker::Source;

verus! {

/// The source a tie is resolved towards, given which source was
/// granted last: the other one, or source `A` before any grant.
pub open spec fn tie_preference(last: Option<Source>) -> Source {
    match last {
        None => Source::A,
        Some(s) => s.spec_other(),
    }
}

/// The choice the scheduler makes: some ready source whenever one is
/// ready at all, and on a tie the source the preference rule names.
pub open spec fn spec_pick(a_ready: bool, b_ready: bool, last: Option<Source>) -> Option<
    Source,
> {
    if a_ready && b_ready {
        Some(tie_preference(last))
    } else if a_ready {
        Some(Source::A)
    } else if b_ready {
        Some(Source::B)
    } else {
        None
    }
}

/// Chooses which ready source to read next.  `a_ready` and `b_ready`
/// say which sources currently have data (a source already at
/// end-of-stream must be passed as not ready); `last` is the source
/// granted most recently, if any.
pub fn pick_source(a_ready: bool, b_ready: bool, last: Option<Source>) -> (r: Option<Source>)
    ensures
        r == spec_pick(a_ready, b_ready, last),
        r is Some <==> (a_ready || b_ready),
        r == Some(Source::A) ==> a_ready,
        r == Some(Source::B) ==> b_ready,
{
    if a_ready && b_ready {
        match last {
            None => Some(Source::A),
            Some(s) => Some(s.other()),
        }
    } else if a_ready {
        Some(Source::A)
    } else if b_ready {
        Some(Source::B)
    } else {
        None
    }
}

/// A source that stays ready is granted within one scheduling pass of
/// any other grant: after a grant to `s`, the next tie goes to the
/// other source, so no source is starved indefinitely while the other
/// continually has data.
pub proof fn lemma_tie_never_repeats(s: Source)
    ensures
        tie_preference(Some(s)) != s,
        spec_pick(true, true, Some(s)) != Some(s),
{
}

} // verus!

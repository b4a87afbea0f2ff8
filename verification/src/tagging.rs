//! The shape of the tagged destination stream.
//!
//! The multiplexer's output is modelled as a sequence of items — a
//! marker announcing a source, or a chunk of bytes copied from one —
//! and these items are what "split on marker boundaries" means for the
//! byte stream.  The laws proved here say, for every playable trace of
//! readiness events: the destination stream is exactly the flattened
//! item sequence followed by one final default marker; picking out one
//! source's chunks reconstructs that source's bytes in arrival order
//! with nothing lost, duplicated or reordered; and a marker stands in
//! the stream only where the active source changes, immediately before
//! a chunk of the source it announces.

use vstd::prelude::*;

use crate::marker::{default_marker, marker_for, Source};
use crate::mux::{
    mux_output, output_from, step_finishes, step_out, step_state, valid_from, valid_trace,
    MuxEvent, Muxer, ReadOutcome,
};

verus! {

/// One element of the destination stream, at marker granularity: a
/// marker sequence announcing that `Source` is now active, or a chunk
/// of bytes copied verbatim from that source.
pub enum TagItem {
    Mark(Source),
    Chunk(Source, Seq<u8>),
}

/// The bytes one item contributes to the destination stream.
pub open spec fn item_bytes(i: TagItem) -> Seq<u8> {
    match i {
        TagItem::Mark(s) => marker_for(s),
        TagItem::Chunk(_, d) => d,
    }
}

/// The byte stream an item sequence flattens to.
pub open spec fn flatten_items(items: Seq<TagItem>) -> Seq<u8>
    decreases items.len(),
{
    if items.len() == 0 {
        Seq::empty()
    } else {
        item_bytes(items[0]) + flatten_items(items.skip(1))
    }
}

/// The items one event contributes: its chunk, preceded by a marker
/// exactly when the event's source differs from the active source.
/// End-of-stream and read errors contribute no items; the final
/// default marker is accounted separately, by [`lemma_stream_shape`].
pub open spec fn step_items(pre: Muxer, e: MuxEvent) -> Seq<TagItem> {
    match e.outcome {
        ReadOutcome::Data(d) => {
            if pre.active == Some(e.source) {
                seq![TagItem::Chunk(e.source, d@)]
            } else {
                seq![TagItem::Mark(e.source), TagItem::Chunk(e.source, d@)]
            }
        },
        _ => Seq::empty(),
    }
}

/// The items a trace contributes when played from state `m`.
pub open spec fn items_from(t: Seq<MuxEvent>, m: Muxer) -> Seq<TagItem>
    decreases t.len(),
{
    if t.len() == 0 {
        Seq::empty()
    } else {
        step_items(m, t[0]) + items_from(t.skip(1), step_state(m, t[0]))
    }
}

/// The item sequence of a whole run: the destination stream at marker
/// granularity, without the final default marker.
pub open spec fn tag_items(t: Seq<MuxEvent>) -> Seq<TagItem> {
    items_from(t, Muxer::init())
}

/// The bytes that the items attributed to source `s` hold, in order.
pub open spec fn chunks_of(items: Seq<TagItem>, s: Source) -> Seq<u8>
    decreases items.len(),
{
    if items.len() == 0 {
        Seq::empty()
    } else {
        (match items[0] {
            TagItem::Chunk(s2, d) => if s2 == s {
                d
            } else {
                Seq::empty()
            },
            TagItem::Mark(_) => Seq::empty(),
        }) + chunks_of(items.skip(1), s)
    }
}

/// The bytes source `s` delivered over a trace, in arrival order.
pub open spec fn source_data(t: Seq<MuxEvent>, s: Source) -> Seq<u8>
    decreases t.len(),
{
    if t.len() == 0 {
        Seq::empty()
    } else {
        (if t[0].source == s {
            match t[0].outcome {
                ReadOutcome::Data(d) => d@,
                _ => Seq::empty(),
            }
        } else {
            Seq::empty()
        }) + source_data(t.skip(1), s)
    }
}

/// An item sequence is well tagged after `last` was announced: every
/// chunk stands under the most recently announced source, chunks are
/// never empty, and a marker appears only where the announced source
/// actually changes, immediately before a chunk of the source it
/// names.  In particular, two chunks of one source never have a marker
/// between them.
pub open spec fn well_tagged(items: Seq<TagItem>, last: Option<Source>) -> bool
    decreases items.len(),
{
    if items.len() == 0 {
        true
    } else {
        match items[0] {
            TagItem::Chunk(s, d) => {
                &&& last == Some(s)
                &&& d.len() > 0
                &&& well_tagged(items.skip(1), last)
            },
            TagItem::Mark(s) => {
                &&& last != Some(s)
                &&& items.len() >= 2
                &&& items[1] is Chunk
                &&& well_tagged(items.skip(1), Some(s))
            },
        }
    }
}

proof fn lemma_flatten_app(a: Seq<TagItem>, b: Seq<TagItem>)
    ensures
        flatten_items(a + b) == flatten_items(a) + flatten_items(b),
    decreases a.len(),
{
    if a.len() == 0 {
        assert(a + b =~= b);
        assert(flatten_items(a) + flatten_items(b) =~= flatten_items(b));
    } else {
        lemma_flatten_app(a.skip(1), b);
        assert((a + b).skip(1) =~= a.skip(1) + b);
        assert((a + b)[0] == a[0]);
        assert(item_bytes(a[0]) + (flatten_items(a.skip(1)) + flatten_items(b)) =~= (item_bytes(
            a[0],
        ) + flatten_items(a.skip(1))) + flatten_items(b));
    }
}

proof fn lemma_chunks_app(a: Seq<TagItem>, b: Seq<TagItem>, s: Source)
    ensures
        chunks_of(a + b, s) == chunks_of(a, s) + chunks_of(b, s),
    decreases a.len(),
{
    if a.len() == 0 {
        assert(a + b =~= b);
        assert(chunks_of(a, s) + chunks_of(b, s) =~= chunks_of(b, s));
    } else {
        lemma_chunks_app(a.skip(1), b, s);
        assert((a + b).skip(1) =~= a.skip(1) + b);
        assert((a + b)[0] == a[0]);
        let head = match a[0] {
            TagItem::Chunk(s2, d) => if s2 == s {
                d
            } else {
                Seq::empty()
            },
            TagItem::Mark(_) => Seq::<u8>::empty(),
        };
        assert(head + (chunks_of(a.skip(1), s) + chunks_of(b, s)) =~= (head + chunks_of(
            a.skip(1),
            s,
        )) + chunks_of(b, s));
    }
}

/// The chunk bytes one event's items attribute to source `s`.
proof fn lemma_step_chunks(pre: Muxer, e: MuxEvent, s: Source)
    ensures
        chunks_of(step_items(pre, e), s) == (if e.source == s {
            match e.outcome {
                ReadOutcome::Data(d) => d@,
                _ => Seq::<u8>::empty(),
            }
        } else {
            Seq::<u8>::empty()
        }),
{
    let items = step_items(pre, e);
    assert(chunks_of(Seq::<TagItem>::empty(), s) == Seq::<u8>::empty());
    match e.outcome {
        ReadOutcome::Data(d) => {
            if pre.active == Some(e.source) {
                assert(items.skip(1) =~= Seq::<TagItem>::empty());
                assert(chunks_of(items, s) =~= (if e.source == s {
                    d@
                } else {
                    Seq::<u8>::empty()
                }));
            } else {
                let tail = seq![TagItem::Chunk(e.source, d@)];
                assert(items.skip(1) =~= tail);
                assert(tail.skip(1) =~= Seq::<TagItem>::empty());
                assert(chunks_of(tail, s) =~= (if e.source == s {
                    d@
                } else {
                    Seq::<u8>::empty()
                }));
                assert(chunks_of(items, s) =~= (if e.source == s {
                    d@
                } else {
                    Seq::<u8>::empty()
                }));
            }
        },
        _ => {
            assert(chunks_of(items, s) =~= Seq::<u8>::empty());
        },
    }
}

proof fn lemma_chunks_from(t: Seq<MuxEvent>, m: Muxer, s: Source)
    ensures
        chunks_of(items_from(t, m), s) == source_data(t, s),
    decreases t.len(),
{
    if t.len() == 0 {
    } else {
        let e = t[0];
        let m2 = step_state(m, e);
        lemma_chunks_from(t.skip(1), m2, s);
        lemma_chunks_app(step_items(m, e), items_from(t.skip(1), m2), s);
        lemma_step_chunks(m, e, s);
    }
}

/// For every trace of readiness events and either source, the chunks
/// the destination stream attributes to that source — what splitting
/// the stream on marker boundaries yields — are exactly that source's
/// bytes in arrival order: no byte lost, duplicated, or reordered
/// within one source.
pub proof fn lemma_per_source_reconstruction(t: Seq<MuxEvent>, s: Source)
    ensures
        chunks_of(tag_items(t), s) == source_data(t, s),
{
    lemma_chunks_from(t, Muxer::init(), s);
}

proof fn lemma_wt_chunk(s: Source, d: Seq<u8>, b: Seq<TagItem>, last: Option<Source>)
    ensures
        well_tagged(seq![TagItem::Chunk(s, d)] + b, last) <==> (last == Some(s) && d.len() > 0
            && well_tagged(b, last)),
{
    let a = seq![TagItem::Chunk(s, d)] + b;
    assert(a[0] == TagItem::Chunk(s, d));
    assert(a.skip(1) =~= b);
}

proof fn lemma_wt_mark_chunk(s: Source, d: Seq<u8>, b: Seq<TagItem>, last: Option<Source>)
    ensures
        well_tagged(seq![TagItem::Mark(s), TagItem::Chunk(s, d)] + b, last) <==> (last != Some(s)
            && d.len() > 0 && well_tagged(b, Some(s))),
{
    let a = seq![TagItem::Mark(s), TagItem::Chunk(s, d)] + b;
    assert(a[0] == TagItem::Mark(s));
    assert(a[1] == TagItem::Chunk(s, d));
    assert(a.skip(1) =~= seq![TagItem::Chunk(s, d)] + b);
    lemma_wt_chunk(s, d, b, Some(s));
}

proof fn lemma_wt_from(t: Seq<MuxEvent>, m: Muxer)
    requires
        valid_from(t, m),
    ensures
        well_tagged(items_from(t, m), m.active),
    decreases t.len(),
{
    if t.len() == 0 {
    } else {
        let e = t[0];
        let m2 = step_state(m, e);
        lemma_wt_from(t.skip(1), m2);
        let rest = items_from(t.skip(1), m2);
        match e.outcome {
            ReadOutcome::Data(d) => {
                if m.active == Some(e.source) {
                    lemma_wt_chunk(e.source, d@, rest, m.active);
                } else {
                    lemma_wt_mark_chunk(e.source, d@, rest, m.active);
                }
            },
            _ => {
                assert(step_items(m, e) + rest =~= rest);
            },
        }
    }
}

/// For every playable trace, the item sequence of the destination
/// stream is well tagged from the initial no-source state: a marker is
/// written exactly where the active source changes, always immediately
/// before a chunk of the source it announces, and never between two
/// chunks of one source.
pub proof fn lemma_markers_only_on_change(t: Seq<MuxEvent>)
    requires
        valid_trace(t),
    ensures
        well_tagged(tag_items(t), None),
{
    lemma_wt_from(t, Muxer::init());
}

proof fn lemma_step_out_items(pre: Muxer, e: MuxEvent)
    requires
        !step_finishes(pre, e),
    ensures
        step_out(pre, e) == flatten_items(step_items(pre, e)),
{
    let items = step_items(pre, e);
    assert(flatten_items(Seq::<TagItem>::empty()) == Seq::<u8>::empty());
    match e.outcome {
        ReadOutcome::Data(d) => {
            if pre.active == Some(e.source) {
                assert(items.skip(1) =~= Seq::<TagItem>::empty());
                assert(flatten_items(items) =~= d@);
            } else {
                let tail = seq![TagItem::Chunk(e.source, d@)];
                assert(items.skip(1) =~= tail);
                assert(tail.skip(1) =~= Seq::<TagItem>::empty());
                assert(flatten_items(tail) =~= d@);
                assert(flatten_items(items) =~= marker_for(e.source) + d@);
            }
        },
        _ => {
            assert(flatten_items(items) =~= Seq::<u8>::empty());
            assert(step_out(pre, e) =~= Seq::<u8>::empty());
        },
    }
}

proof fn lemma_output_items_from(t: Seq<MuxEvent>, m: Muxer)
    requires
        valid_from(t, m),
        m.running(),
    ensures
        output_from(t, m) == flatten_items(items_from(t, m)) + default_marker(),
    decreases t.len(),
{
    if t.len() == 0 {
        assert(flatten_items(Seq::<TagItem>::empty()) + default_marker() =~= default_marker());
    } else {
        let e = t[0];
        let m2 = step_state(m, e);
        let step = step_items(m, e);
        let rest = items_from(t.skip(1), m2);
        lemma_flatten_app(step, rest);
        if step_finishes(m, e) {
            // A run-ending event: the trace can hold nothing after it,
            // and the step's own output already ends with the final
            // default marker.
            reveal_with_fuel(valid_from, 2);
            reveal_with_fuel(items_from, 2);
            reveal_with_fuel(output_from, 2);
            assert(m2.done);
            assert(t.skip(1).len() == 0);
            assert(step =~= Seq::<TagItem>::empty());
            assert(rest =~= Seq::<TagItem>::empty());
            assert(step + rest =~= Seq::<TagItem>::empty());
            assert(step_out(m, e) == default_marker());
            assert(output_from(t.skip(1), m2) =~= Seq::<u8>::empty());
            assert(output_from(t, m) =~= default_marker());
            assert(flatten_items(Seq::<TagItem>::empty()) + default_marker() =~= default_marker());
        } else {
            assert(!m2.done);
            lemma_output_items_from(t.skip(1), m2);
            lemma_step_out_items(m, e);
            assert(step_out(m, e) + (flatten_items(rest) + default_marker()) =~= (flatten_items(
                step,
            ) + flatten_items(rest)) + default_marker());
        }
    }
}

/// For every playable trace — whether it ends with both sources at
/// end-of-stream, with a failed read, or cut short by a failed write —
/// the destination stream is the flattened item sequence followed by
/// exactly one final default marker, so the stream always ends in the
/// default visual state.
pub proof fn lemma_stream_shape(t: Seq<MuxEvent>)
    requires
        valid_trace(t),
    ensures
        mux_output(t) == flatten_items(tag_items(t)) + default_marker(),
{
    lemma_output_items_from(t, Muxer::init());
}

} // verus!

use colorout::lifecycle::Lifecycle;
use colorout::marker::{default_marker_bytes, marker_bytes, Source};
use colorout::mux::{run_mux, MuxEvent, Muxer, ReadOutcome};
use colorout::relay::{run_relay, Relay, RelayAction};
use colorout::sched::pick_source;

const RESET: &[u8] = b"\x1b[0m";
const HIGHLIGHT: &[u8] = b"\x1b[31m";

fn data(source: Source, bytes: &[u8]) -> MuxEvent {
    MuxEvent { source, outcome: ReadOutcome::Data(bytes.to_vec()) }
}

fn eof(source: Source) -> MuxEvent {
    MuxEvent { source, outcome: ReadOutcome::Eof }
}

fn failed(source: Source) -> MuxEvent {
    MuxEvent { source, outcome: ReadOutcome::Failed }
}

fn bytes(parts: &[&[u8]]) -> Vec<u8> {
    let mut v = Vec::new();
    for p in parts {
        v.extend_from_slice(p);
    }
    v
}

#[test]
fn marker_bytes_are_ansi_sgr_codes() {
    assert_eq!(default_marker_bytes(), RESET.to_vec());
    assert_eq!(marker_bytes(Source::A), RESET.to_vec());
    assert_eq!(marker_bytes(Source::B), HIGHLIGHT.to_vec());
}

#[test]
fn single_source_never_shows_highlight() {
    // Source A delivers "abc" then EOF; source B never delivers data.
    let events = vec![data(Source::A, b"abc"), eof(Source::A), eof(Source::B)];
    let out = run_mux(&events);
    assert_eq!(out, bytes(&[RESET, b"abc", RESET]));
}

#[test]
fn alternating_sources_are_each_tagged() {
    // A delivers "a", then B delivers "b", then A delivers "c".
    let events = vec![
        data(Source::A, b"a"),
        data(Source::B, b"b"),
        data(Source::A, b"c"),
        eof(Source::A),
        eof(Source::B),
    ];
    let out = run_mux(&events);
    assert_eq!(out, bytes(&[RESET, b"a", HIGHLIGHT, b"b", RESET, b"c", RESET]));
}

#[test]
fn burst_from_one_source_gets_one_marker() {
    // Consecutive chunks from the same source appear under one marker.
    let events = vec![
        data(Source::B, b"first"),
        data(Source::B, b"second"),
        eof(Source::B),
        eof(Source::A),
    ];
    let out = run_mux(&events);
    assert_eq!(out, bytes(&[HIGHLIGHT, b"first", b"second", RESET]));
}

#[test]
fn read_error_still_ends_with_default_marker() {
    let events = vec![data(Source::B, b"oops"), failed(Source::A)];
    let out = run_mux(&events);
    assert_eq!(out, bytes(&[HIGHLIGHT, b"oops", RESET]));
}

#[test]
fn truncated_run_still_ends_with_default_marker() {
    // A run cut short (a failed destination write) is finished with
    // the final default marker all the same.
    let events = vec![data(Source::B, b"x")];
    let out = run_mux(&events);
    assert_eq!(out, bytes(&[HIGHLIGHT, b"x", RESET]));
}

#[test]
fn no_data_yields_one_default_marker() {
    let events = vec![eof(Source::A), eof(Source::B)];
    let out = run_mux(&events);
    assert_eq!(out, RESET.to_vec());
}

#[test]
fn empty_trace_yields_one_default_marker() {
    let events: Vec<MuxEvent> = Vec::new();
    let out = run_mux(&events);
    assert_eq!(out, RESET.to_vec());
}

#[test]
fn eof_removes_source_from_candidate_set() {
    let mut m = Muxer::new();
    assert!(m.is_running());
    assert!(m.is_open(Source::A));
    assert!(m.is_open(Source::B));

    let out = m.step(&data(Source::A, b"hi"));
    assert_eq!(out, bytes(&[RESET, b"hi"]));

    let out = m.step(&eof(Source::A));
    assert_eq!(out, Vec::<u8>::new());
    assert!(!m.is_open(Source::A));
    assert!(m.is_open(Source::B));
    assert!(m.is_running());

    // The last source reaching EOF ends the run; the final default
    // marker comes with that step.
    let out = m.step(&eof(Source::B));
    assert_eq!(out, RESET.to_vec());
    assert!(!m.is_running());
}

#[test]
fn marker_changes_only_on_source_switch() {
    let mut m = Muxer::new();
    let mut out = Vec::new();
    out.extend(m.step(&data(Source::A, b"one")));
    out.extend(m.step(&data(Source::A, b"two")));
    out.extend(m.step(&data(Source::B, b"three")));
    out.extend(m.step(&data(Source::B, b"four")));
    out.extend(m.step(&data(Source::A, b"five")));
    out.extend(m.abort());
    assert_eq!(
        out,
        bytes(&[RESET, b"one", b"two", HIGHLIGHT, b"three", b"four", RESET, b"five", RESET])
    );
}

#[test]
fn relay_copies_verbatim_and_closes_once() {
    let events = vec![
        ReadOutcome::Data(b"hello".to_vec()),
        ReadOutcome::Data(b" world".to_vec()),
        ReadOutcome::Eof,
    ];
    let (out, closes) = run_relay(&events);
    assert_eq!(out, b"hello world".to_vec());
    assert_eq!(closes, 1);
}

#[test]
fn relay_error_closes_exactly_once() {
    let events = vec![ReadOutcome::Failed];
    let (out, closes) = run_relay(&events);
    assert_eq!(out, Vec::<u8>::new());
    assert_eq!(closes, 1);
}

#[test]
fn relay_actions_forward_then_close() {
    let mut r = Relay::new();
    match r.on_event(&ReadOutcome::Data(b"abc".to_vec())) {
        RelayAction::Forward(f) => assert_eq!(f, b"abc".to_vec()),
        RelayAction::CloseDest => panic!("a chunk must be forwarded, not a close"),
    }
    assert!(r.running);
    assert_eq!(r.closes, 0);
    match r.on_event(&ReadOutcome::Eof) {
        RelayAction::CloseDest => {}
        RelayAction::Forward(_) => panic!("end-of-stream must close the destination"),
    }
    assert!(!r.running);
    assert_eq!(r.closes, 1);
}

#[test]
fn engine_shuts_down_exactly_after_second_completion() {
    let mut c = Lifecycle::new(2);
    assert!(!c.is_shutdown());
    let stop = c.task_done();
    assert!(!stop);
    assert!(!c.is_shutdown());
    let stop = c.task_done();
    assert!(stop);
    assert!(c.is_shutdown());
}

#[test]
fn scheduler_picks_any_lone_ready_source() {
    assert_eq!(pick_source(true, false, None), Some(Source::A));
    assert_eq!(pick_source(false, true, None), Some(Source::B));
    assert_eq!(pick_source(true, false, Some(Source::A)), Some(Source::A));
    assert_eq!(pick_source(false, true, Some(Source::B)), Some(Source::B));
    assert_eq!(pick_source(false, false, Some(Source::A)), None);
    assert_eq!(pick_source(false, false, None), None);
}

#[test]
fn scheduler_tie_break_alternates() {
    assert_eq!(pick_source(true, true, None), Some(Source::A));
    assert_eq!(pick_source(true, true, Some(Source::A)), Some(Source::B));
    assert_eq!(pick_source(true, true, Some(Source::B)), Some(Source::A));
}

#[test]
fn fast_source_does_not_starve_slow_one() {
    // Source A is continually ready; B becomes ready while A still has
    // data. Within one scheduling pass of B becoming ready, B is
    // granted: the tie never goes to the source granted last.
    let mut last = None;
    // A alone is ready for a while.
    for _ in 0..3 {
        let pick = pick_source(true, false, last).unwrap();
        assert_eq!(pick, Source::A);
        last = Some(pick);
    }
    // Now the slow source B is ready too, while A stays ready.
    let pick = pick_source(true, true, last).unwrap();
    assert_eq!(pick, Source::B);
    last = Some(pick);
    // And A is not starved either: the next tie goes back to A.
    let pick = pick_source(true, true, last).unwrap();
    assert_eq!(pick, Source::A);
}

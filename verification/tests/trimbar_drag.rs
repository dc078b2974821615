//! Handle drags replayed as real gestures: a stream of pointer positions,
//! measured in pixels the way the renderer measures them, resolved by the
//! library's stop, and committed after every event the way the shell
//! commits them.
use offcut_ui::rice::Rgba8;
use offcut_ui::theme::Palette;
use offcut_ui::time::Time;
use offcut_ui::trimbar::{DragLatch, Grabbed, Motion, TrimBarData};

const W: f32 = 1000.0;
const EDGE_INSET: f32 = 16.0;
const DETENT_SLOP: f32 = 14.0;
const DETENT_ESCAPE: f32 = 26.0;

fn secs(s: f64) -> Time {
    Time::from_nanos((s * 1e9) as u64)
}

fn grey() -> Palette<Rgba8> {
    let g = Rgba8 { r: 0x15, g: 0x15, b: 0x15, a: 0xFF };
    Palette {
        canvas: g, surface: g, surface_raised: g, surface_sunken: g, surface_sunken_alt: g,
        letterbox: g, border: g, border_raised: g, accent: g, on_accent: g, control_knob: g,
        control_track_off: g, success: g, danger: g, origin_mark: g, accent_tint_bg: g,
        accent_tint_text: g, trim_track: g, trim_range_fill: g, trim_range_edge: g,
        trim_range_excluded: g, playhead: g, mute: g, trim_out: g, trim_out_hover: g,
        stage_badge_text: g, stage_badge_text_dim: g, stage_shadow: g, text_primary: g,
        text_secondary: g, text_secondary_alt: g, text_muted: g, text_muted_alt: g,
        surface_hover: g, accent_hover: g, waveform: g, mute_border: g,
    }
}

fn parked(source: f64, in_s: f64, out_s: f64, head_s: f64) -> TrimBarData<Rgba8> {
    TrimBarData {
        palette: grey(),
        source_duration: secs(source),
        in_point: secs(in_s),
        out_point: secs(out_s),
        playhead: secs(head_s),
    }
}

fn as_secs(t: Time) -> f64 {
    t.as_nanos() as f64 / 1e9
}

/// The bar's affine mapping from source time to a pixel.
fn x_of(d: &TrimBarData<Rgba8>, time: Time) -> f32 {
    let usable = (W - 2.0 * EDGE_INSET).max(1.0);
    let total = as_secs(d.source_duration);
    if total <= 0.0 {
        return EDGE_INSET;
    }
    let fraction = (as_secs(time) / total).clamp(0.0, 1.0) as f32;
    EDGE_INSET + fraction * usable
}

/// Its inverse, clamped into the source.
fn time_at(d: &TrimBarData<Rgba8>, x: f32) -> Time {
    let usable = (W - 2.0 * EDGE_INSET).max(1.0);
    let fraction = ((x - EDGE_INSET) / usable).clamp(0.0, 1.0) as f64;
    Time::from_nanos((fraction * d.source_duration.as_nanos() as f64) as u64)
}

/// One drag's memory: the pixel half kept by the renderer, and the stop's.
#[derive(Default)]
struct Drag {
    last_x: Option<f32>,
    caught_at: Option<f32>,
    latch: DragLatch,
}

#[derive(Debug, Clone, Copy)]
struct Resolved {
    edge: Time,
    push_playhead: Option<Time>,
    contact: f32,
}

/// Measure the event in pixels, let the library resolve it, and derive
/// the bump's pressure.
fn resolve(d: &TrimBarData<Rgba8>, edge: Grabbed, proposed: Time, x: f32, drag: &mut Drag) -> Resolved {
    let head_x = x_of(d, d.playhead);
    let past = |px: f32| if edge == Grabbed::Out { head_x - px } else { px - head_x };
    let overshoot = past(x);
    let previous = drag.last_x.map(past);
    drag.last_x = Some(x);
    let travelled = overshoot - drag.caught_at.unwrap_or(0.0);
    let motion = Motion {
        crossed: previous.is_some_and(|p| p < 0.0) && overshoot >= 0.0,
        escaped: travelled > DETENT_ESCAPE,
    };
    let was_caught = drag.latch.caught;
    let r = if edge == Grabbed::Out {
        d.resolve_out_drag(proposed, motion, &mut drag.latch)
    } else {
        d.resolve_in_drag(proposed, motion, &mut drag.latch)
    };
    if drag.latch.caught && !was_caught {
        drag.caught_at = Some(overshoot);
    }
    if !drag.latch.caught {
        drag.caught_at = None;
    }
    let contact = if r.detented {
        ((overshoot - drag.caught_at.unwrap_or(0.0)) / DETENT_ESCAPE).clamp(0.0, 1.0)
    } else {
        0.0
    };
    Resolved { edge: r.edge, push_playhead: r.push_playhead, contact }
}

fn resolve_in(d: &TrimBarData<Rgba8>, x: f32, drag: &mut Drag) -> Resolved {
    resolve(d, Grabbed::In, time_at(d, x), x, drag)
}

/// Replay an in-point drag the way the app runs it: each resolved edge is
/// committed before the next event.
fn drag_in_live(start: &TrimBarData<Rgba8>, xs: &[f32]) -> Vec<Resolved> {
    let mut d = parked(0.0, 0.0, 0.0, 0.0);
    d.source_duration = start.source_duration;
    d.in_point = start.in_point;
    d.out_point = start.out_point;
    d.playhead = start.playhead;
    let mut drag = Drag::default();
    let mut out = Vec::new();
    for &x in xs {
        let r = resolve_in(&d, x, &mut drag);
        d.in_point = r.edge;
        if let Some(p) = r.push_playhead {
            d.playhead = p;
        }
        out.push(r);
    }
    out
}

fn drag_in(d: &TrimBarData<Rgba8>, xs: &[f32]) -> Resolved {
    *drag_in_live(d, xs).last().expect("a drag needs at least one position")
}

fn drag_out(start: &TrimBarData<Rgba8>, xs: &[f32]) -> Resolved {
    let mut d = parked(0.0, 0.0, 0.0, 0.0);
    d.source_duration = start.source_duration;
    d.in_point = start.in_point;
    d.out_point = start.out_point;
    d.playhead = start.playhead;
    let mut drag = Drag::default();
    let mut last = None;
    for &x in xs {
        let r = resolve(&d, Grabbed::Out, time_at(&d, x), x, &mut drag);
        d.out_point = r.edge;
        if let Some(p) = r.push_playhead {
            d.playhead = p;
        }
        last = Some(r);
    }
    last.expect("a drag needs at least one position")
}

fn breakthrough_in(head_x: f32) -> Vec<f32> {
    let mut xs = vec![head_x - 18.0];
    for i in 0..12 {
        xs.push(head_x + 4.0 + i as f32 * 12.0);
    }
    xs
}

fn breakthrough_out(head_x: f32) -> Vec<f32> {
    let mut xs = vec![head_x + 18.0];
    for i in 0..12 {
        xs.push(head_x - 4.0 - i as f32 * 12.0);
    }
    xs
}

#[test]
fn the_stop_still_holds_once_the_edge_is_committed_each_event() {
    let d = parked(100.0, 0.0, 100.0, 40.0);
    let head_x = x_of(&d, secs(40.0));
    let xs = [head_x - 20.0, head_x + 2.0, head_x + 5.0, head_x + 8.0, head_x + 11.0];
    let results = drag_in_live(&d, &xs);
    for (i, r) in results.iter().enumerate().skip(1) {
        assert_eq!(r.edge, secs(40.0), "event {i}: the handle left the stop");
        assert_eq!(r.push_playhead, None, "event {i} dragged the playhead");
    }
}

#[test]
fn a_fast_flick_holds_the_stop_long_enough_to_be_felt() {
    let d = parked(100.0, 0.0, 100.0, 40.0);
    let head_x = x_of(&d, secs(40.0));
    let xs: Vec<f32> = (0..6).map(|i| head_x - 60.0 + i as f32 * 55.0).collect();
    let results = drag_in_live(&d, &xs);
    let resting = results.iter().filter(|r| r.edge == secs(40.0)).count();
    assert!(resting >= 4, "a fast flick rested on the line for only {resting} of 6 events");
}

#[test]
fn a_sustained_fast_drag_still_breaks_through_eventually() {
    let d = parked(100.0, 0.0, 100.0, 40.0);
    let head_x = x_of(&d, secs(40.0));
    let xs: Vec<f32> = (0..12).map(|i| head_x - 60.0 + i as f32 * 55.0).collect();
    let results = drag_in_live(&d, &xs);
    let last = results.last().unwrap();
    assert!(last.edge > secs(40.0), "a drag that kept going must eventually break free");
    assert!(last.push_playhead.is_some(), "and must carry the playhead once free");
}

#[test]
fn the_stop_lasts_a_similar_number_of_events_at_any_drag_speed() {
    let d = parked(100.0, 0.0, 100.0, 40.0);
    let head_x = x_of(&d, secs(40.0));
    for (label, step) in [("slow", 3.0f32), ("medium", 18.0), ("fast", 55.0)] {
        let xs: Vec<f32> = (0..14).map(|i| head_x - step * 2.0 + i as f32 * step).collect();
        let results = drag_in_live(&d, &xs);
        let resting = results.iter().filter(|r| r.edge == secs(40.0)).count();
        assert!(resting >= 4, "{label} drag ({step}px/event) held the stop for only {resting} events");
    }
}

#[test]
fn a_slow_creeping_drag_catches_and_then_holds() {
    let d = parked(100.0, 0.0, 100.0, 40.0);
    let head_x = x_of(&d, secs(40.0));
    let xs: Vec<f32> = (0..40).map(|i| head_x - 12.0 + i as f32).collect();
    let results = drag_in_live(&d, &xs);
    let mut caught_from: Option<usize> = None;
    for (i, r) in results.iter().enumerate() {
        let past = xs[i] - head_x;
        if r.edge == secs(40.0) && past >= 0.0 && caught_from.is_none() {
            caught_from = Some(i);
        }
        if caught_from.is_some() && (0.0..DETENT_ESCAPE).contains(&past) {
            assert_eq!(r.edge, secs(40.0), "event {i} ({past:+.0}px past) let go after catching");
        }
    }
    assert!(caught_from.is_some(), "a slow drag never caught the stop at all");
    let far = drag_in_live(&d, &breakthrough_in(head_x));
    assert!(far.last().unwrap().edge > secs(40.0), "the handle must still be able to break free");
}

#[test]
fn the_in_handle_detents_at_the_playhead_instead_of_passing_it() {
    let d = parked(100.0, 0.0, 100.0, 40.0);
    let head_x = x_of(&d, secs(40.0));
    let r = drag_in(&d, &[head_x - 20.0, head_x - 8.0, head_x + DETENT_SLOP * 0.5]);
    assert_eq!(r.edge, secs(40.0), "the handle should rest exactly on the playhead");
    assert_eq!(r.push_playhead, None, "and must not drag the playhead with it");
}

#[test]
fn pushing_the_in_handle_through_the_detent_carries_the_playhead() {
    let d = parked(100.0, 0.0, 100.0, 40.0);
    let head_x = x_of(&d, secs(40.0));
    let r = drag_in(&d, &breakthrough_in(head_x));
    assert!(r.edge > secs(40.0), "past the escape window the handle must keep moving");
    assert_eq!(r.push_playhead, Some(r.edge), "and the playhead must come with it");
}

#[test]
fn once_caught_the_handle_keeps_resting_on_the_line() {
    let d = parked(100.0, 0.0, 100.0, 40.0);
    let head_x = x_of(&d, secs(40.0));
    let mut drag = Drag::default();
    let approach = head_x - 18.0;
    let _ = resolve_in(&d, approach, &mut drag);
    let mut x = head_x + 1.0;
    while x < head_x + DETENT_ESCAPE {
        let r = resolve_in(&d, x, &mut drag);
        assert_eq!(r.edge, secs(40.0), "at {:.0}px past the line the stop let go too early", x - head_x);
        assert!(drag.latch.caught, "the catch latch must stay set while held");
        x += 2.0;
    }
}

#[test]
fn a_handle_that_broke_free_is_not_immediately_recaught() {
    let d = parked(100.0, 0.0, 100.0, 40.0);
    let head_x = x_of(&d, secs(40.0));
    let mut drag = Drag::default();
    let mut live = parked(100.0, 0.0, 100.0, 40.0);
    for x in breakthrough_in(head_x) {
        let r = resolve_in(&live, x, &mut drag);
        live.in_point = r.edge;
        if let Some(p) = r.push_playhead {
            live.playhead = p;
        }
    }
    assert!(!drag.latch.caught, "the stop should have released");
    let _ = d;
    for x in [head_x + 200.0, head_x + 240.0] {
        let r = resolve_in(&live, x, &mut drag);
        assert!(r.push_playhead.is_some(), "a freed handle must keep travelling");
        assert_eq!(r.contact, 0.0, "and must not look like it is touching anything");
    }
}

#[test]
fn dragging_an_edge_away_from_the_playhead_never_moves_it() {
    let d = parked(100.0, 20.0, 80.0, 50.0);
    let x = x_of(&d, secs(5.0));
    let r = resolve(&d, Grabbed::In, secs(5.0), x, &mut Drag::default());
    assert_eq!(r.push_playhead, None);
    assert_eq!(r.edge, secs(5.0));
    let x = x_of(&d, secs(95.0));
    let r = resolve(&d, Grabbed::Out, secs(95.0), x, &mut Drag::default());
    assert_eq!(r.push_playhead, None);
    assert_eq!(r.edge, secs(95.0));
}

#[test]
fn a_fast_drag_still_catches_on_the_playhead() {
    let d = parked(100.0, 0.0, 100.0, 40.0);
    let head_x = x_of(&d, secs(40.0));
    let r = drag_in(&d, &[head_x - 30.0, head_x + 30.0]);
    assert_eq!(r.edge, secs(40.0), "a fast drag must still be caught by the stop");
    assert_eq!(r.push_playhead, None, "and must not have dragged the playhead");
}

#[test]
fn contact_pressure_rises_as_the_handle_is_pressed_into_the_playhead() {
    let d = parked(100.0, 0.0, 100.0, 40.0);
    let head_x = x_of(&d, secs(40.0));
    let mut drag = Drag::default();
    let approach = head_x - 18.0;
    let _ = resolve_in(&d, approach, &mut drag);
    let mut last = -1.0;
    for fraction in [0.0, 0.25, 0.5, 0.75, 1.0] {
        let pointer = head_x + DETENT_ESCAPE * fraction;
        let r = resolve_in(&d, pointer, &mut drag);
        assert_eq!(r.edge, secs(40.0), "the edge must stay pinned while detented");
        assert!(r.contact > last, "pressure must increase with travel: {fraction} gave {} after {last}", r.contact);
        assert!((0.0..=1.0).contains(&r.contact), "contact escaped 0..=1: {}", r.contact);
        last = r.contact;
    }
    assert!((last - 1.0).abs() < 1e-6, "at full slop the bump should be fully loaded");
}

#[test]
fn a_handle_in_free_travel_reports_no_contact() {
    let d = parked(100.0, 20.0, 80.0, 50.0);
    let x = x_of(&d, secs(30.0));
    assert_eq!(resolve(&d, Grabbed::In, secs(30.0), x, &mut Drag::default()).contact, 0.0);
    let x = x_of(&d, secs(70.0));
    assert_eq!(resolve(&d, Grabbed::Out, secs(70.0), x, &mut Drag::default()).contact, 0.0);
}

#[test]
fn breaking_through_the_detent_releases_the_bump() {
    let d = parked(100.0, 0.0, 100.0, 40.0);
    let head_x = x_of(&d, secs(40.0));
    let loaded = drag_in(&d, &[head_x - 18.0, head_x + 2.0, head_x + 2.0 + DETENT_ESCAPE]);
    assert!(loaded.contact > 0.9, "the bump should be near fully loaded at the escape distance, got {}", loaded.contact);
    let r = drag_in(&d, &breakthrough_in(head_x));
    assert_eq!(r.contact, 0.0, "past the stop the handle is free again");
    assert!(r.push_playhead.is_some(), "and is now carrying the playhead");
}

#[test]
fn approaching_the_stop_registers_no_pressure_until_contact() {
    let d = parked(100.0, 0.0, 100.0, 40.0);
    let head_x = x_of(&d, secs(40.0));
    let before = head_x - 6.0;
    let r = drag_in(&d, &[head_x - 30.0, before]);
    assert_eq!(r.contact, 0.0, "not touching yet");
    assert!(r.contact >= 0.0, "contact must never be negative");
}

#[test]
fn the_out_handle_bump_mirrors_the_in_handle_bump() {
    let d = parked(100.0, 0.0, 100.0, 50.0);
    let head_x = x_of(&d, secs(50.0));
    for fraction in [0.25, 0.5, 1.0] {
        let in_x = head_x + DETENT_ESCAPE * fraction;
        let out_x = head_x - DETENT_ESCAPE * fraction;
        let a = drag_in(&d, &[head_x - 18.0, in_x]).contact;
        let b = drag_out(&d, &[head_x + 18.0, out_x]).contact;
        assert!((a - b).abs() < 1e-5, "asymmetric bump at {fraction}: in {a} vs out {b}");
    }
}

#[test]
fn the_out_handle_detents_at_the_playhead_from_the_other_side() {
    let d = parked(100.0, 0.0, 100.0, 60.0);
    let head_x = x_of(&d, secs(60.0));
    let r = drag_out(&d, &[head_x + 20.0, head_x - DETENT_SLOP * 0.5]);
    assert_eq!(r.edge, secs(60.0), "the out handle should rest on the playhead");
    assert_eq!(r.push_playhead, None);
    let r = drag_out(&d, &breakthrough_out(head_x));
    assert!(r.edge < secs(60.0), "past the escape window it must keep moving");
    assert_eq!(r.push_playhead, Some(r.edge), "and carry the playhead");
}

#[test]
fn the_playhead_is_never_left_outside_the_clip_by_any_drag() {
    let d = parked(100.0, 20.0, 80.0, 50.0);
    for step in 0..=100 {
        let x = EDGE_INSET + (W - 2.0 * EDGE_INSET) * (step as f32 / 100.0);
        let raw = time_at(&d, x);
        let r = resolve(&d, Grabbed::In, raw, x, &mut Drag::default());
        let head = r.push_playhead.unwrap_or(d.playhead);
        assert!(head >= r.edge && head <= d.out_point, "in-drag at x={x}: playhead {head:?} escaped");
        let r = resolve(&d, Grabbed::Out, raw, x, &mut Drag::default());
        let head = r.push_playhead.unwrap_or(d.playhead);
        assert!(head >= d.in_point && head <= r.edge, "out-drag at x={x}: playhead {head:?} escaped");
    }
}

#[test]
fn the_detent_tolerance_is_the_same_on_any_source_length() {
    for source_secs in [5.0, 300.0, 101.0 * 60.0] {
        let mid = source_secs / 2.0;
        let d = parked(source_secs, 0.0, source_secs, mid);
        let head_x = x_of(&d, secs(mid));
        let inside = head_x + DETENT_SLOP * 0.5;
        let r = drag_in(&d, &[head_x - 18.0, inside]);
        assert_eq!(r.push_playhead, None, "{source_secs}s source: the detent should hold within the slop");
        let r = drag_in(&d, &breakthrough_in(head_x));
        assert!(r.push_playhead.is_some(), "{source_secs}s source: past the slop the playhead should be pushed");
    }
}

/// A caught stop lets go on the sixth held event at the earliest, even
/// when the pointer is already far past the escape distance.
#[test]
fn the_stop_counts_events_before_letting_go() {
    let d = parked(100.0, 0.0, 100.0, 40.0);
    let mut latch = DragLatch { caught: true, held_events: 0 };
    let far = Motion { crossed: false, escaped: true };
    for held in 1..6 {
        let r = d.resolve_in_drag(secs(70.0), far, &mut latch);
        assert_eq!(r.edge, secs(40.0), "released after only {held} held events");
        assert!(r.detented && latch.caught);
        assert_eq!(latch.held_events, held);
    }
    let r = d.resolve_in_drag(secs(70.0), far, &mut latch);
    assert_eq!(r.edge, secs(70.0));
    assert_eq!(r.push_playhead, Some(secs(70.0)));
    assert_eq!(latch, DragLatch { caught: false, held_events: 0 });
}

/// An in-point that has already overtaken the playhead carries it along,
/// clamped a minimum span short of the out-point.
#[test]
fn an_edge_already_past_the_playhead_pushes_it() {
    let d = parked(100.0, 45.0, 80.0, 40.0);
    let mut latch = DragLatch::default();
    let r = d.resolve_in_drag(secs(99.0), Motion { crossed: false, escaped: false }, &mut latch);
    assert_eq!(r.edge, Time::from_nanos(79_900_000_000));
    assert_eq!(r.push_playhead, Some(Time::from_nanos(79_900_000_000)));
    assert!(!latch.caught);
}

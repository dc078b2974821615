use offcut_ui::rice::Rgba8;
use offcut_ui::theme::Palette;
use offcut_ui::time::Time;
use offcut_ui::pointer::PointerEvent;
use offcut_ui::trimbar::{
    fmt_duration, pointer_step, BarAction, BarPointer, DragLatch, Grabbed, Motion, PointerAt,
    Resolution, TrimBarData,
};

fn secs(s: f64) -> Time {
    Time::from_nanos((s * 1e9) as u64)
}

fn grey() -> Palette<Rgba8> {
    let g = Rgba8 { r: 0x15, g: 0x15, b: 0x15, a: 0xFF };
    Palette {
        canvas: g, surface: g, surface_raised: g, surface_sunken: g, surface_sunken_alt: g,
        letterbox: g, border: g, border_raised: g, accent: g, on_accent: g, control_knob: g,
        control_track_off: g, success: g, danger: g, origin_mark: g, accent_tint_bg: g,
        accent_tint_text: g, trim_track: g, trim_range_fill: g, trim_range_edge: g,
        trim_range_excluded: g, playhead: g, mute: g, trim_out: g, trim_out_hover: g,
        stage_badge_text: g, stage_badge_text_dim: g, stage_shadow: g, text_primary: g,
        text_secondary: g, text_secondary_alt: g, text_muted: g, text_muted_alt: g,
        surface_hover: g, accent_hover: g, waveform: g, mute_border: g,
    }
}

fn data(source_secs: f64, in_secs: f64, out_secs: f64) -> TrimBarData<Rgba8> {
    TrimBarData {
        palette: grey(),
        source_duration: secs(source_secs),
        in_point: secs(in_secs),
        out_point: secs(out_secs),
        playhead: secs(in_secs),
    }
}

fn parked(source: f64, in_s: f64, out_s: f64, head_s: f64) -> TrimBarData<Rgba8> {
    TrimBarData { playhead: secs(head_s), ..data(source, in_s, out_s) }
}

#[test]
fn handles_cannot_cross_each_other() {
    let d = data(100.0, 20.0, 30.0);
    let clamped_in = d.clamp_in(secs(99.0));
    assert!(clamped_in.as_nanos() < d.out_point.as_nanos(), "in-point must stay before out-point");
    let clamped_out = d.clamp_out(secs(0.0));
    assert!(clamped_out.as_nanos() > d.in_point.as_nanos(), "out-point must stay after in-point");
}

#[test]
fn scrubbing_is_clamped_into_the_kept_range() {
    let d = parked(100.0, 20.0, 80.0, 50.0);
    assert_eq!(d.clamp_playhead(secs(0.0)), secs(20.0), "before the in-point clamps to it");
    assert_eq!(d.clamp_playhead(secs(99.0)), secs(80.0), "past the out-point clamps to it");
    assert_eq!(d.clamp_playhead(secs(45.0)), secs(45.0), "inside the range is untouched");
}

#[test]
fn the_out_point_cannot_be_dragged_past_the_end_of_the_source() {
    let d = data(100.0, 10.0, 50.0);
    assert_eq!(d.clamp_out(secs(1000.0)), secs(100.0));
}

#[test]
fn range_duration_is_out_minus_in() {
    let d = data(100.0, 20.0, 32.5);
    assert!((d.range_duration().as_nanos() as f64 / 1e9 - 12.5).abs() < 1e-9);
}

#[test]
fn range_duration_never_underflows_on_an_inverted_range() {
    let d = data(100.0, 50.0, 10.0);
    assert_eq!(d.range_duration(), Time::zero(), "must saturate, not wrap around u64");
}

#[test]
fn the_visible_minimum_never_alters_the_actual_range() {
    let d = data(101.0 * 60.0, 300.0, 308.0);
    let span = d.range_duration().as_nanos() as f64 / 1e9;
    assert!((span - 8.0).abs() < 1e-6, "the selection reports {span}s, but the user chose 8s");
    let tight = d.clamp_out(secs(300.1));
    assert!(
        tight.as_nanos() as f64 / 1e9 - 300.0 <= 0.2,
        "clamp_out widened a 0.1s selection to {}s",
        tight.as_nanos() as f64 / 1e9 - 300.0
    );
}

#[test]
fn the_minimum_span_is_a_tenth_of_a_second_or_the_whole_source() {
    assert_eq!(data(100.0, 0.0, 100.0).min_span_nanos(), 100_000_000);
    assert_eq!(TrimBarData { source_duration: Time::from_nanos(5), ..data(0.0, 0.0, 0.0) }.min_span_nanos(), 5);
    assert_eq!(TrimBarData { source_duration: Time::zero(), ..data(0.0, 0.0, 0.0) }.min_span_nanos(), 1);
}

#[test]
fn the_keyboard_trims_only_when_the_edge_moves() {
    let d = parked(100.0, 0.0, 100.0, 20.0);
    assert_eq!(d.keyboard_in(secs(20.0)), Some(secs(20.0)));
    let moved = parked(100.0, 20.0, 100.0, 20.0);
    assert_eq!(moved.keyboard_in(secs(20.0)), None, "already there: no undo step");
    assert_eq!(d.keyboard_out(secs(60.0)), Some(secs(60.0)));
    assert_eq!(d.keyboard_out(secs(100.0)), None);
}

#[test]
fn keyboard_trimming_cannot_invert_the_range() {
    let d = parked(100.0, 0.0, 100.0, 99.99);
    let target = d.keyboard_in(secs(99.99)).unwrap();
    assert!(target.as_nanos() < d.out_point.as_nanos());
    let d = parked(100.0, 20.0, 100.0, 0.0);
    let target = d.keyboard_out(secs(0.0)).unwrap();
    assert!(target.as_nanos() > d.in_point.as_nanos());
}

#[test]
fn duration_formatting_switches_to_hours_only_when_needed() {
    assert_eq!(fmt_duration(secs(2.0)), "0:02");
    assert_eq!(fmt_duration(secs(101.0)), "1:41");
    assert_eq!(fmt_duration(secs(3661.0)), "1:01:01");
}

#[test]
fn the_readout_matches_the_reference_format() {
    let playhead = fmt_duration(secs(2.0));
    let total = fmt_duration(secs(101.0));
    assert_eq!(format!("{playhead} / {total}"), "0:02 / 1:41");
}

fn pointer(in_band: bool, handle: Grabbed, raw: Time) -> PointerAt {
    PointerAt { in_band, handle, raw, motion: Motion { crossed: false, escaped: false } }
}

fn idle() -> BarPointer {
    BarPointer { grabbed: Grabbed::Nothing, hovered: Grabbed::Nothing, latch: DragLatch::default() }
}

#[test]
fn a_click_on_the_track_scrubs_precisely_inside_the_kept_range() {
    let d = parked(100.0, 20.0, 80.0, 50.0);
    let mut st = idle();
    let a = pointer_step(Some(&d), &mut st, PointerEvent::Pressed, Some(pointer(true, Grabbed::Nothing, secs(5.0))));
    assert_eq!(a, BarAction::Scrub { to: secs(20.0), precise: true });
    assert_eq!(st, idle());
}

#[test]
fn a_press_outside_the_band_is_not_the_bars() {
    let d = parked(100.0, 20.0, 80.0, 50.0);
    let mut st = idle();
    let a = pointer_step(Some(&d), &mut st, PointerEvent::Pressed, Some(pointer(false, Grabbed::In, secs(5.0))));
    assert_eq!(a, BarAction::Pass);
    assert_eq!(st, idle());
}

#[test]
fn grabbing_the_red_mark_scrubs_as_it_moves() {
    let d = parked(100.0, 20.0, 80.0, 50.0);
    let mut st = idle();
    let a = pointer_step(Some(&d), &mut st, PointerEvent::Pressed, Some(pointer(true, Grabbed::Playhead, secs(51.0))));
    assert_eq!(a, BarAction::Scrub { to: secs(51.0), precise: false });
    assert_eq!(st.grabbed, Grabbed::Playhead);
    // Dragged out of the band and past the out-point: still scrubbing,
    // clamped to the kept range.
    let a = pointer_step(Some(&d), &mut st, PointerEvent::Moved, Some(pointer(false, Grabbed::Nothing, secs(99.0))));
    assert_eq!(a, BarAction::Scrub { to: secs(80.0), precise: false });
    let a = pointer_step(Some(&d), &mut st, PointerEvent::Released, None);
    assert_eq!(a, BarAction::GestureEnded);
    assert_eq!(st.grabbed, Grabbed::Nothing);
}

#[test]
fn grabbing_an_edge_begins_a_gesture_and_drags_it() {
    let d = parked(100.0, 20.0, 80.0, 50.0);
    let mut st = idle();
    st.latch = DragLatch { caught: true, held_events: 3 };
    let a = pointer_step(Some(&d), &mut st, PointerEvent::Pressed, Some(pointer(true, Grabbed::Out, secs(80.0))));
    assert_eq!(a, BarAction::GestureBegan);
    assert_eq!(st.grabbed, Grabbed::Out);
    assert_eq!(st.latch, DragLatch::default(), "a fresh grab must not inherit a latched stop");
    let a = pointer_step(Some(&d), &mut st, PointerEvent::Moved, Some(pointer(true, Grabbed::Out, secs(90.0))));
    assert_eq!(a, BarAction::SetOut(Resolution { edge: secs(90.0), push_playhead: None, detented: false }));
}

#[test]
fn hovering_redraws_only_when_the_target_changes() {
    let d = parked(100.0, 20.0, 80.0, 50.0);
    let mut st = idle();
    let a = pointer_step(Some(&d), &mut st, PointerEvent::Moved, Some(pointer(true, Grabbed::In, secs(20.0))));
    assert_eq!(a, BarAction::Redraw);
    assert_eq!(st.hovered, Grabbed::In);
    let a = pointer_step(Some(&d), &mut st, PointerEvent::Moved, Some(pointer(true, Grabbed::In, secs(20.0))));
    assert_eq!(a, BarAction::Pass);
    let a = pointer_step(Some(&d), &mut st, PointerEvent::Moved, Some(pointer(false, Grabbed::In, secs(20.0))));
    assert_eq!(a, BarAction::Redraw);
    assert_eq!(st.hovered, Grabbed::Nothing);
}

#[test]
fn without_a_bar_any_grab_is_dropped() {
    let mut st = idle();
    st.grabbed = Grabbed::In;
    let a = pointer_step::<Rgba8>(None, &mut st, PointerEvent::Moved, None);
    assert_eq!(a, BarAction::Pass);
    assert_eq!(st.grabbed, Grabbed::Nothing);
}

use offcut_ui::time::Time;
use offcut_ui::timeline::{
    clamp_to_timeline, lane_cursor, lane_pointer, Cursor, HoverAt, Interaction, LaneAction, LaneAt,
};
use offcut_ui::trimbar::Grabbed;
use offcut_ui::pointer::PointerEvent;

fn secs(s: f64) -> Time {
    Time::from_nanos((s * 1e9) as u64)
}

fn at(time: Time) -> LaneAt {
    LaneAt { in_clips: false, handle: None, clip: None, time, trim_to: None }
}

#[test]
fn the_playhead_clamps_to_the_timeline_bounds() {
    // A timeline of three clips, 40 seconds in all.
    let total = secs(40.0);
    assert_eq!(clamp_to_timeline(secs(999.0), total), secs(40.0));
    assert_eq!(clamp_to_timeline(Time::zero(), total), Time::zero());
}

#[test]
fn interaction_starts_idle() {
    assert_eq!(Interaction::default(), Interaction::Idle);
}

#[test]
fn a_press_on_the_selected_clips_edge_starts_a_trim_before_selecting() {
    let mut i = Interaction::Idle;
    let p = LaneAt { in_clips: true, handle: Some(Interaction::TrimmingEnd(2)), clip: Some(2), time: secs(5.0), trim_to: None };
    assert_eq!(lane_pointer(&mut i, PointerEvent::Pressed, Some(p), secs(40.0)), LaneAction::GestureBegan);
    assert_eq!(i, Interaction::TrimmingEnd(2));
}

#[test]
fn a_press_on_a_clip_selects_it_without_starting_a_drag() {
    let mut i = Interaction::Idle;
    let p = LaneAt { in_clips: true, handle: None, clip: Some(1), time: secs(5.0), trim_to: None };
    assert_eq!(lane_pointer(&mut i, PointerEvent::Pressed, Some(p), secs(40.0)), LaneAction::SelectClip(1));
    assert_eq!(i, Interaction::Idle);
}

#[test]
fn scrubbing_seeks_fast_while_dragging_and_precisely_on_release() {
    let mut i = Interaction::Idle;
    let total = secs(40.0);
    assert_eq!(
        lane_pointer(&mut i, PointerEvent::Pressed, Some(at(secs(3.0))), total),
        LaneAction::Seek { to: secs(3.0), precise: false }
    );
    assert_eq!(i, Interaction::ScrubbingPlayhead);
    assert_eq!(
        lane_pointer(&mut i, PointerEvent::Moved, Some(at(secs(55.0))), total),
        LaneAction::Seek { to: secs(40.0), precise: false }
    );
    assert_eq!(
        lane_pointer(&mut i, PointerEvent::Released, Some(at(secs(12.0))), total),
        LaneAction::Seek { to: secs(12.0), precise: true }
    );
    assert_eq!(i, Interaction::Idle);
}

#[test]
fn a_trim_drag_reports_the_new_edge_and_ends_on_release() {
    let mut i = Interaction::TrimmingStart(0);
    let total = secs(40.0);
    let mut p = at(secs(9.0));
    p.trim_to = Some(secs(2.5));
    assert_eq!(
        lane_pointer(&mut i, PointerEvent::Moved, Some(p), total),
        LaneAction::TrimStart { clip: 0, to: secs(2.5) }
    );
    // The clip is gone: nothing to trim, and the drag carries on.
    assert_eq!(lane_pointer(&mut i, PointerEvent::Moved, Some(at(secs(9.0))), total), LaneAction::Pass);
    assert_eq!(i, Interaction::TrimmingStart(0));
    assert_eq!(lane_pointer(&mut i, PointerEvent::Released, None, total), LaneAction::GestureEnded);
    assert_eq!(i, Interaction::Idle);
}

#[test]
fn an_idle_lane_ignores_moves_and_releases() {
    let mut i = Interaction::Idle;
    assert_eq!(lane_pointer(&mut i, PointerEvent::Moved, Some(at(secs(1.0))), secs(40.0)), LaneAction::Pass);
    assert_eq!(lane_pointer(&mut i, PointerEvent::Released, Some(at(secs(1.0))), secs(40.0)), LaneAction::Pass);
    assert_eq!(lane_pointer(&mut i, PointerEvent::Pressed, None, secs(40.0)), LaneAction::Pass);
    assert_eq!(lane_pointer(&mut i, PointerEvent::Other, Some(at(secs(1.0))), secs(40.0)), LaneAction::Pass);
    assert_eq!(i, Interaction::Idle);
}

fn hover(bar: Grabbed, on_trim_handle: bool, on_ruler: bool, on_clip: bool) -> HoverAt {
    HoverAt { bar, on_trim_handle, on_ruler, on_clip }
}

#[test]
fn a_drag_in_progress_decides_the_cursor() {
    let over_clip = Some(hover(Grabbed::Nothing, false, false, true));
    assert_eq!(lane_cursor(Interaction::TrimmingStart(0), Grabbed::Nothing, over_clip), Cursor::ResizingHorizontally);
    assert_eq!(lane_cursor(Interaction::ScrubbingPlayhead, Grabbed::Nothing, over_clip), Cursor::Grabbing);
    assert_eq!(lane_cursor(Interaction::Idle, Grabbed::Playhead, None), Cursor::Grabbing);
    assert_eq!(lane_cursor(Interaction::Idle, Grabbed::Out, None), Cursor::ResizingHorizontally);
}

#[test]
fn hovering_says_what_can_be_grabbed() {
    let idle = Interaction::Idle;
    let free = Grabbed::Nothing;
    assert_eq!(lane_cursor(idle, free, None), Cursor::Idle);
    assert_eq!(lane_cursor(idle, free, Some(hover(Grabbed::Playhead, false, false, false))), Cursor::Grab);
    assert_eq!(lane_cursor(idle, free, Some(hover(Grabbed::In, false, false, true))), Cursor::ResizingHorizontally);
    assert_eq!(lane_cursor(idle, free, Some(hover(Grabbed::Nothing, true, false, true))), Cursor::ResizingHorizontally);
    assert_eq!(lane_cursor(idle, free, Some(hover(Grabbed::Nothing, false, true, false))), Cursor::Grab);
    assert_eq!(lane_cursor(idle, free, Some(hover(Grabbed::Nothing, false, false, true))), Cursor::Pointer);
    assert_eq!(lane_cursor(idle, free, Some(hover(Grabbed::Nothing, false, false, false))), Cursor::Idle);
}

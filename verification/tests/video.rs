use offcut_ui::pointer::PointerEvent;
use offcut_ui::video::{crop_pointer, CropAction};

/// Stand-ins for the crop box's handles: the pointer handling never looks
/// at which one is held.
#[derive(Debug, Clone, Copy, PartialEq, Eq)]
enum Handle {
    TopLeft,
    BottomRight,
}

#[test]
fn a_drag_does_not_stay_latched_when_the_crop_box_disappears() {
    let mut held: Option<Handle> = None;
    // Grab the top-left handle while the box is on screen.
    let began = crop_pointer(&mut held, PointerEvent::Pressed, true, Some(Handle::TopLeft), true);
    assert_eq!(began, CropAction::GestureBegan);
    assert_eq!(held, Some(Handle::TopLeft), "the press should have grabbed a handle");
    // The user leaves the Crop tab: the release arrives with no box.
    let ended = crop_pointer(&mut held, PointerEvent::Released, false, None, true);
    assert_eq!(ended, CropAction::GestureEnded);
    assert_eq!(held, None, "the drag stayed latched after the box disappeared");
}

#[test]
fn a_widget_with_no_box_clears_stale_drag_state() {
    let mut held = Some(Handle::BottomRight);
    let action = crop_pointer(&mut held, PointerEvent::Moved, false, None, true);
    assert_eq!(action, CropAction::Pass, "an inert preview must not capture events");
    assert_eq!(held, None, "stale drag state was kept");
}

#[test]
fn a_normal_drag_still_begins_and_ends_cleanly() {
    let mut held: Option<Handle> = None;
    let began = crop_pointer(&mut held, PointerEvent::Pressed, true, Some(Handle::TopLeft), true);
    assert_eq!(began, CropAction::GestureBegan, "a press on a handle should start a gesture");
    assert!(held.is_some());
    let dragged = crop_pointer(&mut held, PointerEvent::Moved, true, None, true);
    assert_eq!(dragged, CropAction::Drag);
    let ended = crop_pointer(&mut held, PointerEvent::Released, true, None, true);
    assert_eq!(ended, CropAction::GestureEnded, "a release should end the gesture");
    assert_eq!(held, None);
}

#[test]
fn a_drag_that_loses_the_pointer_ends() {
    let mut held = Some(Handle::TopLeft);
    let action = crop_pointer(&mut held, PointerEvent::Moved, true, None, false);
    assert_eq!(action, CropAction::GestureEnded);
    assert_eq!(held, None);
}

#[test]
fn a_press_off_the_box_and_an_idle_release_do_nothing() {
    let mut held: Option<Handle> = None;
    assert_eq!(crop_pointer(&mut held, PointerEvent::Pressed, true, None, true), CropAction::Pass);
    assert_eq!(crop_pointer(&mut held, PointerEvent::Released, true, None, true), CropAction::Pass);
    assert_eq!(crop_pointer(&mut held, PointerEvent::Moved, true, None, true), CropAction::Pass);
    assert_eq!(held, None);
}

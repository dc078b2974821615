//! The crop box's pointer handling on the video preview: when a drag on
//! the box begins, carries on and ends. Which handle lies under the
//! pointer, and the rect a drag produces, are pixel and model geometry
//! that stay with the renderer; what the handle is, this module does not
//! look at.
use vstd::prelude::*;
use crate::pointer::PointerEvent;

verus! {

/// What the crop box does with one pointer event.
#[derive(Copy, Clone, PartialEq, Eq, Debug, Structural)]
pub enum CropAction {
    /// Not the box's event.
    Pass,
    /// A drag began on the handle now held: the shell takes one undo
    /// checkpoint, so the whole gesture undoes in one step.
    GestureBegan,
    /// The held handle moved: resolve the drag against where it began.
    Drag,
    /// The drag ended.
    GestureEnded,
}

/// The box's answer to one pointer event, and the handle held after it.
///
/// A release always ends a live drag, whether or not the box is still on
/// screen. Without a box nothing else can be dragged, and a stale drag is
/// dropped rather than left capturing events. A press on a handle takes
/// hold of it; moves drag it while one is held, and a drag that has lost
/// track of the pointer (no position, or no origin) ends.
pub open spec fn crop_step<H>(
    held: Option<H>,
    event: PointerEvent,
    has_box: bool,
    hit: Option<H>,
    tracking: bool,
) -> (Option<H>, CropAction) {
    if event == PointerEvent::Released {
        if held is None {
            (held, CropAction::Pass)
        } else {
            (None, CropAction::GestureEnded)
        }
    } else if !has_box {
        (None, CropAction::Pass)
    } else {
        match event {
            PointerEvent::Pressed => match hit {
                Some(h) => (Some(h), CropAction::GestureBegan),
                None => (held, CropAction::Pass),
            },
            PointerEvent::Moved => if held is None {
                (held, CropAction::Pass)
            } else if !tracking {
                (None, CropAction::GestureEnded)
            } else {
                (held, CropAction::Drag)
            },
            _ => (held, CropAction::Pass),
        }
    }
}

/// Handle one pointer event on the crop box. `held` is the handle being
/// dragged, if any; `has_box` says whether the box is on screen; `hit` is
/// the handle under the pointer at a press (`None` off the box or with
/// no pointer position); `tracking` says whether both the pointer and the
/// drag's origin are known.
pub fn crop_pointer<H: Copy>(
    held: &mut Option<H>,
    event: PointerEvent,
    has_box: bool,
    hit: Option<H>,
    tracking: bool,
) -> (action: CropAction)
    ensures
        (*final(held), action) == crop_step(*old(held), event, has_box, hit, tracking),
{
    if event == PointerEvent::Released {
        if held.is_none() {
            return CropAction::Pass;
        }
        *held = None;
        return CropAction::GestureEnded;
    }
    if !has_box {
        *held = None;
        return CropAction::Pass;
    }
    match event {
        PointerEvent::Pressed => match hit {
            Some(h) => {
                *held = Some(h);
                CropAction::GestureBegan
            },
            None => CropAction::Pass,
        },
        PointerEvent::Moved => {
            if held.is_none() {
                CropAction::Pass
            } else if !tracking {
                *held = None;
                CropAction::GestureEnded
            } else {
                CropAction::Drag
            }
        },
        _ => CropAction::Pass,
    }
}

/// **A drag never stays latched:** after a release, or after any event
/// while the box is off screen, no handle is held, so a gesture whose box
/// has gone cannot go on capturing the clicks meant for other controls.
pub proof fn law_a_crop_drag_never_stays_latched<H>(
    held: Option<H>,
    event: PointerEvent,
    has_box: bool,
    hit: Option<H>,
    tracking: bool,
)
    requires
        event == PointerEvent::Released || !has_box,
    ensures
        crop_step(held, event, has_box, hit, tracking).0 is None,
{
}

/// **Every drag that begins also ends:** a release while a handle is
/// held reports the end of the gesture, with or without a box.
pub proof fn law_a_release_ends_a_crop_drag<H>(
    held: Option<H>,
    has_box: bool,
    hit: Option<H>,
    tracking: bool,
)
    requires
        held is Some,
    ensures
        crop_step(held, PointerEvent::Released, has_box, hit, tracking).1 == CropAction::GestureEnded,
{
}

} // verus!

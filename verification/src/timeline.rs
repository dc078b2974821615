//! The timeline canvas's pointer handling: what a press, a move or a
//! release on the lane means, given what lies under the pointer. The
//! pixel geometry that finds what lies there stays with the renderer.
use vstd::prelude::*;
use crate::time::Time;
use crate::pointer::PointerEvent;
use crate::trimbar::Grabbed;

verus! {

/// What the user is doing with the mouse on the timeline right now.
#[derive(Copy, Clone, PartialEq, Eq, Debug, Structural)]
pub enum Interaction {
    Idle,
    /// Dragging the playhead (from the ruler, the cap, or empty lane).
    ScrubbingPlayhead,
    /// Dragging the selected clip's left trim handle.
    TrimmingStart(usize),
    /// Dragging the selected clip's right trim handle.
    TrimmingEnd(usize),
}

impl Default for Interaction {
    fn default() -> (i: Interaction)
        ensures
            i == Interaction::Idle,
    {
        Interaction::Idle
    }
}

/// What lies under the pointer on the lane, as the renderer measured it.
#[derive(Copy, Clone, PartialEq, Eq, Debug, Structural)]
pub struct LaneAt {
    /// The pointer is over the clip row.
    pub in_clips: bool,
    /// The selected clip's trim handle under the pointer, if any: always
    /// `TrimmingStart` or `TrimmingEnd` of the selected clip.
    pub handle: Option<Interaction>,
    /// The clip under the pointer, if any.
    pub clip: Option<usize>,
    /// The timeline instant under the pointer, clamped at zero.
    pub time: Time,
    /// Where the clip being trimmed would put the dragged edge, in source
    /// time, if that clip still exists.
    pub trim_to: Option<Time>,
}

/// What the lane reports for one pointer event. Intent only: the shell
/// owns every change to the project.
#[derive(Copy, Clone, PartialEq, Eq, Debug, Structural)]
pub enum LaneAction {
    /// Nothing for the lane to do.
    Pass,
    /// A trim drag began: the shell takes one undo checkpoint here.
    GestureBegan,
    /// Select this clip.
    SelectClip(usize),
    /// Move the playhead to a timeline instant; `precise` asks for the
    /// accurate seek, sent once on release.
    Seek { to: Time, precise: bool },
    /// Move this clip's in-point, in source time.
    TrimStart { clip: usize, to: Time },
    /// Move this clip's out-point, in source time.
    TrimEnd { clip: usize, to: Time },
    /// The drag ended.
    GestureEnded,
}

/// A playhead instant clamped to the timeline: anywhere from the start to
/// the end inclusive, the end being a legitimate parked position.
pub open spec fn on_timeline(time: Time, total: Time) -> Time {
    if time.nanos <= total.nanos {
        time
    } else {
        total
    }
}

/// The lane's answer to one pointer event.
///
/// A press on the selected clip's trim handle starts a trim (handles sit on
/// the clip's edges, so they win over selection); a press on a clip selects
/// it; a press anywhere else starts scrubbing. While a drag is live, moves
/// seek or trim, and the release ends it, with one accurate seek for a
/// scrub.
pub open spec fn lane_step(
    interaction: Interaction,
    event: PointerEvent,
    at: Option<LaneAt>,
    total: Time,
) -> (Interaction, LaneAction) {
    match event {
        PointerEvent::Pressed => match at {
            None => (interaction, LaneAction::Pass),
            Some(p) => if p.in_clips && p.handle is Some {
                (p.handle->0, LaneAction::GestureBegan)
            } else if p.in_clips && p.clip is Some {
                (interaction, LaneAction::SelectClip(p.clip->0))
            } else {
                (
                    Interaction::ScrubbingPlayhead,
                    LaneAction::Seek { to: on_timeline(p.time, total), precise: false },
                )
            },
        },
        PointerEvent::Moved => match interaction {
            Interaction::Idle => (interaction, LaneAction::Pass),
            _ => match at {
                None => (interaction, LaneAction::Pass),
                Some(p) => match interaction {
                    Interaction::ScrubbingPlayhead => (
                        interaction,
                        LaneAction::Seek { to: on_timeline(p.time, total), precise: false },
                    ),
                    Interaction::TrimmingStart(i) => match p.trim_to {
                        Some(to) => (interaction, LaneAction::TrimStart { clip: i, to }),
                        None => (interaction, LaneAction::Pass),
                    },
                    Interaction::TrimmingEnd(i) => match p.trim_to {
                        Some(to) => (interaction, LaneAction::TrimEnd { clip: i, to }),
                        None => (interaction, LaneAction::Pass),
                    },
                    Interaction::Idle => (interaction, LaneAction::Pass),
                },
            },
        },
        PointerEvent::Released => match interaction {
            Interaction::Idle => (interaction, LaneAction::Pass),
            Interaction::ScrubbingPlayhead => match at {
                Some(p) => (
                    Interaction::Idle,
                    LaneAction::Seek { to: on_timeline(p.time, total), precise: true },
                ),
                None => (Interaction::Idle, LaneAction::GestureEnded),
            },
            _ => (Interaction::Idle, LaneAction::GestureEnded),
        },
        PointerEvent::Other => (interaction, LaneAction::Pass),
    }
}

/// Handle one pointer event on the lane. `total` is the timeline's
/// duration.
pub fn lane_pointer(
    interaction: &mut Interaction,
    event: PointerEvent,
    at: Option<LaneAt>,
    total: Time,
) -> (action: LaneAction)
    ensures
        (*final(interaction), action) == lane_step(*old(interaction), event, at, total),
{
    match event {
        PointerEvent::Pressed => {
            let p = match at {
                Some(p) => p,
                None => return LaneAction::Pass,
            };
            if p.in_clips {
                if let Some(handle) = p.handle {
                    *interaction = handle;
                    return LaneAction::GestureBegan;
                }
                if let Some(index) = p.clip {
                    return LaneAction::SelectClip(index);
                }
            }
            *interaction = Interaction::ScrubbingPlayhead;
            LaneAction::Seek { to: clamp_to_timeline(p.time, total), precise: false }
        },
        PointerEvent::Moved => {
            if *interaction == Interaction::Idle {
                return LaneAction::Pass;
            }
            let p = match at {
                Some(p) => p,
                None => return LaneAction::Pass,
            };
            match *interaction {
                Interaction::ScrubbingPlayhead => LaneAction::Seek {
                    to: clamp_to_timeline(p.time, total),
                    precise: false,
                },
                Interaction::TrimmingStart(i) => match p.trim_to {
                    Some(to) => LaneAction::TrimStart { clip: i, to },
                    None => LaneAction::Pass,
                },
                Interaction::TrimmingEnd(i) => match p.trim_to {
                    Some(to) => LaneAction::TrimEnd { clip: i, to },
                    None => LaneAction::Pass,
                },
                Interaction::Idle => LaneAction::Pass,
            }
        },
        PointerEvent::Released => {
            let was = *interaction;
            if was == Interaction::Idle {
                return LaneAction::Pass;
            }
            *interaction = Interaction::Idle;
            if was == Interaction::ScrubbingPlayhead {
                if let Some(p) = at {
                    return LaneAction::Seek { to: clamp_to_timeline(p.time, total), precise: true };
                }
            }
            LaneAction::GestureEnded
        },
        PointerEvent::Other => LaneAction::Pass,
    }
}

/// Clamp a playhead instant to the timeline: from the start to the end
/// inclusive.
pub fn clamp_to_timeline(time: Time, total: Time) -> (t: Time)
    ensures
        t == on_timeline(time, total),
{
    if time.as_nanos() <= total.as_nanos() {
        time
    } else {
        total
    }
}

/// **Every seek the lane asks for lands on the timeline,** from its start
/// to its end inclusive, whatever the pointer does.
pub proof fn law_lane_seeks_stay_on_the_timeline(
    interaction: Interaction,
    event: PointerEvent,
    at: Option<LaneAt>,
    total: Time,
)
    ensures
        lane_step(interaction, event, at, total).1 matches LaneAction::Seek { to, precise }
            ==> to.nanos <= total.nanos,
{
}

/// **A trim drag only ever trims the clip it began on,** and the edge it
/// grabbed: a move during `TrimmingStart(i)` reports nothing but a new
/// in-point for clip `i`, and `TrimmingEnd(i)` nothing but a new out-point.
pub proof fn law_a_trim_drag_keeps_to_its_clip(
    interaction: Interaction,
    at: Option<LaneAt>,
    total: Time,
)
    ensures
        ({
            let (next, action) = lane_step(interaction, PointerEvent::Moved, at, total);
            &&& next == interaction
            &&& interaction matches Interaction::TrimmingStart(i) ==> (action is Pass
                || (action matches LaneAction::TrimStart { clip, to } && clip == i))
            &&& interaction matches Interaction::TrimmingEnd(i) ==> (action is Pass
                || (action matches LaneAction::TrimEnd { clip, to } && clip == i))
        }),
{
}

/// **A live trim drag moves the edge it holds to where the pointer puts
/// it**: during `TrimmingStart(i)` a move that finds a place for the edge
/// reports exactly that in-point for clip `i`, during `TrimmingEnd(i)`
/// exactly that out-point, and only a move that finds no place (the clip
/// has gone, or the pointer is lost) reports nothing. The drag goes on.
pub proof fn law_a_trim_drag_follows_the_pointer(i: usize, p: LaneAt, total: Time)
    ensures
        lane_step(Interaction::TrimmingStart(i), PointerEvent::Moved, Some(p), total) == (
        Interaction::TrimmingStart(i),
        match p.trim_to {
            Some(to) => LaneAction::TrimStart { clip: i, to },
            None => LaneAction::Pass,
        },
        ),
        lane_step(Interaction::TrimmingEnd(i), PointerEvent::Moved, Some(p), total) == (
        Interaction::TrimmingEnd(i),
        match p.trim_to {
            Some(to) => LaneAction::TrimEnd { clip: i, to },
            None => LaneAction::Pass,
        },
        ),
        lane_step(Interaction::TrimmingStart(i), PointerEvent::Moved, None, total) == (
        Interaction::TrimmingStart(i),
        LaneAction::Pass,
        ),
        lane_step(Interaction::TrimmingEnd(i), PointerEvent::Moved, None, total) == (
        Interaction::TrimmingEnd(i),
        LaneAction::Pass,
        ),
{
}

/// **A live scrub follows the pointer**: while scrubbing, every move seeks
/// to the instant under the pointer, clamped to the timeline, with the
/// fast seek.
pub proof fn law_a_scrub_follows_the_pointer(p: LaneAt, total: Time)
    ensures
        lane_step(Interaction::ScrubbingPlayhead, PointerEvent::Moved, Some(p), total) == (
        Interaction::ScrubbingPlayhead,
        LaneAction::Seek {
            to: if p.time.nanos <= total.nanos {
                p.time
            } else {
                total
            },
            precise: false,
        },
        ),
{
}

/// **A release always returns the lane to idle,** and a release that
/// ends a drag reports the drag's end or, for a scrub, its accurate seek.
pub proof fn law_a_release_returns_the_lane_to_idle(
    interaction: Interaction,
    at: Option<LaneAt>,
    total: Time,
)
    ensures
        ({
            let (next, action) = lane_step(interaction, PointerEvent::Released, at, total);
            &&& next == Interaction::Idle
            &&& interaction != Interaction::Idle ==> (action is GestureEnded || (
            action matches LaneAction::Seek { to, precise } && precise))
        }),
{
}


/// The pointer shapes the timeline shows.
#[derive(Copy, Clone, PartialEq, Eq, Debug, Structural)]
pub enum Cursor {
    /// The platform's ordinary arrow.
    Idle,
    /// Something here is pressable.
    Pointer,
    /// Something here can be grabbed and dragged.
    Grab,
    /// Something is being dragged.
    Grabbing,
    /// An edge is, or can be, dragged sideways.
    ResizingHorizontally,
}

/// What lies under a pointer that is over the canvas, as the renderer's
/// hit tests found it.
#[derive(Copy, Clone, PartialEq, Eq, Debug, Structural)]
pub struct HoverAt {
    /// What the trim bar finds under the pointer; `Nothing` off its band
    /// or when the bar does not apply.
    pub bar: Grabbed,
    /// The pointer is on the selected clip's trim handle, in the clip row.
    pub on_trim_handle: bool,
    /// The pointer is over the ruler or the playhead cap's band.
    pub on_ruler: bool,
    /// The pointer is over a clip in the clip row.
    pub on_clip: bool,
}

/// The cursor the timeline shows. A drag in progress speaks first, the
/// lane's own before the trim bar's; then, over the canvas, whatever can be
/// grabbed under the pointer says so, the bar's handles first, so that a
/// scrubbable playhead that looks inert is not left undiscovered.
pub open spec fn lane_cursor_of(interaction: Interaction, grabbed: Grabbed, at: Option<HoverAt>) -> Cursor {
    match interaction {
        Interaction::TrimmingStart(_) | Interaction::TrimmingEnd(_) => Cursor::ResizingHorizontally,
        Interaction::ScrubbingPlayhead => Cursor::Grabbing,
        Interaction::Idle => match grabbed {
            Grabbed::Playhead => Cursor::Grabbing,
            Grabbed::In | Grabbed::Out => Cursor::ResizingHorizontally,
            Grabbed::Nothing => match at {
                None => Cursor::Idle,
                Some(h) => match h.bar {
                    Grabbed::Playhead => Cursor::Grab,
                    Grabbed::In | Grabbed::Out => Cursor::ResizingHorizontally,
                    Grabbed::Nothing => if h.on_trim_handle {
                        Cursor::ResizingHorizontally
                    } else if h.on_ruler {
                        Cursor::Grab
                    } else if h.on_clip {
                        Cursor::Pointer
                    } else {
                        Cursor::Idle
                    },
                },
            },
        },
    }
}

/// The cursor for the lane's drag state, the trim bar's grab, and what
/// lies under the pointer (`None` when it is off the canvas).
pub fn lane_cursor(interaction: Interaction, grabbed: Grabbed, at: Option<HoverAt>) -> (c: Cursor)
    ensures
        c == lane_cursor_of(interaction, grabbed, at),
{
    match interaction {
        Interaction::TrimmingStart(_) | Interaction::TrimmingEnd(_) => {
            return Cursor::ResizingHorizontally;
        },
        Interaction::ScrubbingPlayhead => {
            return Cursor::Grabbing;
        },
        Interaction::Idle => {},
    }
    match grabbed {
        Grabbed::Playhead => {
            return Cursor::Grabbing;
        },
        Grabbed::In | Grabbed::Out => {
            return Cursor::ResizingHorizontally;
        },
        Grabbed::Nothing => {},
    }
    let h = match at {
        Some(h) => h,
        None => return Cursor::Idle,
    };
    match h.bar {
        Grabbed::Playhead => Cursor::Grab,
        Grabbed::In | Grabbed::Out => Cursor::ResizingHorizontally,
        Grabbed::Nothing => if h.on_trim_handle {
            Cursor::ResizingHorizontally
        } else if h.on_ruler {
            Cursor::Grab
        } else if h.on_clip {
            Cursor::Pointer
        } else {
            Cursor::Idle
        },
    }
}

} // verus!

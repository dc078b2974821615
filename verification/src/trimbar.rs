//! The trim bar: cutting a range out of one long source.
//!
//! The bar maps the *whole source* onto its full width, so both handles are
//! always on screen for a five-second clip and a feature film alike. This
//! module holds the bar's rules in source time: how far each edge may go,
//! where the playhead may sit, and how the readout under the bar is
//! written. The pixel geometry and the drawing live with the renderer.
use vstd::prelude::*;
use crate::text::{dec, dec2, push_dec, push_dec2, push_str, string_of};
use crate::theme::Palette;
use crate::pointer::PointerEvent;
use crate::time::{Time, NANOS_PER_SEC};

verus! {

/// Which part of the bar the pointer has hold of.
#[derive(Debug, Clone, Copy, PartialEq, Eq, Structural)]
pub enum Grabbed {
    /// Nothing: the pointer is over the bare track or elsewhere.
    Nothing,
    /// The in-point handle.
    In,
    /// The out-point handle.
    Out,
    /// The red current-time mark itself, grabbed to scrub.
    Playhead,
}

impl Default for Grabbed {
    fn default() -> (g: Grabbed)
        ensures
            g == Grabbed::Nothing,
    {
        Grabbed::Nothing
    }
}

/// Everything the bar draws: the palette, the full source duration (the
/// bar's entire horizontal extent), the kept range, and the playhead in
/// SOURCE time.
pub struct TrimBarData<C> {
    pub palette: Palette<C>,
    pub source_duration: Time,
    pub in_point: Time,
    pub out_point: Time,
    pub playhead: Time,
}

/// The smallest range the bar lets a drag produce: a tenth of a second,
/// or the whole source if it is somehow shorter than that.
pub open spec fn min_span(source_nanos: nat) -> nat {
    let whole = if source_nanos >= 1 {
        source_nanos
    } else {
        1
    };
    if whole < 100_000_000 {
        whole
    } else {
        100_000_000
    }
}

impl<C> TrimBarData<C> {
    /// The smallest range the bar will let a drag produce, in source time.
    ///
    /// Without a floor, dragging one handle past the other inverts the
    /// range, and the drag would appear to simply stop working.
    pub fn min_span_nanos(&self) -> (n: u64)
        ensures
            n == min_span(self.source_duration.nanos as nat),
            1 <= n <= 100_000_000,
    {
        let whole = if self.source_duration.as_nanos() >= 1 {
            self.source_duration.as_nanos()
        } else {
            1
        };
        if whole < 100_000_000 {
            whole
        } else {
            100_000_000
        }
    }

    /// Clamp a proposed in-point so it stays a minimum span short of the
    /// out-point.
    pub fn clamp_in(&self, proposed: Time) -> (t: Time)
        ensures
            t.nanos == spec_clamp_in(*self, proposed),
    {
        let span = self.min_span_nanos();
        let max = self.out_point.as_nanos().saturating_sub(span);
        let n = if proposed.as_nanos() <= max {
            proposed.as_nanos()
        } else {
            max
        };
        Time::from_nanos(n)
    }

    /// Clamp a proposed out-point so it stays a minimum span past the
    /// in-point, and never past the end of the source.
    pub fn clamp_out(&self, proposed: Time) -> (t: Time)
        ensures
            t.nanos == spec_clamp_out(*self, proposed),
    {
        let span = self.min_span_nanos();
        let min = self.in_point.as_nanos().saturating_add(span);
        let raised = if proposed.as_nanos() >= min {
            proposed.as_nanos()
        } else {
            min
        };
        let capped = if raised <= self.source_duration.as_nanos() {
            raised
        } else {
            self.source_duration.as_nanos()
        };
        Time::from_nanos(capped)
    }

    /// The selected range's duration — the number the user is actually
    /// aiming at when cutting a clip. Zero, not a wrapped-around huge
    /// number, for an inverted range.
    pub fn range_duration(&self) -> (t: Time)
        ensures
            t.nanos == if self.out_point.nanos >= self.in_point.nanos {
                self.out_point.nanos - self.in_point.nanos
            } else {
                0
            },
    {
        Time::from_nanos(self.out_point.as_nanos().saturating_sub(self.in_point.as_nanos()))
    }

    /// Clamp a scrub target into the kept range.
    ///
    /// The playhead scrubs freely — but only within the clip. Outside it
    /// there is no frame to show.
    pub fn clamp_playhead(&self, proposed: Time) -> (t: Time)
        requires
            self.in_point.nanos <= self.out_point.nanos,
        ensures
            t == spec_clamp_playhead(*self, proposed),
    {
        let n = proposed.as_nanos();
        let clamped = if n < self.in_point.as_nanos() {
            self.in_point.as_nanos()
        } else if n > self.out_point.as_nanos() {
            self.out_point.as_nanos()
        } else {
            n
        };
        Time::from_nanos(clamped)
    }
}

/// **The two edges cannot cross.** A clamped in-point stays a full
/// minimum span before the out-point, and a clamped out-point a full span
/// after the in-point (short of the end of the source, which it never
/// passes), however far the pointer is dragged.
pub proof fn law_handles_cannot_cross<C>(data: TrimBarData<C>, proposed: Time)
    ensures
        ({
            let span = min_span(data.source_duration.nanos as nat);
            &&& spec_clamp_in(data, proposed) <= data.out_point.nanos
            &&& data.out_point.nanos >= span ==> spec_clamp_in(data, proposed) + span
                <= data.out_point.nanos
            &&& spec_clamp_out(data, proposed) <= data.source_duration.nanos
            &&& data.in_point.nanos + span <= data.source_duration.nanos ==> data.in_point.nanos
                + span <= spec_clamp_out(data, proposed)
        }),
{
}

/// The in-point `clamp_in` yields.
pub open spec fn spec_clamp_in<C>(data: TrimBarData<C>, proposed: Time) -> int {
    let span = min_span(data.source_duration.nanos as nat);
    let max = if data.out_point.nanos >= span {
        data.out_point.nanos - span
    } else {
        0
    };
    if proposed.nanos <= max {
        proposed.nanos as int
    } else {
        max
    }
}

/// The out-point `clamp_out` yields.
pub open spec fn spec_clamp_out<C>(data: TrimBarData<C>, proposed: Time) -> int {
    let span = min_span(data.source_duration.nanos as nat);
    let min = if data.in_point.nanos + span <= u64::MAX {
        data.in_point.nanos + span
    } else {
        u64::MAX as int
    };
    let raised = if proposed.nanos >= min {
        proposed.nanos as int
    } else {
        min
    };
    if raised <= data.source_duration.nanos {
        raised
    } else {
        data.source_duration.nanos as int
    }
}

/// **The playhead is never left outside the clip by a scrub**: whatever
/// instant is asked for, the clamped playhead lies within the kept range,
/// and one already inside it is left exactly where it is.
pub proof fn law_scrub_stays_in_the_kept_range<C>(data: TrimBarData<C>, proposed: Time)
    requires
        data.in_point.nanos <= data.out_point.nanos,
    ensures
        data.in_point.nanos <= spec_clamp_playhead(data, proposed).nanos <= data.out_point.nanos,
        data.in_point.nanos <= proposed.nanos <= data.out_point.nanos ==> spec_clamp_playhead(
            data,
            proposed,
        ) == proposed,
{
}

/// The readout's text for `nanos`: `M:SS` below an hour, `H:MM:SS` from an
/// hour on.
pub open spec fn duration_text(nanos: nat) -> Seq<char> {
    let total = nanos / 1_000_000_000;
    let h = total / 3600;
    let m = (total / 60) % 60;
    let s = total % 60;
    if h > 0 {
        dec(h) + seq![':'] + dec2(m) + seq![':'] + dec2(s)
    } else {
        dec(m) + seq![':'] + dec2(s)
    }
}

/// Compact `M:SS` / `H:MM:SS` for the readout under the bar. This control
/// is about *which part of the file*, and frame numbers at this scale are
/// noise; the frame-accurate readout lives on the viewport.
pub fn fmt_duration(time: Time) -> (s: String)
    ensures
        s@ == duration_text(time.nanos as nat),
{
    let total = time.whole_secs();
    let h = total / 3600;
    let m = (total / 60) % 60;
    let sec = total % 60;
    let mut v: Vec<char> = Vec::new();
    if h > 0 {
        push_dec(&mut v, h);
        v.push(':');
        push_dec2(&mut v, m);
        v.push(':');
        push_dec2(&mut v, sec);
    } else {
        push_dec(&mut v, m);
        v.push(':');
        push_dec2(&mut v, sec);
    }
    let s = string_of(&v);
    assert(s@ =~= duration_text(time.nanos as nat));
    s
}

impl<C> TrimBarData<C> {
    /// The in-point a keyboard "start here" sets: the playhead, through the
    /// same clamp a drag uses. `None` when the edge is already there, so
    /// the key takes no undo step that would undo nothing.
    pub fn keyboard_in(&self, playhead: Time) -> (r: Option<Time>)
        ensures
            r matches Some(t) ==> t.nanos == spec_clamp_in(*self, playhead) && t.nanos
                != self.in_point.nanos,
            r is None ==> spec_clamp_in(*self, playhead) == self.in_point.nanos,
    {
        let target = self.clamp_in(playhead);
        if target.as_nanos() == self.in_point.as_nanos() {
            None
        } else {
            Some(target)
        }
    }

    /// The out-point a keyboard "end here" sets, likewise.
    pub fn keyboard_out(&self, playhead: Time) -> (r: Option<Time>)
        ensures
            r matches Some(t) ==> t.nanos == spec_clamp_out(*self, playhead) && t.nanos
                != self.out_point.nanos,
            r is None ==> spec_clamp_out(*self, playhead) == self.out_point.nanos,
    {
        let target = self.clamp_out(playhead);
        if target.as_nanos() == self.out_point.as_nanos() {
            None
        } else {
            Some(target)
        }
    }
}


/// How many pointer events a caught drag is held for at the least, however
/// far the pointer travels. Travel alone cannot serve both drag speeds: a
/// fast flick clears any small distance within one event, so the stop
/// counts events too.
pub const DETENT_HOLD_EVENTS: u32 = 6;

/// The stop's memory of one handle drag, in whole pointer events. The
/// renderer keeps the pixel half of that memory (where the pointer was,
/// and where the stop caught it) beside this.
#[derive(Debug, Clone, Copy, PartialEq, Eq, Structural)]
pub struct DragLatch {
    /// True once the stop has caught this drag and is holding it.
    pub caught: bool,
    /// How many pointer events the stop has been holding for.
    pub held_events: u32,
}

impl Default for DragLatch {
    /// A fresh gesture: nothing caught, nothing held.
    fn default() -> (l: DragLatch)
        ensures
            !l.caught,
            l.held_events == 0,
    {
        DragLatch { caught: false, held_events: 0 }
    }
}

/// What one pointer event's motion did relative to the playhead, as the
/// renderer measured it in pixels along the direction of travel.
#[derive(Debug, Clone, Copy, PartialEq, Eq, Structural)]
pub struct Motion {
    /// The pointer was short of the playhead at the previous event of this
    /// drag and is level with it or beyond it now.
    pub crossed: bool,
    /// The pointer has travelled further than the escape distance beyond
    /// the point where the stop caught it.
    pub escaped: bool,
}

/// Where a dragged edge lands, and what it does to the playhead.
#[derive(Debug, Clone, Copy, PartialEq, Eq, Structural)]
pub struct Resolution {
    /// Where the dragged edge should land.
    pub edge: Time,
    /// Where the playhead must be pushed to, when the edge has gone past
    /// it; `None` leaves the playhead exactly where the user parked it.
    pub push_playhead: Option<Time>,
    /// The edge rests against the playhead, held there by the stop.
    pub detented: bool,
}

/// Moving freely, not touching the playhead.
pub open spec fn free(edge: Time) -> Resolution {
    Resolution { edge, push_playhead: None, detented: false }
}

/// Pushed through the stop: the playhead comes along.
pub open spec fn pushed(edge: Time) -> Resolution {
    Resolution { edge, push_playhead: Some(edge), detented: false }
}

/// Resting on the playhead.
pub open spec fn detented(playhead: Time) -> Resolution {
    Resolution { edge: playhead, push_playhead: None, detented: true }
}

/// The rolling stop, the same for both edges once distances are measured
/// as travel past the playhead: a caught drag is held until it has both
/// travelled the escape distance and lasted `DETENT_HOLD_EVENTS` events; a
/// free drag is caught when its motion crosses the playhead; otherwise the
/// edge moves freely while short of the playhead and pushes it once past.
pub open spec fn against_stop(
    latch: DragLatch,
    motion: Motion,
    clamped: Time,
    playhead: Time,
    short_of: bool,
) -> (Resolution, DragLatch) {
    if latch.caught {
        let held: u32 = if latch.held_events < u32::MAX {
            (latch.held_events + 1) as u32
        } else {
            u32::MAX
        };
        if motion.escaped && held >= DETENT_HOLD_EVENTS {
            (pushed(clamped), DragLatch { caught: false, held_events: 0 })
        } else {
            (detented(playhead), DragLatch { caught: true, held_events: held })
        }
    } else if motion.crossed {
        (detented(playhead), DragLatch { caught: true, held_events: latch.held_events })
    } else if short_of {
        (free(clamped), latch)
    } else {
        (pushed(clamped), latch)
    }
}

/// An in-point drag: the proposal is clamped like any in-point; an edge
/// that has already overtaken the playhead (outside a hold) carries it
/// along; otherwise the stop decides, the in-point being short of the
/// playhead while it is at or before it.
pub open spec fn in_drag<C>(
    data: TrimBarData<C>,
    proposed: Time,
    motion: Motion,
    latch: DragLatch,
) -> (Resolution, DragLatch) {
    let clamped = Time { nanos: spec_clamp_in(data, proposed) as u64 };
    let head = data.playhead.nanos;
    if !latch.caught && head <= data.in_point.nanos && head < clamped.nanos {
        (pushed(clamped), latch)
    } else {
        against_stop(latch, motion, clamped, data.playhead, clamped.nanos <= head)
    }
}

/// An out-point drag: the mirror image of `in_drag`, approaching the
/// playhead from the right.
pub open spec fn out_drag<C>(
    data: TrimBarData<C>,
    proposed: Time,
    motion: Motion,
    latch: DragLatch,
) -> (Resolution, DragLatch) {
    let clamped = Time { nanos: spec_clamp_out(data, proposed) as u64 };
    let head = data.playhead.nanos;
    if !latch.caught && head >= data.out_point.nanos && head > clamped.nanos {
        (pushed(clamped), latch)
    } else {
        against_stop(latch, motion, clamped, data.playhead, clamped.nanos >= head)
    }
}

/// The direction-agnostic heart of the stop; see `against_stop`.
fn resolve_against_stop(
    clamped: Time,
    motion: Motion,
    latch: &mut DragLatch,
    playhead: Time,
    short_of: bool,
) -> (r: Resolution)
    ensures
        (r, *final(latch)) == against_stop(*old(latch), motion, clamped, playhead, short_of),
{
    if latch.caught {
        latch.held_events = latch.held_events.saturating_add(1);
        if motion.escaped && latch.held_events >= DETENT_HOLD_EVENTS {
            latch.caught = false;
            latch.held_events = 0;
            return Resolution { edge: clamped, push_playhead: Some(clamped), detented: false };
        }
        return Resolution { edge: playhead, push_playhead: None, detented: true };
    }
    if motion.crossed {
        latch.caught = true;
        return Resolution { edge: playhead, push_playhead: None, detented: true };
    }
    if short_of {
        Resolution { edge: clamped, push_playhead: None, detented: false }
    } else {
        Resolution { edge: clamped, push_playhead: Some(clamped), detented: false }
    }
}

impl<C> TrimBarData<C> {
    /// Resolve an in-point drag against the playhead.
    ///
    /// Three rules, in priority order: the playhead does not move when an
    /// edge moves; an edge stops at the playhead; pushing on past the stop
    /// moves the two together, so the playhead is never left outside the
    /// clip.
    pub fn resolve_in_drag(&self, proposed: Time, motion: Motion, latch: &mut DragLatch) -> (r:
        Resolution)
        ensures
            (r, *final(latch)) == in_drag(*self, proposed, motion, *old(latch)),
    {
        let clamped = self.clamp_in(proposed);
        let head = self.playhead.as_nanos();
        // The overtake guard is skipped while caught: the committed edge
        // then rests *on* the playhead, and reading that as "already
        // overtaken" would release the stop after a single event.
        if !latch.caught && head <= self.in_point.as_nanos() && head < clamped.as_nanos() {
            return Resolution { edge: clamped, push_playhead: Some(clamped), detented: false };
        }
        let short_of = clamped.as_nanos() <= head;
        resolve_against_stop(clamped, motion, latch, self.playhead, short_of)
    }

    /// Resolve an out-point drag against the playhead: the mirror image of
    /// `resolve_in_drag`.
    pub fn resolve_out_drag(&self, proposed: Time, motion: Motion, latch: &mut DragLatch) -> (r:
        Resolution)
        ensures
            (r, *final(latch)) == out_drag(*self, proposed, motion, *old(latch)),
    {
        let clamped = self.clamp_out(proposed);
        let head = self.playhead.as_nanos();
        if !latch.caught && head >= self.out_point.as_nanos() && head > clamped.as_nanos() {
            return Resolution { edge: clamped, push_playhead: Some(clamped), detented: false };
        }
        let short_of = clamped.as_nanos() >= head;
        resolve_against_stop(clamped, motion, latch, self.playhead, short_of)
    }
}

/// Where the playhead stands after a resolution.
pub open spec fn playhead_after(r: Resolution, playhead: Time) -> Time {
    match r.push_playhead {
        Some(p) => p,
        None => playhead,
    }
}

/// A bar whose playhead lies inside its kept range, which lies inside
/// the source.
pub open spec fn well_formed<C>(data: TrimBarData<C>) -> bool {
    data.in_point.nanos <= data.playhead.nanos <= data.out_point.nanos
        <= data.source_duration.nanos
}

/// **However an edge is dragged, the playhead ends up inside the clip.**
/// For every proposal, pointer motion and state of the stop, the
/// playhead after an in-point drag lies between the new in-point and the
/// out-point, and after an out-point drag between the in-point and the
/// new out-point.
pub proof fn law_a_drag_never_leaves_the_playhead_outside_the_clip<C>(
    data: TrimBarData<C>,
    proposed: Time,
    motion: Motion,
    latch: DragLatch,
)
    requires
        well_formed(data),
    ensures
        ({
            let r = in_drag(data, proposed, motion, latch).0;
            r.edge.nanos <= playhead_after(r, data.playhead).nanos <= data.out_point.nanos
        }),
        ({
            let r = out_drag(data, proposed, motion, latch).0;
            data.in_point.nanos <= playhead_after(r, data.playhead).nanos <= r.edge.nanos
        }),
{
}

/// **Moving an edge away from the playhead never moves it.** Outside a
/// hold, and unless the motion crosses the playhead, an in-point dragged
/// to or before the playhead, or an out-point dragged to or after it,
/// moves freely to its clamped place and leaves the playhead alone.
pub proof fn law_an_edge_moved_away_leaves_the_playhead<C>(
    data: TrimBarData<C>,
    proposed: Time,
    motion: Motion,
    latch: DragLatch,
)
    requires
        well_formed(data),
        !latch.caught,
        !motion.crossed,
    ensures
        proposed.nanos <= data.playhead.nanos ==> in_drag(data, proposed, motion, latch).0 == free(
            Time { nanos: spec_clamp_in(data, proposed) as u64 },
        ),
        proposed.nanos >= data.playhead.nanos ==> out_drag(data, proposed, motion, latch).0
            == free(Time { nanos: spec_clamp_out(data, proposed) as u64 }),
{
}

/// **Once caught, the stop holds the edge on the playhead, and lets go
/// only when the pointer has both travelled the escape distance and kept
/// at it for `DETENT_HOLD_EVENTS` events;** on letting go the edge carries
/// the playhead with it. For either edge.
pub proof fn law_the_stop_holds_before_it_lets_go<C>(
    data: TrimBarData<C>,
    proposed: Time,
    motion: Motion,
    latch: DragLatch,
)
    requires
        latch.caught,
    ensures
        ({
            let (r, l) = in_drag(data, proposed, motion, latch);
            &&& !l.caught <==> (motion.escaped && latch.held_events + 1 >= DETENT_HOLD_EVENTS)
            &&& l.caught ==> r == detented(data.playhead)
            &&& !l.caught ==> r.push_playhead == Some(r.edge)
        }),
        ({
            let (r, l) = out_drag(data, proposed, motion, latch);
            &&& !l.caught <==> (motion.escaped && latch.held_events + 1 >= DETENT_HOLD_EVENTS)
            &&& l.caught ==> r == detented(data.playhead)
            &&& !l.caught ==> r.push_playhead == Some(r.edge)
        }),
{
}

/// **A free handle is caught only by crossing the playhead:** without a
/// crossing, a drag the stop is not holding stays free, so a handle that
/// broke through is not caught again by the line it just passed.
pub proof fn law_a_free_handle_is_caught_only_by_crossing<C>(
    data: TrimBarData<C>,
    proposed: Time,
    motion: Motion,
    latch: DragLatch,
)
    requires
        !latch.caught,
        !motion.crossed,
    ensures
        !in_drag(data, proposed, motion, latch).1.caught,
        !out_drag(data, proposed, motion, latch).1.caught,
        !in_drag(data, proposed, motion, latch).0.detented,
        !out_drag(data, proposed, motion, latch).0.detented,
{
}


/// Where the pointer is, as the renderer measured it in pixels.
#[derive(Debug, Clone, Copy, PartialEq, Eq, Structural)]
pub struct PointerAt {
    /// The pointer is over the bar's own band.
    pub in_band: bool,
    /// What the bar's hit test finds under the pointer.
    pub handle: Grabbed,
    /// The source instant under the pointer, clamped into the source.
    pub raw: Time,
    /// This event's motion relative to the playhead, for a live edge drag.
    pub motion: Motion,
}

/// The bar's pointer state, kept between events.
#[derive(Debug, Clone, Copy, PartialEq, Eq, Structural)]
pub struct BarPointer {
    /// What the pointer has hold of.
    pub grabbed: Grabbed,
    /// What the pointer is over, for the hover affordance.
    pub hovered: Grabbed,
    /// The stop's memory of the current edge drag.
    pub latch: DragLatch,
}

/// What the bar does with one pointer event.
#[derive(Debug, Clone, Copy, PartialEq, Eq, Structural)]
pub enum BarAction {
    /// Not the bar's event: whatever lies underneath handles it.
    Pass,
    /// Only the hover affordance changed: draw again.
    Redraw,
    /// Move the playhead; `precise` asks for the accurate seek.
    Scrub { to: Time, precise: bool },
    /// An edge drag began.
    GestureBegan,
    /// The in-point moved.
    SetIn(Resolution),
    /// The out-point moved.
    SetOut(Resolution),
    /// The drag ended.
    GestureEnded,
}

/// The playhead `clamp_playhead` yields.
pub open spec fn spec_clamp_playhead<C>(data: TrimBarData<C>, proposed: Time) -> Time {
    if proposed.nanos < data.in_point.nanos {
        data.in_point
    } else if proposed.nanos > data.out_point.nanos {
        data.out_point
    } else {
        proposed
    }
}

/// A fresh drag memory.
pub open spec fn fresh_latch() -> DragLatch {
    DragLatch { caught: false, held_events: 0 }
}

/// The bar's answer to one pointer event.
///
/// A press on the bare track scrubs there (accurately, it is one seek); a
/// press on the red mark grabs it and scrubs; a press on an edge grabs it
/// and begins a gesture, with a fresh stop. While something is grabbed the
/// bar owns the pointer wherever it wanders: moves resolve the edge drag
/// or scrub, always inside the kept range, and the release ends the
/// gesture. With nothing grabbed, moves only track the hover.
pub open spec fn bar_step<C>(
    data: TrimBarData<C>,
    st: BarPointer,
    event: PointerEvent,
    at: Option<PointerAt>,
) -> (BarPointer, BarAction) {
    match event {
        PointerEvent::Pressed => match at {
            Some(p) => if !p.in_band {
                (st, BarAction::Pass)
            } else {
                match p.handle {
                    Grabbed::Nothing => (
                        st,
                        BarAction::Scrub { to: spec_clamp_playhead(data, p.raw), precise: true },
                    ),
                    Grabbed::Playhead => (
                        BarPointer {
                            grabbed: Grabbed::Playhead,
                            hovered: st.hovered,
                            latch: fresh_latch(),
                        },
                        BarAction::Scrub { to: spec_clamp_playhead(data, p.raw), precise: false },
                    ),
                    edge => (
                        BarPointer { grabbed: edge, hovered: st.hovered, latch: fresh_latch() },
                        BarAction::GestureBegan,
                    ),
                }
            },
            None => (st, BarAction::Pass),
        },
        PointerEvent::Moved => if st.grabbed == Grabbed::Nothing {
            let hovered = match at {
                Some(p) => if p.in_band {
                    p.handle
                } else {
                    Grabbed::Nothing
                },
                None => Grabbed::Nothing,
            };
            if hovered != st.hovered {
                (
                    BarPointer { grabbed: st.grabbed, hovered, latch: st.latch },
                    BarAction::Redraw,
                )
            } else {
                (st, BarAction::Pass)
            }
        } else {
            match at {
                Some(p) => match st.grabbed {
                    Grabbed::In => {
                        let (r, l) = in_drag(data, p.raw, p.motion, st.latch);
                        (
                            BarPointer { grabbed: st.grabbed, hovered: st.hovered, latch: l },
                            BarAction::SetIn(r),
                        )
                    },
                    Grabbed::Out => {
                        let (r, l) = out_drag(data, p.raw, p.motion, st.latch);
                        (
                            BarPointer { grabbed: st.grabbed, hovered: st.hovered, latch: l },
                            BarAction::SetOut(r),
                        )
                    },
                    Grabbed::Playhead => (
                        st,
                        BarAction::Scrub { to: spec_clamp_playhead(data, p.raw), precise: false },
                    ),
                    Grabbed::Nothing => (st, BarAction::Pass),
                },
                None => (st, BarAction::Pass),
            }
        },
        PointerEvent::Released => if st.grabbed == Grabbed::Nothing {
            (st, BarAction::Pass)
        } else {
            (
                BarPointer { grabbed: Grabbed::Nothing, hovered: st.hovered, latch: fresh_latch() },
                BarAction::GestureEnded,
            )
        },
        PointerEvent::Other => (st, BarAction::Pass),
    }
}

/// Handle one pointer event on the bar. `data` is `None` when the bar does
/// not apply (a timeline of more than one clip): then any grab is dropped
/// and the event passes through.
pub fn pointer_step<C>(
    data: Option<&TrimBarData<C>>,
    state: &mut BarPointer,
    event: PointerEvent,
    at: Option<PointerAt>,
) -> (action: BarAction)
    requires
        data matches Some(d) ==> d.in_point.nanos <= d.out_point.nanos,
    ensures
        data is None ==> action == BarAction::Pass && *final(state) == (BarPointer {
            grabbed: Grabbed::Nothing,
            hovered: old(state).hovered,
            latch: old(state).latch,
        }),
        data matches Some(d) ==> (*final(state), action) == bar_step(*d, *old(state), event, at),
{
    let d = match data {
        Some(d) => d,
        None => {
            state.grabbed = Grabbed::Nothing;
            return BarAction::Pass;
        },
    };
    match event {
        PointerEvent::Pressed => {
            let p = match at {
                Some(p) => p,
                None => return BarAction::Pass,
            };
            if !p.in_band {
                return BarAction::Pass;
            }
            match p.handle {
                Grabbed::Nothing => BarAction::Scrub { to: d.clamp_playhead(p.raw), precise: true },
                Grabbed::Playhead => {
                    state.grabbed = Grabbed::Playhead;
                    state.latch = DragLatch { caught: false, held_events: 0 };
                    BarAction::Scrub { to: d.clamp_playhead(p.raw), precise: false }
                },
                edge => {
                    state.grabbed = edge;
                    state.latch = DragLatch { caught: false, held_events: 0 };
                    BarAction::GestureBegan
                },
            }
        },
        PointerEvent::Moved => {
            if state.grabbed == Grabbed::Nothing {
                let hovered = match at {
                    Some(p) => if p.in_band {
                        p.handle
                    } else {
                        Grabbed::Nothing
                    },
                    None => Grabbed::Nothing,
                };
                if hovered != state.hovered {
                    state.hovered = hovered;
                    return BarAction::Redraw;
                }
                return BarAction::Pass;
            }
            let p = match at {
                Some(p) => p,
                None => return BarAction::Pass,
            };
            match state.grabbed {
                Grabbed::In => {
                    let r = d.resolve_in_drag(p.raw, p.motion, &mut state.latch);
                    BarAction::SetIn(r)
                },
                Grabbed::Out => {
                    let r = d.resolve_out_drag(p.raw, p.motion, &mut state.latch);
                    BarAction::SetOut(r)
                },
                Grabbed::Playhead => BarAction::Scrub {
                    to: d.clamp_playhead(p.raw),
                    precise: false,
                },
                Grabbed::Nothing => BarAction::Pass,
            }
        },
        PointerEvent::Released => {
            if state.grabbed == Grabbed::Nothing {
                return BarAction::Pass;
            }
            state.grabbed = Grabbed::Nothing;
            state.latch = DragLatch { caught: false, held_events: 0 };
            BarAction::GestureEnded
        },
        PointerEvent::Other => BarAction::Pass,
    }
}

/// **Every scrub the bar asks for lands inside the kept range,** whatever
/// the pointer does and wherever it is.
pub proof fn law_bar_scrubs_stay_in_the_kept_range<C>(
    data: TrimBarData<C>,
    st: BarPointer,
    event: PointerEvent,
    at: Option<PointerAt>,
)
    requires
        data.in_point.nanos <= data.out_point.nanos,
    ensures
        bar_step(data, st, event, at).1 matches BarAction::Scrub { to, precise } ==> data.in_point.nanos
            <= to.nanos <= data.out_point.nanos,
{
}

/// **A grabbed edge is dragged by every move**: while the in-point is held,
/// a move with a pointer position resolves an in-point drag to the instant
/// under the pointer and reports it, the stop's memory carried on; a held
/// out-point likewise. Nothing else of the bar's state changes.
pub proof fn law_a_held_edge_is_dragged_by_every_move<C>(
    data: TrimBarData<C>,
    st: BarPointer,
    p: PointerAt,
)
    ensures
        st.grabbed == Grabbed::In ==> bar_step(data, st, PointerEvent::Moved, Some(p)) == (
        BarPointer { latch: in_drag(data, p.raw, p.motion, st.latch).1, ..st },
        BarAction::SetIn(in_drag(data, p.raw, p.motion, st.latch).0),
        ),
        st.grabbed == Grabbed::Out ==> bar_step(data, st, PointerEvent::Moved, Some(p)) == (
        BarPointer { latch: out_drag(data, p.raw, p.motion, st.latch).1, ..st },
        BarAction::SetOut(out_drag(data, p.raw, p.motion, st.latch).0),
        ),
{
}

/// **A free drag puts the edge under the pointer**: with the stop not
/// holding and the motion not crossing the playhead, a held in-point moved
/// to an instant at or before the playhead and a tenth of a second or more
/// short of the out-point lands exactly there, and a held out-point moved
/// to an instant at or after the playhead, a tenth of a second or more past
/// the in-point and inside the source, lands exactly there. The playhead
/// stays where it is.
pub proof fn law_a_free_drag_puts_the_edge_under_the_pointer<C>(
    data: TrimBarData<C>,
    st: BarPointer,
    p: PointerAt,
)
    requires
        well_formed(data),
        !st.latch.caught,
        !p.motion.crossed,
    ensures
        st.grabbed == Grabbed::In && p.raw.nanos <= data.playhead.nanos && p.raw.nanos
            + 100_000_000 <= data.out_point.nanos ==> bar_step(
            data,
            st,
            PointerEvent::Moved,
            Some(p),
        ).1 == BarAction::SetIn(Resolution { edge: p.raw, push_playhead: None, detented: false }),
        st.grabbed == Grabbed::Out && p.raw.nanos >= data.playhead.nanos && p.raw.nanos
            >= data.in_point.nanos + 100_000_000 && p.raw.nanos <= data.source_duration.nanos
            ==> bar_step(data, st, PointerEvent::Moved, Some(p)).1 == BarAction::SetOut(
            Resolution { edge: p.raw, push_playhead: None, detented: false },
        ),
{
}

/// **A release lets go of everything:** after it nothing is grabbed, and
/// a release that ends a grab ends the gesture with the stop released.
pub proof fn law_a_release_lets_go<C>(data: TrimBarData<C>, st: BarPointer, at: Option<PointerAt>)
    ensures
        bar_step(data, st, PointerEvent::Released, at).0.grabbed == Grabbed::Nothing,
        st.grabbed != Grabbed::Nothing ==> bar_step(data, st, PointerEvent::Released, at)
            == (BarPointer { grabbed: Grabbed::Nothing, hovered: st.hovered, latch: fresh_latch() },
        BarAction::GestureEnded),
{
}

/// **A grab starts with a fresh stop:** pressing on an edge or on the red
/// mark grabs it with nothing caught, so a stop latched in an earlier drag
/// cannot leave the next one stuck.
pub proof fn law_a_grab_starts_with_a_fresh_stop<C>(data: TrimBarData<C>, st: BarPointer, p: PointerAt)
    requires
        p.in_band,
        p.handle != Grabbed::Nothing,
    ensures
        bar_step(data, st, PointerEvent::Pressed, Some(p)).0.grabbed == p.handle,
        bar_step(data, st, PointerEvent::Pressed, Some(p)).0.latch == fresh_latch(),
{
}

} // verus!

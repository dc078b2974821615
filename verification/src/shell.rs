//! The shell's own state machine and readouts: which plates are open, the
//! inspector tabs, the transport's stepping, the Adjust sliders' keyboard
//! nudge, the keyboard reference, and the text the window shows for
//! filenames and timecodes.
//!
//! The edit model itself (clips, undo history) lives elsewhere; what is
//! here is every decision the window makes on its own.
use vstd::prelude::*;
use crate::text::{chars_of, dec2, push_dec2, push_str, push_chars, slice, string_of};
use crate::theme::{other_mode, Mode};
use crate::time::Time;

verus! {

/// Which inspector tab is showing: "three labels in a row".
#[derive(Copy, Clone, PartialEq, Eq, Debug, Structural)]
pub enum InspectorTab {
    Video,
    Crop,
    Adjust,
}

impl Default for InspectorTab {
    fn default() -> (t: InspectorTab)
        ensures
            t == InspectorTab::Video,
    {
        InspectorTab::Video
    }
}

pub open spec fn tab_label(tab: InspectorTab) -> Seq<char> {
    match tab {
        InspectorTab::Video => "Video"@,
        InspectorTab::Crop => "Crop"@,
        InspectorTab::Adjust => "Adjust"@,
    }
}

impl InspectorTab {
    pub const ALL: [InspectorTab; 3] = [InspectorTab::Video, InspectorTab::Crop, InspectorTab::Adjust];

    pub fn label(self) -> (s: &'static str)
        ensures
            s@ == tab_label(self),
    {
        match self {
            InspectorTab::Video => "Video",
            InspectorTab::Crop => "Crop",
            InspectorTab::Adjust => "Adjust",
        }
    }
}

/// Which of the five Adjust sliders a message refers to. A closed enum,
/// matching the product's hard cap: "Five sliders, nothing else, ever."
#[derive(Copy, Clone, PartialEq, Eq, Debug, Structural)]
pub enum AdjustField {
    Smooth,
    Tint,
    SkinTone,
    BlueTone,
    Vignette,
}

pub open spec fn adjust_label(field: AdjustField) -> Seq<char> {
    match field {
        AdjustField::Smooth => "Smooth"@,
        AdjustField::Tint => "Tint"@,
        AdjustField::SkinTone => "Skin tone"@,
        AdjustField::BlueTone => "Blue tone"@,
        AdjustField::Vignette => "Vignette"@,
    }
}

impl AdjustField {
    pub const ALL: [AdjustField; 5] = [
        AdjustField::Smooth,
        AdjustField::Tint,
        AdjustField::SkinTone,
        AdjustField::BlueTone,
        AdjustField::Vignette,
    ];

    pub fn label(self) -> (s: &'static str)
        ensures
            s@ == adjust_label(self),
    {
        match self {
            AdjustField::Smooth => "Smooth",
            AdjustField::Tint => "Tint",
            AdjustField::SkinTone => "Skin tone",
            AdjustField::BlueTone => "Blue tone",
            AdjustField::Vignette => "Vignette",
        }
    }
}

/// The top of every Adjust slider's range.
pub const ADJUST_MAX: u8 = 100;

/// An Adjust slider's value after one keyboard nudge of `delta`: it steps
/// up to the top of the range and, pressed again there, wraps to zero, so
/// the key alone can reach every value.
pub fn nudged(current: u8, delta: u8) -> (next: u8)
    requires
        current < 100 ==> current + delta <= 255,
    ensures
        next == if current >= 100 {
            0
        } else if current + delta <= 100 {
            (current + delta) as int
        } else {
            100
        },
        next <= 100,
{
    if current >= ADJUST_MAX {
        0
    } else {
        let sum = current + delta;
        if sum <= ADJUST_MAX {
            sum
        } else {
            ADJUST_MAX
        }
    }
}

// ---------------------------------------------------------------------
// The plates
// ---------------------------------------------------------------------

/// The window's own state: appearance, which plates are open, and the
/// transport's play flag.
#[derive(Debug, Clone)]
pub struct Chrome {
    pub mode: Mode,
    pub tab: InspectorTab,
    /// Whether the inspector plate is showing. It starts closed: the first
    /// thing anyone does with a freshly opened video is watch it and set a
    /// range, neither of which needs the panel.
    pub inspector_open: bool,
    /// Whether the HeaderBar's primary menu is open.
    pub menu_open: bool,
    /// Whether the keyboard reference is open.
    pub shortcuts_open: bool,
    pub playing: bool,
    /// Whether the user has moved a trim edge in this session; retires the
    /// one-time trim hint.
    pub has_trimmed: bool,
    /// A message shown in the titlebar.
    pub status: Option<String>,
}

/// The status line explaining that an appearance toggle changed nothing.
pub open spec fn one_palette_note() -> Seq<char> {
    "This theme sets one palette for both appearances, so light and dark look the same."@
}

impl Chrome {
    /// A fresh window: dark, on the Video tab, every plate closed.
    pub fn new() -> (c: Chrome)
        ensures
            c.mode == Mode::Dark,
            c.tab == InspectorTab::Video,
            !c.inspector_open,
            !c.menu_open,
            !c.shortcuts_open,
            !c.playing,
            !c.has_trimmed,
            c.status is None,
    {
        Chrome {
            mode: Mode::Dark,
            tab: InspectorTab::Video,
            inspector_open: false,
            menu_open: false,
            shortcuts_open: false,
            playing: false,
            has_trimmed: false,
            status: None,
        }
    }

    /// Flip the appearance. Under a theme that uses one palette for both
    /// modes the flip changes no pixels, so it says why rather than
    /// swallowing the press. The menu dismisses on activation.
    pub fn toggle_mode(&mut self, one_palette: bool)
        ensures
            *final(self) == (Chrome {
                mode: other_mode(old(self).mode),
                menu_open: false,
                status: final(self).status,
                ..*old(self)
            }),
            one_palette ==> (final(self).status matches Some(s) && s@ == one_palette_note()),
            !one_palette ==> final(self).status == old(self).status,
    {
        self.mode = self.mode.toggled();
        if one_palette {
            let note = chars_of(
                "This theme sets one palette for both appearances, so light and dark look the same.",
            );
            self.status = Some(string_of(&note));
        }
        self.menu_open = false;
    }

    /// Open or close the primary menu.
    pub fn toggle_menu(&mut self)
        ensures
            *final(self) == (Chrome { menu_open: !old(self).menu_open, ..*old(self) }),
    {
        self.menu_open = !self.menu_open;
    }

    /// Show a tab's panel, or hide the panel if that tab is already the one
    /// showing: one button, both directions.
    pub fn select_tab(&mut self, tab: InspectorTab)
        ensures
            *final(self) == select_tab_spec(*old(self), tab),
    {
        if self.inspector_open && self.tab == tab {
            self.inspector_open = false;
        } else {
            self.tab = tab;
            self.inspector_open = true;
        }
    }

    /// Escape: close the topmost plate — the keyboard reference, then the
    /// menu, then the inspector. The tab is kept, so reopening returns to
    /// the panel last used.
    pub fn close_inspector(&mut self)
        ensures
            *final(self) == if old(self).shortcuts_open {
                Chrome { shortcuts_open: false, ..*old(self) }
            } else if old(self).menu_open {
                Chrome { menu_open: false, ..*old(self) }
            } else {
                Chrome { inspector_open: false, ..*old(self) }
            },
    {
        if self.shortcuts_open {
            self.shortcuts_open = false;
        } else if self.menu_open {
            self.menu_open = false;
        } else {
            self.inspector_open = false;
        }
    }

    /// Open or close the keyboard reference; the menu that may have
    /// launched it closes behind it.
    pub fn toggle_shortcuts(&mut self)
        ensures
            *final(self) == (Chrome {
                shortcuts_open: !old(self).shortcuts_open,
                menu_open: false,
                ..*old(self)
            }),
    {
        self.shortcuts_open = !self.shortcuts_open;
        self.menu_open = false;
    }

    pub fn toggle_play(&mut self)
        ensures
            *final(self) == (Chrome { playing: !old(self).playing, ..*old(self) }),
    {
        self.playing = !self.playing;
    }

    pub fn dismiss_status(&mut self)
        ensures
            *final(self) == (Chrome { status: None, ..*old(self) }),
    {
        self.status = None;
    }
}

/// **The same tab button opens and then closes its panel**, and closing
/// keeps the tab: pressing a closed panel's tab twice returns the window
/// to exactly the plates it had.
pub proof fn law_a_tab_pressed_twice_closes_its_panel(c: Chrome, tab: InspectorTab)
    requires
        !c.inspector_open,
    ensures
        ({
            let once = select_tab_spec(c, tab);
            let twice = select_tab_spec(once, tab);
            &&& once.inspector_open && once.tab == tab
            &&& !twice.inspector_open && twice.tab == tab
        }),
{
}

/// The window after `select_tab`.
pub open spec fn select_tab_spec(c: Chrome, tab: InspectorTab) -> Chrome {
    if c.inspector_open && c.tab == tab {
        Chrome { inspector_open: false, ..c }
    } else {
        Chrome { tab, inspector_open: true, ..c }
    }
}

// ---------------------------------------------------------------------
// The transport
// ---------------------------------------------------------------------

/// One frame later, stopping at the end of the timeline.
pub fn step_forward(playhead: Time, frame: Time, total: Time) -> (t: Time)
    ensures
        t.nanos == if playhead.nanos + frame.nanos <= total.nanos {
            playhead.nanos + frame.nanos
        } else if playhead.nanos + frame.nanos > u64::MAX && total.nanos == u64::MAX {
            u64::MAX as int
        } else {
            total.nanos as int
        },
{
    let next = playhead.as_nanos().saturating_add(frame.as_nanos());
    let t = if next <= total.as_nanos() {
        next
    } else {
        total.as_nanos()
    };
    Time::from_nanos(t)
}

/// One frame earlier, stopping at zero rather than underflowing.
pub fn step_back(playhead: Time, frame: Time) -> (t: Time)
    ensures
        t.nanos == if playhead.nanos >= frame.nanos {
            playhead.nanos - frame.nanos
        } else {
            0
        },
{
    Time::from_nanos(playhead.as_nanos().saturating_sub(frame.as_nanos()))
}

/// Keep the playhead inside the timeline after an edit shortens it.
pub fn clamp_playhead(playhead: Time, total: Time) -> (t: Time)
    ensures
        t.nanos == if playhead.nanos > total.nanos {
            total.nanos
        } else {
            playhead.nanos
        },
{
    if playhead.as_nanos() > total.as_nanos() {
        total
    } else {
        playhead
    }
}

/// The selection after the clip list changes: none when there are no
/// clips, the last clip when it pointed past the end.
pub open spec fn clamped_selection(selected: Option<usize>, count: usize) -> Option<usize> {
    if count == 0 {
        None
    } else {
        match selected {
            Some(i) => Some(
                if i >= count {
                    (count - 1) as usize
                } else {
                    i
                },
            ),
            None => None,
        }
    }
}

/// Keep the selection valid after the clip list changes: none when there
/// are no clips, the last clip when it pointed past the end.
pub fn clamp_selection(selected: Option<usize>, count: usize) -> (r: Option<usize>)
    ensures
        r == clamped_selection(selected, count),
{
    if count == 0 {
        None
    } else {
        match selected {
            Some(i) => if i >= count {
                Some(count - 1)
            } else {
                Some(i)
            },
            None => None,
        }
    }
}

/// Selecting clip `index`: honoured only when such a clip exists.
pub fn select_clip(selected: Option<usize>, index: usize, count: usize) -> (r: Option<usize>)
    ensures
        r == if index < count {
            Some(index)
        } else {
            selected
        },
{
    if index < count {
        Some(index)
    } else {
        selected
    }
}

/// **The selection never dangles**: after a clamp it is either absent or
/// names a clip that exists, and a selection that was valid is kept.
pub proof fn law_selection_stays_in_range(selected: Option<usize>, count: usize)
    ensures
        clamped_selection(selected, count) matches Some(i) ==> i < count,
        (selected matches Some(i) && i < count) ==> clamped_selection(selected, count)
            == selected,
{
}

// ---------------------------------------------------------------------
// Readouts
// ---------------------------------------------------------------------

/// The longest filename the inspector heading shows whole.
pub const ELIDE_MAX: usize = 30;

/// A filename shortened from the middle: the first 14 characters, an
/// ellipsis, and the last 15, so the extension survives.
pub open spec fn elided(name: Seq<char>) -> Seq<char> {
    if name.len() <= 30 {
        name
    } else {
        name.take(14) + seq!['…'] + name.skip(name.len() - 15)
    }
}

/// Shorten a filename from the **middle**, keeping the start and the
/// extension.
///
/// Truncating from the end would drop the extension, which is the half
/// people actually scan for. Operates on `char`s, not bytes, so a name
/// with accents cannot be split mid-character.
pub fn elide_middle(name: &str) -> (s: String)
    ensures
        s@ == elided(name@),
{
    let chars = chars_of(name);
    if chars.len() <= ELIDE_MAX {
        return string_of(&chars);
    }
    let head: usize = 14;
    let tail: usize = ELIDE_MAX - head - 1;
    let front = slice(&chars, 0, head);
    let back = slice(&chars, chars.len() - tail, chars.len());
    let mut v: Vec<char> = Vec::new();
    push_chars(&mut v, &front);
    v.push('…');
    push_chars(&mut v, &back);
    let s = string_of(&v);
    assert(s@ =~= elided(name@));
    s
}

/// **An elided name always fits, and keeps its ending**: at most thirty
/// characters, and a name that had to be shortened keeps its first
/// fourteen and last fifteen characters exactly.
pub proof fn law_elided_names_fit_and_keep_the_extension(name: Seq<char>)
    ensures
        elided(name).len() <= 30,
        name.len() <= 30 ==> elided(name) == name,
        name.len() > 30 ==> elided(name).take(14) == name.take(14) && elided(name).skip(15)
            == name.skip(name.len() - 15),
{
    if name.len() > 30 {
        let e = elided(name);
        assert(e.take(14) =~= name.take(14));
        assert(e.skip(15) =~= name.skip(name.len() - 15));
    }
}

/// `HH:MM:SS:FF` for a frame count at a whole-number frame rate.
pub open spec fn timecode_text(total_frames: nat, fps: nat) -> Seq<char> {
    let f = total_frames % fps;
    let total_s = total_frames / fps;
    dec2(total_s / 3600) + seq![':'] + dec2((total_s / 60) % 60) + seq![':'] + dec2(total_s % 60)
        + seq![':'] + dec2(f)
}

/// **A whole number of seconds reads as exactly that many seconds, with
/// no frames, at every frame rate**: `k · fps` frames is `k` seconds.
pub proof fn law_whole_seconds_read_as_seconds(k: nat, fps: nat)
    requires
        fps >= 1,
    ensures
        timecode_text(k * fps, fps) == dec2(k / 3600) + seq![':'] + dec2((k / 60) % 60) + seq![
            ':',
        ] + dec2(k % 60) + seq![':', '0', '0'],
{
    assert(k * fps == fps * k) by (nonlinear_arith);
    vstd::arithmetic::div_mod::lemma_div_multiples_vanish(k as int, fps as int);
    vstd::arithmetic::div_mod::lemma_mod_multiples_basic(k as int, fps as int);
    assert(dec2(0) =~= seq!['0', '0']);
    assert(timecode_text(k * fps, fps) =~= dec2(k / 3600) + seq![':'] + dec2((k / 60) % 60)
        + seq![':'] + dec2(k % 60) + seq![':', '0', '0']);
}

/// **The frame field counts the frames past the last whole second**: one
/// frame more than a whole number of seconds reads the same seconds with
/// frame `01`, whenever a second has more than one frame.
pub proof fn law_the_frame_field_counts_frames_within_the_second(k: nat, fps: nat)
    requires
        fps >= 2,
    ensures
        timecode_text(k * fps + 1, fps) == dec2(k / 3600) + seq![':'] + dec2((k / 60) % 60)
            + seq![':'] + dec2(k % 60) + seq![':', '0', '1'],
{
    assert(k * fps == fps * k) by (nonlinear_arith);
    vstd::arithmetic::div_mod::lemma_div_multiples_vanish_fancy(k as int, 1, fps as int);
    assert(((fps * k + 1) as int) % (fps as int) == 1) by (nonlinear_arith)
        requires
            fps >= 2,
            ((fps * k + 1) as int) / (fps as int) == k as int,
    ;
    assert(dec2(1) =~= seq!['0', '1']);
    assert(timecode_text(k * fps + 1, fps) =~= dec2(k / 3600) + seq![':'] + dec2((k / 60) % 60)
        + seq![':'] + dec2(k % 60) + seq![':', '0', '1']);
}

/// The frame-based timecode, `HH:MM:SS:FF`, from an exact frame count and
/// the frame rate rounded to a whole number of frames per second.
pub fn timecode_from_frames(total_frames: u64, fps: u64) -> (s: String)
    requires
        fps >= 1,
    ensures
        s@ == timecode_text(total_frames as nat, fps as nat),
{
    let f = total_frames % fps;
    let total_s = total_frames / fps;
    let mut v: Vec<char> = Vec::new();
    push_dec2(&mut v, total_s / 3600);
    v.push(':');
    push_dec2(&mut v, (total_s / 60) % 60);
    v.push(':');
    push_dec2(&mut v, total_s % 60);
    v.push(':');
    push_dec2(&mut v, f);
    let s = string_of(&v);
    assert(s@ =~= timecode_text(total_frames as nat, fps as nat));
    s
}

// ---------------------------------------------------------------------
// The keyboard reference
// ---------------------------------------------------------------------

/// The platform whose modifier the keyboard reference spells out.
#[derive(Copy, Clone, PartialEq, Eq, Debug, Structural)]
pub enum Platform {
    /// Command is the primary modifier.
    MacOs,
    /// Control is the primary modifier.
    Other,
}

/// The chords the keyboard reference prints.
#[derive(Copy, Clone, Debug)]
pub struct Keys {
    pub open: &'static str,
    pub export: &'static str,
    pub undo: &'static str,
    pub redo: &'static str,
    pub scale: &'static str,
    pub scale_reset: &'static str,
}

/// The chords for `platform`, each naming that platform's primary
/// modifier. A reference naming the wrong key is worse than one naming
/// none, because it is believed.
pub fn keys(platform: Platform) -> (k: Keys)
    ensures
        platform == Platform::MacOs ==> k.open@ == "⌘O"@ && k.export@ == "⌘E"@ && k.undo@
            == "⌘Z"@ && k.redo@ == "⇧⌘Z"@ && k.scale@ == "⌘+  ⌘−"@ && k.scale_reset@
            == "⌘0"@,
        platform == Platform::Other ==> k.open@ == "Ctrl O"@ && k.export@ == "Ctrl E"@
            && k.undo@ == "Ctrl Z"@ && k.redo@ == "Ctrl ⇧ Z"@ && k.scale@ == "Ctrl +  −"@
            && k.scale_reset@ == "Ctrl 0"@,
{
    match platform {
        Platform::MacOs => Keys {
            open: "⌘O",
            export: "⌘E",
            undo: "⌘Z",
            redo: "⇧⌘Z",
            scale: "⌘+  ⌘−",
            scale_reset: "⌘0",
        },
        Platform::Other => Keys {
            open: "Ctrl O",
            export: "Ctrl E",
            undo: "Ctrl Z",
            redo: "Ctrl ⇧ Z",
            scale: "Ctrl +  −",
            scale_reset: "Ctrl 0",
        },
    }
}

} // verus!

use vstd::prelude::*;
use crate::text::{chars_of, same_chars};

verus! {

/// App-wide UI mode. `Default` is `Dark`: dark is the default, chosen from
/// the use scene.
#[derive(Debug, Clone, Copy, PartialEq, Eq, Structural)]
pub enum Mode {
    Dark,
    Light,
}

/// The other appearance.
pub open spec fn other_mode(m: Mode) -> Mode {
    match m {
        Mode::Dark => Mode::Light,
        Mode::Light => Mode::Dark,
    }
}

/// **Toggling twice restores the appearance**, and a toggle always
/// changes it.
pub proof fn law_toggling_twice_restores_the_mode(m: Mode)
    ensures
        other_mode(other_mode(m)) == m,
        other_mode(m) != m,
{
}

impl Mode {
    /// The other appearance.
    pub fn toggled(self) -> (m: Mode)
        ensures
            m == other_mode(self),
    {
        match self {
            Mode::Dark => Mode::Light,
            Mode::Light => Mode::Dark,
        }
    }
}

impl Default for Mode {
    fn default() -> (m: Mode)
        ensures
            m == Mode::Dark,
    {
        Mode::Dark
    }
}


/// The number of colour roles in a palette.
pub const ROLE_COUNT: usize = 37;

/// Every role name a config may set, in declaration order.
///
/// The config loader suggests near-misses from this list, and `set_role`
/// accepts exactly these names: a role present in one and missing from the
/// other would be a customisation that silently does nothing.
pub const ROLE_NAMES: [&'static str; 37] = [
    "canvas",
    "surface",
    "surface_raised",
    "surface_sunken",
    "surface_sunken_alt",
    "letterbox",
    "border",
    "border_raised",
    "accent",
    "on_accent",
    "control_knob",
    "control_track_off",
    "success",
    "danger",
    "origin_mark",
    "accent_tint_bg",
    "accent_tint_text",
    "trim_track",
    "trim_range_fill",
    "trim_range_edge",
    "trim_range_excluded",
    "playhead",
    "mute",
    "trim_out",
    "trim_out_hover",
    "stage_badge_text",
    "stage_badge_text_dim",
    "stage_shadow",
    "text_primary",
    "text_secondary",
    "text_secondary_alt",
    "text_muted",
    "text_muted_alt",
    "surface_hover",
    "accent_hover",
    "waveform",
    "mute_border",
];

/// The config name of role `i`, in declaration order.
pub open spec fn role_name(i: int) -> Seq<char> {
    if i == 0 {
        "canvas"@
    } else if i == 1 {
        "surface"@
    } else if i == 2 {
        "surface_raised"@
    } else if i == 3 {
        "surface_sunken"@
    } else if i == 4 {
        "surface_sunken_alt"@
    } else if i == 5 {
        "letterbox"@
    } else if i == 6 {
        "border"@
    } else if i == 7 {
        "border_raised"@
    } else if i == 8 {
        "accent"@
    } else if i == 9 {
        "on_accent"@
    } else if i == 10 {
        "control_knob"@
    } else if i == 11 {
        "control_track_off"@
    } else if i == 12 {
        "success"@
    } else if i == 13 {
        "danger"@
    } else if i == 14 {
        "origin_mark"@
    } else if i == 15 {
        "accent_tint_bg"@
    } else if i == 16 {
        "accent_tint_text"@
    } else if i == 17 {
        "trim_track"@
    } else if i == 18 {
        "trim_range_fill"@
    } else if i == 19 {
        "trim_range_edge"@
    } else if i == 20 {
        "trim_range_excluded"@
    } else if i == 21 {
        "playhead"@
    } else if i == 22 {
        "mute"@
    } else if i == 23 {
        "trim_out"@
    } else if i == 24 {
        "trim_out_hover"@
    } else if i == 25 {
        "stage_badge_text"@
    } else if i == 26 {
        "stage_badge_text_dim"@
    } else if i == 27 {
        "stage_shadow"@
    } else if i == 28 {
        "text_primary"@
    } else if i == 29 {
        "text_secondary"@
    } else if i == 30 {
        "text_secondary_alt"@
    } else if i == 31 {
        "text_muted"@
    } else if i == 32 {
        "text_muted_alt"@
    } else if i == 33 {
        "surface_hover"@
    } else if i == 34 {
        "accent_hover"@
    } else if i == 35 {
        "waveform"@
    } else {
        "mute_border"@
    }
}

/// The config name of role `i`.
pub fn role_name_str(i: usize) -> (s: &'static str)
    requires
        i < ROLE_COUNT,
    ensures
        s@ == role_name(i as int),
{
    match i {
        0 => "canvas",
        1 => "surface",
        2 => "surface_raised",
        3 => "surface_sunken",
        4 => "surface_sunken_alt",
        5 => "letterbox",
        6 => "border",
        7 => "border_raised",
        8 => "accent",
        9 => "on_accent",
        10 => "control_knob",
        11 => "control_track_off",
        12 => "success",
        13 => "danger",
        14 => "origin_mark",
        15 => "accent_tint_bg",
        16 => "accent_tint_text",
        17 => "trim_track",
        18 => "trim_range_fill",
        19 => "trim_range_edge",
        20 => "trim_range_excluded",
        21 => "playhead",
        22 => "mute",
        23 => "trim_out",
        24 => "trim_out_hover",
        25 => "stage_badge_text",
        26 => "stage_badge_text_dim",
        27 => "stage_shadow",
        28 => "text_primary",
        29 => "text_secondary",
        30 => "text_secondary_alt",
        31 => "text_muted",
        32 => "text_muted_alt",
        33 => "surface_hover",
        34 => "accent_hover",
        35 => "waveform",
        _ => "mute_border",
    }
}

/// A named colour role for each part of the interface, over a colour type
/// `C` (the renderer's colour in the application, plain bytes in tests).
///
/// The roles split into two families. **Chrome roles** (`surface*`,
/// `text_*`, `border*`, `accent*`) sit on the application's own surfaces
/// and invert between Dark and Light. **Stage roles** (`trim_*`,
/// `playhead`, `mute`, `stage_*`, `letterbox`) are drawn on or beside the
/// picture, which is black in both modes, and are mode-invariant.
#[derive(Debug, Clone, Copy, PartialEq)]
pub struct Palette<C> {
    pub canvas: C,
    pub surface: C,
    pub surface_raised: C,
    pub surface_sunken: C,
    pub surface_sunken_alt: C,
    pub letterbox: C,
    pub border: C,
    pub border_raised: C,
    pub accent: C,
    pub on_accent: C,
    pub control_knob: C,
    pub control_track_off: C,
    pub success: C,
    pub danger: C,
    pub origin_mark: C,
    pub accent_tint_bg: C,
    pub accent_tint_text: C,
    pub trim_track: C,
    pub trim_range_fill: C,
    pub trim_range_edge: C,
    pub trim_range_excluded: C,
    pub playhead: C,
    pub mute: C,
    pub trim_out: C,
    pub trim_out_hover: C,
    pub stage_badge_text: C,
    pub stage_badge_text_dim: C,
    pub stage_shadow: C,
    pub text_primary: C,
    pub text_secondary: C,
    pub text_secondary_alt: C,
    pub text_muted: C,
    pub text_muted_alt: C,
    pub surface_hover: C,
    pub accent_hover: C,
    pub waveform: C,
    pub mute_border: C,
}

impl<C: Copy> Palette<C> {
    /// The roles in declaration order, the order of `ROLE_NAMES`.
    pub open spec fn roles(self) -> Seq<C> {
        seq![
            self.canvas,
            self.surface,
            self.surface_raised,
            self.surface_sunken,
            self.surface_sunken_alt,
            self.letterbox,
            self.border,
            self.border_raised,
            self.accent,
            self.on_accent,
            self.control_knob,
            self.control_track_off,
            self.success,
            self.danger,
            self.origin_mark,
            self.accent_tint_bg,
            self.accent_tint_text,
            self.trim_track,
            self.trim_range_fill,
            self.trim_range_edge,
            self.trim_range_excluded,
            self.playhead,
            self.mute,
            self.trim_out,
            self.trim_out_hover,
            self.stage_badge_text,
            self.stage_badge_text_dim,
            self.stage_shadow,
            self.text_primary,
            self.text_secondary,
            self.text_secondary_alt,
            self.text_muted,
            self.text_muted_alt,
            self.surface_hover,
            self.accent_hover,
            self.waveform,
            self.mute_border,
        ]
    }

    /// Role `i`, in declaration order.
    pub fn role(&self, i: usize) -> (c: C)
        requires
            i < ROLE_COUNT,
        ensures
            c == self.roles()[i as int],
    {
        match i {
            0 => self.canvas,
            1 => self.surface,
            2 => self.surface_raised,
            3 => self.surface_sunken,
            4 => self.surface_sunken_alt,
            5 => self.letterbox,
            6 => self.border,
            7 => self.border_raised,
            8 => self.accent,
            9 => self.on_accent,
            10 => self.control_knob,
            11 => self.control_track_off,
            12 => self.success,
            13 => self.danger,
            14 => self.origin_mark,
            15 => self.accent_tint_bg,
            16 => self.accent_tint_text,
            17 => self.trim_track,
            18 => self.trim_range_fill,
            19 => self.trim_range_edge,
            20 => self.trim_range_excluded,
            21 => self.playhead,
            22 => self.mute,
            23 => self.trim_out,
            24 => self.trim_out_hover,
            25 => self.stage_badge_text,
            26 => self.stage_badge_text_dim,
            27 => self.stage_shadow,
            28 => self.text_primary,
            29 => self.text_secondary,
            30 => self.text_secondary_alt,
            31 => self.text_muted,
            32 => self.text_muted_alt,
            33 => self.surface_hover,
            34 => self.accent_hover,
            35 => self.waveform,
            _ => self.mute_border,
        }
    }

    /// Set role `i`, in declaration order, leaving every other role alone.
    pub fn set_role_at(&mut self, i: usize, color: C)
        requires
            i < ROLE_COUNT,
        ensures
            final(self).roles() == old(self).roles().update(i as int, color),
    {
        match i {
            0 => self.canvas = color,
            1 => self.surface = color,
            2 => self.surface_raised = color,
            3 => self.surface_sunken = color,
            4 => self.surface_sunken_alt = color,
            5 => self.letterbox = color,
            6 => self.border = color,
            7 => self.border_raised = color,
            8 => self.accent = color,
            9 => self.on_accent = color,
            10 => self.control_knob = color,
            11 => self.control_track_off = color,
            12 => self.success = color,
            13 => self.danger = color,
            14 => self.origin_mark = color,
            15 => self.accent_tint_bg = color,
            16 => self.accent_tint_text = color,
            17 => self.trim_track = color,
            18 => self.trim_range_fill = color,
            19 => self.trim_range_edge = color,
            20 => self.trim_range_excluded = color,
            21 => self.playhead = color,
            22 => self.mute = color,
            23 => self.trim_out = color,
            24 => self.trim_out_hover = color,
            25 => self.stage_badge_text = color,
            26 => self.stage_badge_text_dim = color,
            27 => self.stage_shadow = color,
            28 => self.text_primary = color,
            29 => self.text_secondary = color,
            30 => self.text_secondary_alt = color,
            31 => self.text_muted = color,
            32 => self.text_muted_alt = color,
            33 => self.surface_hover = color,
            34 => self.accent_hover = color,
            35 => self.waveform = color,
            _ => self.mute_border = color,
        }
        assert(self.roles() =~= old(self).roles().update(i as int, color));
    }
}

/// The position of `name` among the role names, searching from `i`.
pub open spec fn role_index_from(name: Seq<char>, i: int) -> Option<int>
    decreases 37 - i,
{
    if i < 0 || i >= 37 {
        None
    } else if role_name(i) == name {
        Some(i)
    } else {
        role_index_from(name, i + 1)
    }
}

/// The position of `name` among the role names, or `None` when no role is
/// called that.
pub open spec fn role_index(name: Seq<char>) -> Option<int> {
    role_index_from(name, 0)
}

pub proof fn lemma_role_index_from(name: Seq<char>, i: int)
    requires
        0 <= i <= 37,
    ensures
        role_index_from(name, i) matches Some(k) ==> i <= k < 37 && role_name(k) == name && (
        forall|j: int| i <= j < k ==> role_name(j) != name),
        role_index_from(name, i) is None ==> forall|j: int| i <= j < 37 ==> role_name(j) != name,
    decreases 37 - i,
{
    if i < 37 && role_name(i) != name {
        lemma_role_index_from(name, i + 1);
    }
}

/// The role called `name`, if there is one.
pub fn find_role(name: &Vec<char>) -> (r: Option<usize>)
    ensures
        r matches Some(i) ==> i < ROLE_COUNT && role_index(name@) == Some(i as int),
        r is None ==> role_index(name@) is None,
{
    let mut i: usize = 0;
    while i < ROLE_COUNT
        invariant
            i <= ROLE_COUNT,
            role_index(name@) == role_index_from(name@, i as int),
        decreases ROLE_COUNT - i,
    {
        let candidate = chars_of(role_name_str(i));
        if same_chars(&candidate, name) {
            return Some(i);
        }
        i = i + 1;
    }
    None
}

impl<C: Copy> Palette<C> {
    /// Set one role by its config name. Returns `false` for an unknown
    /// name, so the loader can report a typo instead of ignoring it.
    pub fn set_role(&mut self, role: &str, color: C) -> (found: bool)
        ensures
            role_index(role@) matches Some(i) ==> 0 <= i < ROLE_COUNT,
            found == role_index(role@) is Some,
            final(self).roles() == (match role_index(role@) {
                Some(i) => old(self).roles().update(i, color),
                None => old(self).roles(),
            }),
    {
        let name = chars_of(role);
        proof {
            lemma_role_index_from(role@, 0);
        }
        match find_role(&name) {
            Some(i) => {
                self.set_role_at(i, color);
                true
            },
            None => false,
        }
    }
}

proof fn lemma_role_name_1_is_new()
    ensures
        forall|j: int| 0 <= j < 1 ==> role_name(1) != #[trigger] role_name(j),
{
    reveal_strlit("surface");
    reveal_strlit("canvas");
    assert(role_name(1).len() != role_name(0).len());
}

proof fn lemma_role_name_2_is_new()
    ensures
        forall|j: int| 0 <= j < 2 ==> role_name(2) != #[trigger] role_name(j),
{
    reveal_strlit("surface_raised");
    reveal_strlit("canvas");
    assert(role_name(2).len() != role_name(0).len());
    reveal_strlit("surface");
    assert(role_name(2).len() != role_name(1).len());
}

proof fn lemma_role_name_3_is_new()
    ensures
        forall|j: int| 0 <= j < 3 ==> role_name(3) != #[trigger] role_name(j),
{
    reveal_strlit("surface_sunken");
    reveal_strlit("canvas");
    assert(role_name(3).len() != role_name(0).len());
    reveal_strlit("surface");
    assert(role_name(3).len() != role_name(1).len());
    reveal_strlit("surface_raised");
    assert(role_name(3)[8] != role_name(2)[8]);
}

proof fn lemma_role_name_4_is_new()
    ensures
        forall|j: int| 0 <= j < 4 ==> role_name(4) != #[trigger] role_name(j),
{
    reveal_strlit("surface_sunken_alt");
    reveal_strlit("canvas");
    assert(role_name(4).len() != role_name(0).len());
    reveal_strlit("surface");
    assert(role_name(4).len() != role_name(1).len());
    reveal_strlit("surface_raised");
    assert(role_name(4).len() != role_name(2).len());
    reveal_strlit("surface_sunken");
    assert(role_name(4).len() != role_name(3).len());
}

proof fn lemma_role_name_5_is_new()
    ensures
        forall|j: int| 0 <= j < 5 ==> role_name(5) != #[trigger] role_name(j),
{
    reveal_strlit("letterbox");
    reveal_strlit("canvas");
    assert(role_name(5).len() != role_name(0).len());
    reveal_strlit("surface");
    assert(role_name(5).len() != role_name(1).len());
    reveal_strlit("surface_raised");
    assert(role_name(5).len() != role_name(2).len());
    reveal_strlit("surface_sunken");
    assert(role_name(5).len() != role_name(3).len());
    reveal_strlit("surface_sunken_alt");
    assert(role_name(5).len() != role_name(4).len());
}

proof fn lemma_role_name_6_is_new()
    ensures
        forall|j: int| 0 <= j < 6 ==> role_name(6) != #[trigger] role_name(j),
{
    reveal_strlit("border");
    reveal_strlit("canvas");
    assert(role_name(6)[0] != role_name(0)[0]);
    reveal_strlit("surface");
    assert(role_name(6).len() != role_name(1).len());
    reveal_strlit("surface_raised");
    assert(role_name(6).len() != role_name(2).len());
    reveal_strlit("surface_sunken");
    assert(role_name(6).len() != role_name(3).len());
    reveal_strlit("surface_sunken_alt");
    assert(role_name(6).len() != role_name(4).len());
    reveal_strlit("letterbox");
    assert(role_name(6).len() != role_name(5).len());
}

proof fn lemma_role_name_7_is_new()
    ensures
        forall|j: int| 0 <= j < 7 ==> role_name(7) != #[trigger] role_name(j),
{
    reveal_strlit("border_raised");
    reveal_strlit("canvas");
    assert(role_name(7).len() != role_name(0).len());
    reveal_strlit("surface");
    assert(role_name(7).len() != role_name(1).len());
    reveal_strlit("surface_raised");
    assert(role_name(7).len() != role_name(2).len());
    reveal_strlit("surface_sunken");
    assert(role_name(7).len() != role_name(3).len());
    reveal_strlit("surface_sunken_alt");
    assert(role_name(7).len() != role_name(4).len());
    reveal_strlit("letterbox");
    assert(role_name(7).len() != role_name(5).len());
    reveal_strlit("border");
    assert(role_name(7).len() != role_name(6).len());
}

proof fn lemma_role_name_8_is_new()
    ensures
        forall|j: int| 0 <= j < 8 ==> role_name(8) != #[trigger] role_name(j),
{
    reveal_strlit("accent");
    reveal_strlit("canvas");
    assert(role_name(8)[0] != role_name(0)[0]);
    reveal_strlit("surface");
    assert(role_name(8).len() != role_name(1).len());
    reveal_strlit("surface_raised");
    assert(role_name(8).len() != role_name(2).len());
    reveal_strlit("surface_sunken");
    assert(role_name(8).len() != role_name(3).len());
    reveal_strlit("surface_sunken_alt");
    assert(role_name(8).len() != role_name(4).len());
    reveal_strlit("letterbox");
    assert(role_name(8).len() != role_name(5).len());
    reveal_strlit("border");
    assert(role_name(8)[0] != role_name(6)[0]);
    reveal_strlit("border_raised");
    assert(role_name(8).len() != role_name(7).len());
}

proof fn lemma_role_name_9_is_new()
    ensures
        forall|j: int| 0 <= j < 9 ==> role_name(9) != #[trigger] role_name(j),
{
    reveal_strlit("on_accent");
    reveal_strlit("canvas");
    assert(role_name(9).len() != role_name(0).len());
    reveal_strlit("surface");
    assert(role_name(9).len() != role_name(1).len());
    reveal_strlit("surface_raised");
    assert(role_name(9).len() != role_name(2).len());
    reveal_strlit("surface_sunken");
    assert(role_name(9).len() != role_name(3).len());
    reveal_strlit("surface_sunken_alt");
    assert(role_name(9).len() != role_name(4).len());
    reveal_strlit("letterbox");
    assert(role_name(9)[0] != role_name(5)[0]);
    reveal_strlit("border");
    assert(role_name(9).len() != role_name(6).len());
    reveal_strlit("border_raised");
    assert(role_name(9).len() != role_name(7).len());
    reveal_strlit("accent");
    assert(role_name(9).len() != role_name(8).len());
}

proof fn lemma_role_name_10_is_new()
    ensures
        forall|j: int| 0 <= j < 10 ==> role_name(10) != #[trigger] role_name(j),
{
    reveal_strlit("control_knob");
    reveal_strlit("canvas");
    assert(role_name(10).len() != role_name(0).len());
    reveal_strlit("surface");
    assert(role_name(10).len() != role_name(1).len());
    reveal_strlit("surface_raised");
    assert(role_name(10).len() != role_name(2).len());
    reveal_strlit("surface_sunken");
    assert(role_name(10).len() != role_name(3).len());
    reveal_strlit("surface_sunken_alt");
    assert(role_name(10).len() != role_name(4).len());
    reveal_strlit("letterbox");
    assert(role_name(10).len() != role_name(5).len());
    reveal_strlit("border");
    assert(role_name(10).len() != role_name(6).len());
    reveal_strlit("border_raised");
    assert(role_name(10).len() != role_name(7).len());
    reveal_strlit("accent");
    assert(role_name(10).len() != role_name(8).len());
    reveal_strlit("on_accent");
    assert(role_name(10).len() != role_name(9).len());
}

proof fn lemma_role_name_11_is_new()
    ensures
        forall|j: int| 0 <= j < 11 ==> role_name(11) != #[trigger] role_name(j),
{
    reveal_strlit("control_track_off");
    reveal_strlit("canvas");
    assert(role_name(11).len() != role_name(0).len());
    reveal_strlit("surface");
    assert(role_name(11).len() != role_name(1).len());
    reveal_strlit("surface_raised");
    assert(role_name(11).len() != role_name(2).len());
    reveal_strlit("surface_sunken");
    assert(role_name(11).len() != role_name(3).len());
    reveal_strlit("surface_sunken_alt");
    assert(role_name(11).len() != role_name(4).len());
    reveal_strlit("letterbox");
    assert(role_name(11).len() != role_name(5).len());
    reveal_strlit("border");
    assert(role_name(11).len() != role_name(6).len());
    reveal_strlit("border_raised");
    assert(role_name(11).len() != role_name(7).len());
    reveal_strlit("accent");
    assert(role_name(11).len() != role_name(8).len());
    reveal_strlit("on_accent");
    assert(role_name(11).len() != role_name(9).len());
    reveal_strlit("control_knob");
    assert(role_name(11).len() != role_name(10).len());
}

proof fn lemma_role_name_12_is_new()
    ensures
        forall|j: int| 0 <= j < 12 ==> role_name(12) != #[trigger] role_name(j),
{
    reveal_strlit("success");
    reveal_strlit("canvas");
    assert(role_name(12).len() != role_name(0).len());
    reveal_strlit("surface");
    assert(role_name(12)[2] != role_name(1)[2]);
    reveal_strlit("surface_raised");
    assert(role_name(12).len() != role_name(2).len());
    reveal_strlit("surface_sunken");
    assert(role_name(12).len() != role_name(3).len());
    reveal_strlit("surface_sunken_alt");
    assert(role_name(12).len() != role_name(4).len());
    reveal_strlit("letterbox");
    assert(role_name(12).len() != role_name(5).len());
    reveal_strlit("border");
    assert(role_name(12).len() != role_name(6).len());
    reveal_strlit("border_raised");
    assert(role_name(12).len() != role_name(7).len());
    reveal_strlit("accent");
    assert(role_name(12).len() != role_name(8).len());
    reveal_strlit("on_accent");
    assert(role_name(12).len() != role_name(9).len());
    reveal_strlit("control_knob");
    assert(role_name(12).len() != role_name(10).len());
    reveal_strlit("control_track_off");
    assert(role_name(12).len() != role_name(11).len());
}

proof fn lemma_role_name_13_is_new()
    ensures
        forall|j: int| 0 <= j < 13 ==> role_name(13) != #[trigger] role_name(j),
{
    reveal_strlit("danger");
    reveal_strlit("canvas");
    assert(role_name(13)[0] != role_name(0)[0]);
    reveal_strlit("surface");
    assert(role_name(13).len() != role_name(1).len());
    reveal_strlit("surface_raised");
    assert(role_name(13).len() != role_name(2).len());
    reveal_strlit("surface_sunken");
    assert(role_name(13).len() != role_name(3).len());
    reveal_strlit("surface_sunken_alt");
    assert(role_name(13).len() != role_name(4).len());
    reveal_strlit("letterbox");
    assert(role_name(13).len() != role_name(5).len());
    reveal_strlit("border");
    assert(role_name(13)[0] != role_name(6)[0]);
    reveal_strlit("border_raised");
    assert(role_name(13).len() != role_name(7).len());
    reveal_strlit("accent");
    assert(role_name(13)[0] != role_name(8)[0]);
    reveal_strlit("on_accent");
    assert(role_name(13).len() != role_name(9).len());
    reveal_strlit("control_knob");
    assert(role_name(13).len() != role_name(10).len());
    reveal_strlit("control_track_off");
    assert(role_name(13).len() != role_name(11).len());
    reveal_strlit("success");
    assert(role_name(13).len() != role_name(12).len());
}

proof fn lemma_role_name_14_is_new()
    ensures
        forall|j: int| 0 <= j < 14 ==> role_name(14) != #[trigger] role_name(j),
{
    reveal_strlit("origin_mark");
    reveal_strlit("canvas");
    assert(role_name(14).len() != role_name(0).len());
    reveal_strlit("surface");
    assert(role_name(14).len() != role_name(1).len());
    reveal_strlit("surface_raised");
    assert(role_name(14).len() != role_name(2).len());
    reveal_strlit("surface_sunken");
    assert(role_name(14).len() != role_name(3).len());
    reveal_strlit("surface_sunken_alt");
    assert(role_name(14).len() != role_name(4).len());
    reveal_strlit("letterbox");
    assert(role_name(14).len() != role_name(5).len());
    reveal_strlit("border");
    assert(role_name(14).len() != role_name(6).len());
    reveal_strlit("border_raised");
    assert(role_name(14).len() != role_name(7).len());
    reveal_strlit("accent");
    assert(role_name(14).len() != role_name(8).len());
    reveal_strlit("on_accent");
    assert(role_name(14).len() != role_name(9).len());
    reveal_strlit("control_knob");
    assert(role_name(14).len() != role_name(10).len());
    reveal_strlit("control_track_off");
    assert(role_name(14).len() != role_name(11).len());
    reveal_strlit("success");
    assert(role_name(14).len() != role_name(12).len());
    reveal_strlit("danger");
    assert(role_name(14).len() != role_name(13).len());
}

proof fn lemma_role_name_15_is_new()
    ensures
        forall|j: int| 0 <= j < 15 ==> role_name(15) != #[trigger] role_name(j),
{
    reveal_strlit("accent_tint_bg");
    reveal_strlit("canvas");
    assert(role_name(15).len() != role_name(0).len());
    reveal_strlit("surface");
    assert(role_name(15).len() != role_name(1).len());
    reveal_strlit("surface_raised");
    assert(role_name(15)[0] != role_name(2)[0]);
    reveal_strlit("surface_sunken");
    assert(role_name(15)[0] != role_name(3)[0]);
    reveal_strlit("surface_sunken_alt");
    assert(role_name(15).len() != role_name(4).len());
    reveal_strlit("letterbox");
    assert(role_name(15).len() != role_name(5).len());
    reveal_strlit("border");
    assert(role_name(15).len() != role_name(6).len());
    reveal_strlit("border_raised");
    assert(role_name(15).len() != role_name(7).len());
    reveal_strlit("accent");
    assert(role_name(15).len() != role_name(8).len());
    reveal_strlit("on_accent");
    assert(role_name(15).len() != role_name(9).len());
    reveal_strlit("control_knob");
    assert(role_name(15).len() != role_name(10).len());
    reveal_strlit("control_track_off");
    assert(role_name(15).len() != role_name(11).len());
    reveal_strlit("success");
    assert(role_name(15).len() != role_name(12).len());
    reveal_strlit("danger");
    assert(role_name(15).len() != role_name(13).len());
    reveal_strlit("origin_mark");
    assert(role_name(15).len() != role_name(14).len());
}

proof fn lemma_role_name_16_is_new()
    ensures
        forall|j: int| 0 <= j < 16 ==> role_name(16) != #[trigger] role_name(j),
{
    reveal_strlit("accent_tint_text");
    reveal_strlit("canvas");
    assert(role_name(16).len() != role_name(0).len());
    reveal_strlit("surface");
    assert(role_name(16).len() != role_name(1).len());
    reveal_strlit("surface_raised");
    assert(role_name(16).len() != role_name(2).len());
    reveal_strlit("surface_sunken");
    assert(role_name(16).len() != role_name(3).len());
    reveal_strlit("surface_sunken_alt");
    assert(role_name(16).len() != role_name(4).len());
    reveal_strlit("letterbox");
    assert(role_name(16).len() != role_name(5).len());
    reveal_strlit("border");
    assert(role_name(16).len() != role_name(6).len());
    reveal_strlit("border_raised");
    assert(role_name(16).len() != role_name(7).len());
    reveal_strlit("accent");
    assert(role_name(16).len() != role_name(8).len());
    reveal_strlit("on_accent");
    assert(role_name(16).len() != role_name(9).len());
    reveal_strlit("control_knob");
    assert(role_name(16).len() != role_name(10).len());
    reveal_strlit("control_track_off");
    assert(role_name(16).len() != role_name(11).len());
    reveal_strlit("success");
    assert(role_name(16).len() != role_name(12).len());
    reveal_strlit("danger");
    assert(role_name(16).len() != role_name(13).len());
    reveal_strlit("origin_mark");
    assert(role_name(16).len() != role_name(14).len());
    reveal_strlit("accent_tint_bg");
    assert(role_name(16).len() != role_name(15).len());
}

proof fn lemma_role_name_17_is_new()
    ensures
        forall|j: int| 0 <= j < 17 ==> role_name(17) != #[trigger] role_name(j),
{
    reveal_strlit("trim_track");
    reveal_strlit("canvas");
    assert(role_name(17).len() != role_name(0).len());
    reveal_strlit("surface");
    assert(role_name(17).len() != role_name(1).len());
    reveal_strlit("surface_raised");
    assert(role_name(17).len() != role_name(2).len());
    reveal_strlit("surface_sunken");
    assert(role_name(17).len() != role_name(3).len());
    reveal_strlit("surface_sunken_alt");
    assert(role_name(17).len() != role_name(4).len());
    reveal_strlit("letterbox");
    assert(role_name(17).len() != role_name(5).len());
    reveal_strlit("border");
    assert(role_name(17).len() != role_name(6).len());
    reveal_strlit("border_raised");
    assert(role_name(17).len() != role_name(7).len());
    reveal_strlit("accent");
    assert(role_name(17).len() != role_name(8).len());
    reveal_strlit("on_accent");
    assert(role_name(17).len() != role_name(9).len());
    reveal_strlit("control_knob");
    assert(role_name(17).len() != role_name(10).len());
    reveal_strlit("control_track_off");
    assert(role_name(17).len() != role_name(11).len());
    reveal_strlit("success");
    assert(role_name(17).len() != role_name(12).len());
    reveal_strlit("danger");
    assert(role_name(17).len() != role_name(13).len());
    reveal_strlit("origin_mark");
    assert(role_name(17).len() != role_name(14).len());
    reveal_strlit("accent_tint_bg");
    assert(role_name(17).len() != role_name(15).len());
    reveal_strlit("accent_tint_text");
    assert(role_name(17).len() != role_name(16).len());
}

proof fn lemma_role_name_18_is_new()
    ensures
        forall|j: int| 0 <= j < 18 ==> role_name(18) != #[trigger] role_name(j),
{
    reveal_strlit("trim_range_fill");
    reveal_strlit("canvas");
    assert(role_name(18).len() != role_name(0).len());
    reveal_strlit("surface");
    assert(role_name(18).len() != role_name(1).len());
    reveal_strlit("surface_raised");
    assert(role_name(18).len() != role_name(2).len());
    reveal_strlit("surface_sunken");
    assert(role_name(18).len() != role_name(3).len());
    reveal_strlit("surface_sunken_alt");
    assert(role_name(18).len() != role_name(4).len());
    reveal_strlit("letterbox");
    assert(role_name(18).len() != role_name(5).len());
    reveal_strlit("border");
    assert(role_name(18).len() != role_name(6).len());
    reveal_strlit("border_raised");
    assert(role_name(18).len() != role_name(7).len());
    reveal_strlit("accent");
    assert(role_name(18).len() != role_name(8).len());
    reveal_strlit("on_accent");
    assert(role_name(18).len() != role_name(9).len());
    reveal_strlit("control_knob");
    assert(role_name(18).len() != role_name(10).len());
    reveal_strlit("control_track_off");
    assert(role_name(18).len() != role_name(11).len());
    reveal_strlit("success");
    assert(role_name(18).len() != role_name(12).len());
    reveal_strlit("danger");
    assert(role_name(18).len() != role_name(13).len());
    reveal_strlit("origin_mark");
    assert(role_name(18).len() != role_name(14).len());
    reveal_strlit("accent_tint_bg");
    assert(role_name(18).len() != role_name(15).len());
    reveal_strlit("accent_tint_text");
    assert(role_name(18).len() != role_name(16).len());
    reveal_strlit("trim_track");
    assert(role_name(18).len() != role_name(17).len());
}

proof fn lemma_role_name_19_is_new()
    ensures
        forall|j: int| 0 <= j < 19 ==> role_name(19) != #[trigger] role_name(j),
{
    reveal_strlit("trim_range_edge");
    reveal_strlit("canvas");
    assert(role_name(19).len() != role_name(0).len());
    reveal_strlit("surface");
    assert(role_name(19).len() != role_name(1).len());
    reveal_strlit("surface_raised");
    assert(role_name(19).len() != role_name(2).len());
    reveal_strlit("surface_sunken");
    assert(role_name(19).len() != role_name(3).len());
    reveal_strlit("surface_sunken_alt");
    assert(role_name(19).len() != role_name(4).len());
    reveal_strlit("letterbox");
    assert(role_name(19).len() != role_name(5).len());
    reveal_strlit("border");
    assert(role_name(19).len() != role_name(6).len());
    reveal_strlit("border_raised");
    assert(role_name(19).len() != role_name(7).len());
    reveal_strlit("accent");
    assert(role_name(19).len() != role_name(8).len());
    reveal_strlit("on_accent");
    assert(role_name(19).len() != role_name(9).len());
    reveal_strlit("control_knob");
    assert(role_name(19).len() != role_name(10).len());
    reveal_strlit("control_track_off");
    assert(role_name(19).len() != role_name(11).len());
    reveal_strlit("success");
    assert(role_name(19).len() != role_name(12).len());
    reveal_strlit("danger");
    assert(role_name(19).len() != role_name(13).len());
    reveal_strlit("origin_mark");
    assert(role_name(19).len() != role_name(14).len());
    reveal_strlit("accent_tint_bg");
    assert(role_name(19).len() != role_name(15).len());
    reveal_strlit("accent_tint_text");
    assert(role_name(19).len() != role_name(16).len());
    reveal_strlit("trim_track");
    assert(role_name(19).len() != role_name(17).len());
    reveal_strlit("trim_range_fill");
    assert(role_name(19)[11] != role_name(18)[11]);
}

proof fn lemma_role_name_20_is_new()
    ensures
        forall|j: int| 0 <= j < 20 ==> role_name(20) != #[trigger] role_name(j),
{
    reveal_strlit("trim_range_excluded");
    reveal_strlit("canvas");
    assert(role_name(20).len() != role_name(0).len());
    reveal_strlit("surface");
    assert(role_name(20).len() != role_name(1).len());
    reveal_strlit("surface_raised");
    assert(role_name(20).len() != role_name(2).len());
    reveal_strlit("surface_sunken");
    assert(role_name(20).len() != role_name(3).len());
    reveal_strlit("surface_sunken_alt");
    assert(role_name(20).len() != role_name(4).len());
    reveal_strlit("letterbox");
    assert(role_name(20).len() != role_name(5).len());
    reveal_strlit("border");
    assert(role_name(20).len() != role_name(6).len());
    reveal_strlit("border_raised");
    assert(role_name(20).len() != role_name(7).len());
    reveal_strlit("accent");
    assert(role_name(20).len() != role_name(8).len());
    reveal_strlit("on_accent");
    assert(role_name(20).len() != role_name(9).len());
    reveal_strlit("control_knob");
    assert(role_name(20).len() != role_name(10).len());
    reveal_strlit("control_track_off");
    assert(role_name(20).len() != role_name(11).len());
    reveal_strlit("success");
    assert(role_name(20).len() != role_name(12).len());
    reveal_strlit("danger");
    assert(role_name(20).len() != role_name(13).len());
    reveal_strlit("origin_mark");
    assert(role_name(20).len() != role_name(14).len());
    reveal_strlit("accent_tint_bg");
    assert(role_name(20).len() != role_name(15).len());
    reveal_strlit("accent_tint_text");
    assert(role_name(20).len() != role_name(16).len());
    reveal_strlit("trim_track");
    assert(role_name(20).len() != role_name(17).len());
    reveal_strlit("trim_range_fill");
    assert(role_name(20).len() != role_name(18).len());
    reveal_strlit("trim_range_edge");
    assert(role_name(20).len() != role_name(19).len());
}

proof fn lemma_role_name_21_is_new()
    ensures
        forall|j: int| 0 <= j < 21 ==> role_name(21) != #[trigger] role_name(j),
{
    reveal_strlit("playhead");
    reveal_strlit("canvas");
    assert(role_name(21).len() != role_name(0).len());
    reveal_strlit("surface");
    assert(role_name(21).len() != role_name(1).len());
    reveal_strlit("surface_raised");
    assert(role_name(21).len() != role_name(2).len());
    reveal_strlit("surface_sunken");
    assert(role_name(21).len() != role_name(3).len());
    reveal_strlit("surface_sunken_alt");
    assert(role_name(21).len() != role_name(4).len());
    reveal_strlit("letterbox");
    assert(role_name(21).len() != role_name(5).len());
    reveal_strlit("border");
    assert(role_name(21).len() != role_name(6).len());
    reveal_strlit("border_raised");
    assert(role_name(21).len() != role_name(7).len());
    reveal_strlit("accent");
    assert(role_name(21).len() != role_name(8).len());
    reveal_strlit("on_accent");
    assert(role_name(21).len() != role_name(9).len());
    reveal_strlit("control_knob");
    assert(role_name(21).len() != role_name(10).len());
    reveal_strlit("control_track_off");
    assert(role_name(21).len() != role_name(11).len());
    reveal_strlit("success");
    assert(role_name(21).len() != role_name(12).len());
    reveal_strlit("danger");
    assert(role_name(21).len() != role_name(13).len());
    reveal_strlit("origin_mark");
    assert(role_name(21).len() != role_name(14).len());
    reveal_strlit("accent_tint_bg");
    assert(role_name(21).len() != role_name(15).len());
    reveal_strlit("accent_tint_text");
    assert(role_name(21).len() != role_name(16).len());
    reveal_strlit("trim_track");
    assert(role_name(21).len() != role_name(17).len());
    reveal_strlit("trim_range_fill");
    assert(role_name(21).len() != role_name(18).len());
    reveal_strlit("trim_range_edge");
    assert(role_name(21).len() != role_name(19).len());
    reveal_strlit("trim_range_excluded");
    assert(role_name(21).len() != role_name(20).len());
}

proof fn lemma_role_name_22_is_new()
    ensures
        forall|j: int| 0 <= j < 22 ==> role_name(22) != #[trigger] role_name(j),
{
    reveal_strlit("mute");
    reveal_strlit("canvas");
    assert(role_name(22).len() != role_name(0).len());
    reveal_strlit("surface");
    assert(role_name(22).len() != role_name(1).len());
    reveal_strlit("surface_raised");
    assert(role_name(22).len() != role_name(2).len());
    reveal_strlit("surface_sunken");
    assert(role_name(22).len() != role_name(3).len());
    reveal_strlit("surface_sunken_alt");
    assert(role_name(22).len() != role_name(4).len());
    reveal_strlit("letterbox");
    assert(role_name(22).len() != role_name(5).len());
    reveal_strlit("border");
    assert(role_name(22).len() != role_name(6).len());
    reveal_strlit("border_raised");
    assert(role_name(22).len() != role_name(7).len());
    reveal_strlit("accent");
    assert(role_name(22).len() != role_name(8).len());
    reveal_strlit("on_accent");
    assert(role_name(22).len() != role_name(9).len());
    reveal_strlit("control_knob");
    assert(role_name(22).len() != role_name(10).len());
    reveal_strlit("control_track_off");
    assert(role_name(22).len() != role_name(11).len());
    reveal_strlit("success");
    assert(role_name(22).len() != role_name(12).len());
    reveal_strlit("danger");
    assert(role_name(22).len() != role_name(13).len());
    reveal_strlit("origin_mark");
    assert(role_name(22).len() != role_name(14).len());
    reveal_strlit("accent_tint_bg");
    assert(role_name(22).len() != role_name(15).len());
    reveal_strlit("accent_tint_text");
    assert(role_name(22).len() != role_name(16).len());
    reveal_strlit("trim_track");
    assert(role_name(22).len() != role_name(17).len());
    reveal_strlit("trim_range_fill");
    assert(role_name(22).len() != role_name(18).len());
    reveal_strlit("trim_range_edge");
    assert(role_name(22).len() != role_name(19).len());
    reveal_strlit("trim_range_excluded");
    assert(role_name(22).len() != role_name(20).len());
    reveal_strlit("playhead");
    assert(role_name(22).len() != role_name(21).len());
}

proof fn lemma_role_name_23_is_new()
    ensures
        forall|j: int| 0 <= j < 23 ==> role_name(23) != #[trigger] role_name(j),
{
    reveal_strlit("trim_out");
    reveal_strlit("canvas");
    assert(role_name(23).len() != role_name(0).len());
    reveal_strlit("surface");
    assert(role_name(23).len() != role_name(1).len());
    reveal_strlit("surface_raised");
    assert(role_name(23).len() != role_name(2).len());
    reveal_strlit("surface_sunken");
    assert(role_name(23).len() != role_name(3).len());
    reveal_strlit("surface_sunken_alt");
    assert(role_name(23).len() != role_name(4).len());
    reveal_strlit("letterbox");
    assert(role_name(23).len() != role_name(5).len());
    reveal_strlit("border");
    assert(role_name(23).len() != role_name(6).len());
    reveal_strlit("border_raised");
    assert(role_name(23).len() != role_name(7).len());
    reveal_strlit("accent");
    assert(role_name(23).len() != role_name(8).len());
    reveal_strlit("on_accent");
    assert(role_name(23).len() != role_name(9).len());
    reveal_strlit("control_knob");
    assert(role_name(23).len() != role_name(10).len());
    reveal_strlit("control_track_off");
    assert(role_name(23).len() != role_name(11).len());
    reveal_strlit("success");
    assert(role_name(23).len() != role_name(12).len());
    reveal_strlit("danger");
    assert(role_name(23).len() != role_name(13).len());
    reveal_strlit("origin_mark");
    assert(role_name(23).len() != role_name(14).len());
    reveal_strlit("accent_tint_bg");
    assert(role_name(23).len() != role_name(15).len());
    reveal_strlit("accent_tint_text");
    assert(role_name(23).len() != role_name(16).len());
    reveal_strlit("trim_track");
    assert(role_name(23).len() != role_name(17).len());
    reveal_strlit("trim_range_fill");
    assert(role_name(23).len() != role_name(18).len());
    reveal_strlit("trim_range_edge");
    assert(role_name(23).len() != role_name(19).len());
    reveal_strlit("trim_range_excluded");
    assert(role_name(23).len() != role_name(20).len());
    reveal_strlit("playhead");
    assert(role_name(23)[0] != role_name(21)[0]);
    reveal_strlit("mute");
    assert(role_name(23).len() != role_name(22).len());
}

proof fn lemma_role_name_24_is_new()
    ensures
        forall|j: int| 0 <= j < 24 ==> role_name(24) != #[trigger] role_name(j),
{
    reveal_strlit("trim_out_hover");
    reveal_strlit("canvas");
    assert(role_name(24).len() != role_name(0).len());
    reveal_strlit("surface");
    assert(role_name(24).len() != role_name(1).len());
    reveal_strlit("surface_raised");
    assert(role_name(24)[0] != role_name(2)[0]);
    reveal_strlit("surface_sunken");
    assert(role_name(24)[0] != role_name(3)[0]);
    reveal_strlit("surface_sunken_alt");
    assert(role_name(24).len() != role_name(4).len());
    reveal_strlit("letterbox");
    assert(role_name(24).len() != role_name(5).len());
    reveal_strlit("border");
    assert(role_name(24).len() != role_name(6).len());
    reveal_strlit("border_raised");
    assert(role_name(24).len() != role_name(7).len());
    reveal_strlit("accent");
    assert(role_name(24).len() != role_name(8).len());
    reveal_strlit("on_accent");
    assert(role_name(24).len() != role_name(9).len());
    reveal_strlit("control_knob");
    assert(role_name(24).len() != role_name(10).len());
    reveal_strlit("control_track_off");
    assert(role_name(24).len() != role_name(11).len());
    reveal_strlit("success");
    assert(role_name(24).len() != role_name(12).len());
    reveal_strlit("danger");
    assert(role_name(24).len() != role_name(13).len());
    reveal_strlit("origin_mark");
    assert(role_name(24).len() != role_name(14).len());
    reveal_strlit("accent_tint_bg");
    assert(role_name(24)[0] != role_name(15)[0]);
    reveal_strlit("accent_tint_text");
    assert(role_name(24).len() != role_name(16).len());
    reveal_strlit("trim_track");
    assert(role_name(24).len() != role_name(17).len());
    reveal_strlit("trim_range_fill");
    assert(role_name(24).len() != role_name(18).len());
    reveal_strlit("trim_range_edge");
    assert(role_name(24).len() != role_name(19).len());
    reveal_strlit("trim_range_excluded");
    assert(role_name(24).len() != role_name(20).len());
    reveal_strlit("playhead");
    assert(role_name(24).len() != role_name(21).len());
    reveal_strlit("mute");
    assert(role_name(24).len() != role_name(22).len());
    reveal_strlit("trim_out");
    assert(role_name(24).len() != role_name(23).len());
}

proof fn lemma_role_name_25_is_new()
    ensures
        forall|j: int| 0 <= j < 25 ==> role_name(25) != #[trigger] role_name(j),
{
    reveal_strlit("stage_badge_text");
    reveal_strlit("canvas");
    assert(role_name(25).len() != role_name(0).len());
    reveal_strlit("surface");
    assert(role_name(25).len() != role_name(1).len());
    reveal_strlit("surface_raised");
    assert(role_name(25).len() != role_name(2).len());
    reveal_strlit("surface_sunken");
    assert(role_name(25).len() != role_name(3).len());
    reveal_strlit("surface_sunken_alt");
    assert(role_name(25).len() != role_name(4).len());
    reveal_strlit("letterbox");
    assert(role_name(25).len() != role_name(5).len());
    reveal_strlit("border");
    assert(role_name(25).len() != role_name(6).len());
    reveal_strlit("border_raised");
    assert(role_name(25).len() != role_name(7).len());
    reveal_strlit("accent");
    assert(role_name(25).len() != role_name(8).len());
    reveal_strlit("on_accent");
    assert(role_name(25).len() != role_name(9).len());
    reveal_strlit("control_knob");
    assert(role_name(25).len() != role_name(10).len());
    reveal_strlit("control_track_off");
    assert(role_name(25).len() != role_name(11).len());
    reveal_strlit("success");
    assert(role_name(25).len() != role_name(12).len());
    reveal_strlit("danger");
    assert(role_name(25).len() != role_name(13).len());
    reveal_strlit("origin_mark");
    assert(role_name(25).len() != role_name(14).len());
    reveal_strlit("accent_tint_bg");
    assert(role_name(25).len() != role_name(15).len());
    reveal_strlit("accent_tint_text");
    assert(role_name(25)[0] != role_name(16)[0]);
    reveal_strlit("trim_track");
    assert(role_name(25).len() != role_name(17).len());
    reveal_strlit("trim_range_fill");
    assert(role_name(25).len() != role_name(18).len());
    reveal_strlit("trim_range_edge");
    assert(role_name(25).len() != role_name(19).len());
    reveal_strlit("trim_range_excluded");
    assert(role_name(25).len() != role_name(20).len());
    reveal_strlit("playhead");
    assert(role_name(25).len() != role_name(21).len());
    reveal_strlit("mute");
    assert(role_name(25).len() != role_name(22).len());
    reveal_strlit("trim_out");
    assert(role_name(25).len() != role_name(23).len());
    reveal_strlit("trim_out_hover");
    assert(role_name(25).len() != role_name(24).len());
}

proof fn lemma_role_name_26_is_new()
    ensures
        forall|j: int| 0 <= j < 26 ==> role_name(26) != #[trigger] role_name(j),
{
    reveal_strlit("stage_badge_text_dim");
    reveal_strlit("canvas");
    assert(role_name(26).len() != role_name(0).len());
    reveal_strlit("surface");
    assert(role_name(26).len() != role_name(1).len());
    reveal_strlit("surface_raised");
    assert(role_name(26).len() != role_name(2).len());
    reveal_strlit("surface_sunken");
    assert(role_name(26).len() != role_name(3).len());
    reveal_strlit("surface_sunken_alt");
    assert(role_name(26).len() != role_name(4).len());
    reveal_strlit("letterbox");
    assert(role_name(26).len() != role_name(5).len());
    reveal_strlit("border");
    assert(role_name(26).len() != role_name(6).len());
    reveal_strlit("border_raised");
    assert(role_name(26).len() != role_name(7).len());
    reveal_strlit("accent");
    assert(role_name(26).len() != role_name(8).len());
    reveal_strlit("on_accent");
    assert(role_name(26).len() != role_name(9).len());
    reveal_strlit("control_knob");
    assert(role_name(26).len() != role_name(10).len());
    reveal_strlit("control_track_off");
    assert(role_name(26).len() != role_name(11).len());
    reveal_strlit("success");
    assert(role_name(26).len() != role_name(12).len());
    reveal_strlit("danger");
    assert(role_name(26).len() != role_name(13).len());
    reveal_strlit("origin_mark");
    assert(role_name(26).len() != role_name(14).len());
    reveal_strlit("accent_tint_bg");
    assert(role_name(26).len() != role_name(15).len());
    reveal_strlit("accent_tint_text");
    assert(role_name(26).len() != role_name(16).len());
    reveal_strlit("trim_track");
    assert(role_name(26).len() != role_name(17).len());
    reveal_strlit("trim_range_fill");
    assert(role_name(26).len() != role_name(18).len());
    reveal_strlit("trim_range_edge");
    assert(role_name(26).len() != role_name(19).len());
    reveal_strlit("trim_range_excluded");
    assert(role_name(26).len() != role_name(20).len());
    reveal_strlit("playhead");
    assert(role_name(26).len() != role_name(21).len());
    reveal_strlit("mute");
    assert(role_name(26).len() != role_name(22).len());
    reveal_strlit("trim_out");
    assert(role_name(26).len() != role_name(23).len());
    reveal_strlit("trim_out_hover");
    assert(role_name(26).len() != role_name(24).len());
    reveal_strlit("stage_badge_text");
    assert(role_name(26).len() != role_name(25).len());
}

proof fn lemma_role_name_27_is_new()
    ensures
        forall|j: int| 0 <= j < 27 ==> role_name(27) != #[trigger] role_name(j),
{
    reveal_strlit("stage_shadow");
    reveal_strlit("canvas");
    assert(role_name(27).len() != role_name(0).len());
    reveal_strlit("surface");
    assert(role_name(27).len() != role_name(1).len());
    reveal_strlit("surface_raised");
    assert(role_name(27).len() != role_name(2).len());
    reveal_strlit("surface_sunken");
    assert(role_name(27).len() != role_name(3).len());
    reveal_strlit("surface_sunken_alt");
    assert(role_name(27).len() != role_name(4).len());
    reveal_strlit("letterbox");
    assert(role_name(27).len() != role_name(5).len());
    reveal_strlit("border");
    assert(role_name(27).len() != role_name(6).len());
    reveal_strlit("border_raised");
    assert(role_name(27).len() != role_name(7).len());
    reveal_strlit("accent");
    assert(role_name(27).len() != role_name(8).len());
    reveal_strlit("on_accent");
    assert(role_name(27).len() != role_name(9).len());
    reveal_strlit("control_knob");
    assert(role_name(27)[0] != role_name(10)[0]);
    reveal_strlit("control_track_off");
    assert(role_name(27).len() != role_name(11).len());
    reveal_strlit("success");
    assert(role_name(27).len() != role_name(12).len());
    reveal_strlit("danger");
    assert(role_name(27).len() != role_name(13).len());
    reveal_strlit("origin_mark");
    assert(role_name(27).len() != role_name(14).len());
    reveal_strlit("accent_tint_bg");
    assert(role_name(27).len() != role_name(15).len());
    reveal_strlit("accent_tint_text");
    assert(role_name(27).len() != role_name(16).len());
    reveal_strlit("trim_track");
    assert(role_name(27).len() != role_name(17).len());
    reveal_strlit("trim_range_fill");
    assert(role_name(27).len() != role_name(18).len());
    reveal_strlit("trim_range_edge");
    assert(role_name(27).len() != role_name(19).len());
    reveal_strlit("trim_range_excluded");
    assert(role_name(27).len() != role_name(20).len());
    reveal_strlit("playhead");
    assert(role_name(27).len() != role_name(21).len());
    reveal_strlit("mute");
    assert(role_name(27).len() != role_name(22).len());
    reveal_strlit("trim_out");
    assert(role_name(27).len() != role_name(23).len());
    reveal_strlit("trim_out_hover");
    assert(role_name(27).len() != role_name(24).len());
    reveal_strlit("stage_badge_text");
    assert(role_name(27).len() != role_name(25).len());
    reveal_strlit("stage_badge_text_dim");
    assert(role_name(27).len() != role_name(26).len());
}

proof fn lemma_role_name_28_is_new()
    ensures
        forall|j: int| 0 <= j < 28 ==> role_name(28) != #[trigger] role_name(j),
{
    reveal_strlit("text_primary");
    reveal_strlit("canvas");
    assert(role_name(28).len() != role_name(0).len());
    reveal_strlit("surface");
    assert(role_name(28).len() != role_name(1).len());
    reveal_strlit("surface_raised");
    assert(role_name(28).len() != role_name(2).len());
    reveal_strlit("surface_sunken");
    assert(role_name(28).len() != role_name(3).len());
    reveal_strlit("surface_sunken_alt");
    assert(role_name(28).len() != role_name(4).len());
    reveal_strlit("letterbox");
    assert(role_name(28).len() != role_name(5).len());
    reveal_strlit("border");
    assert(role_name(28).len() != role_name(6).len());
    reveal_strlit("border_raised");
    assert(role_name(28).len() != role_name(7).len());
    reveal_strlit("accent");
    assert(role_name(28).len() != role_name(8).len());
    reveal_strlit("on_accent");
    assert(role_name(28).len() != role_name(9).len());
    reveal_strlit("control_knob");
    assert(role_name(28)[0] != role_name(10)[0]);
    reveal_strlit("control_track_off");
    assert(role_name(28).len() != role_name(11).len());
    reveal_strlit("success");
    assert(role_name(28).len() != role_name(12).len());
    reveal_strlit("danger");
    assert(role_name(28).len() != role_name(13).len());
    reveal_strlit("origin_mark");
    assert(role_name(28).len() != role_name(14).len());
    reveal_strlit("accent_tint_bg");
    assert(role_name(28).len() != role_name(15).len());
    reveal_strlit("accent_tint_text");
    assert(role_name(28).len() != role_name(16).len());
    reveal_strlit("trim_track");
    assert(role_name(28).len() != role_name(17).len());
    reveal_strlit("trim_range_fill");
    assert(role_name(28).len() != role_name(18).len());
    reveal_strlit("trim_range_edge");
    assert(role_name(28).len() != role_name(19).len());
    reveal_strlit("trim_range_excluded");
    assert(role_name(28).len() != role_name(20).len());
    reveal_strlit("playhead");
    assert(role_name(28).len() != role_name(21).len());
    reveal_strlit("mute");
    assert(role_name(28).len() != role_name(22).len());
    reveal_strlit("trim_out");
    assert(role_name(28).len() != role_name(23).len());
    reveal_strlit("trim_out_hover");
    assert(role_name(28).len() != role_name(24).len());
    reveal_strlit("stage_badge_text");
    assert(role_name(28).len() != role_name(25).len());
    reveal_strlit("stage_badge_text_dim");
    assert(role_name(28).len() != role_name(26).len());
    reveal_strlit("stage_shadow");
    assert(role_name(28)[0] != role_name(27)[0]);
}

proof fn lemma_role_name_29_is_new()
    ensures
        forall|j: int| 0 <= j < 29 ==> role_name(29) != #[trigger] role_name(j),
{
    reveal_strlit("text_secondary");
    reveal_strlit("canvas");
    assert(role_name(29).len() != role_name(0).len());
    reveal_strlit("surface");
    assert(role_name(29).len() != role_name(1).len());
    reveal_strlit("surface_raised");
    assert(role_name(29)[0] != role_name(2)[0]);
    reveal_strlit("surface_sunken");
    assert(role_name(29)[0] != role_name(3)[0]);
    reveal_strlit("surface_sunken_alt");
    assert(role_name(29).len() != role_name(4).len());
    reveal_strlit("letterbox");
    assert(role_name(29).len() != role_name(5).len());
    reveal_strlit("border");
    assert(role_name(29).len() != role_name(6).len());
    reveal_strlit("border_raised");
    assert(role_name(29).len() != role_name(7).len());
    reveal_strlit("accent");
    assert(role_name(29).len() != role_name(8).len());
    reveal_strlit("on_accent");
    assert(role_name(29).len() != role_name(9).len());
    reveal_strlit("control_knob");
    assert(role_name(29).len() != role_name(10).len());
    reveal_strlit("control_track_off");
    assert(role_name(29).len() != role_name(11).len());
    reveal_strlit("success");
    assert(role_name(29).len() != role_name(12).len());
    reveal_strlit("danger");
    assert(role_name(29).len() != role_name(13).len());
    reveal_strlit("origin_mark");
    assert(role_name(29).len() != role_name(14).len());
    reveal_strlit("accent_tint_bg");
    assert(role_name(29)[0] != role_name(15)[0]);
    reveal_strlit("accent_tint_text");
    assert(role_name(29).len() != role_name(16).len());
    reveal_strlit("trim_track");
    assert(role_name(29).len() != role_name(17).len());
    reveal_strlit("trim_range_fill");
    assert(role_name(29).len() != role_name(18).len());
    reveal_strlit("trim_range_edge");
    assert(role_name(29).len() != role_name(19).len());
    reveal_strlit("trim_range_excluded");
    assert(role_name(29).len() != role_name(20).len());
    reveal_strlit("playhead");
    assert(role_name(29).len() != role_name(21).len());
    reveal_strlit("mute");
    assert(role_name(29).len() != role_name(22).len());
    reveal_strlit("trim_out");
    assert(role_name(29).len() != role_name(23).len());
    reveal_strlit("trim_out_hover");
    assert(role_name(29)[1] != role_name(24)[1]);
    reveal_strlit("stage_badge_text");
    assert(role_name(29).len() != role_name(25).len());
    reveal_strlit("stage_badge_text_dim");
    assert(role_name(29).len() != role_name(26).len());
    reveal_strlit("stage_shadow");
    assert(role_name(29).len() != role_name(27).len());
    reveal_strlit("text_primary");
    assert(role_name(29).len() != role_name(28).len());
}

proof fn lemma_role_name_30_is_new()
    ensures
        forall|j: int| 0 <= j < 30 ==> role_name(30) != #[trigger] role_name(j),
{
    reveal_strlit("text_secondary_alt");
    reveal_strlit("canvas");
    assert(role_name(30).len() != role_name(0).len());
    reveal_strlit("surface");
    assert(role_name(30).len() != role_name(1).len());
    reveal_strlit("surface_raised");
    assert(role_name(30).len() != role_name(2).len());
    reveal_strlit("surface_sunken");
    assert(role_name(30).len() != role_name(3).len());
    reveal_strlit("surface_sunken_alt");
    assert(role_name(30)[0] != role_name(4)[0]);
    reveal_strlit("letterbox");
    assert(role_name(30).len() != role_name(5).len());
    reveal_strlit("border");
    assert(role_name(30).len() != role_name(6).len());
    reveal_strlit("border_raised");
    assert(role_name(30).len() != role_name(7).len());
    reveal_strlit("accent");
    assert(role_name(30).len() != role_name(8).len());
    reveal_strlit("on_accent");
    assert(role_name(30).len() != role_name(9).len());
    reveal_strlit("control_knob");
    assert(role_name(30).len() != role_name(10).len());
    reveal_strlit("control_track_off");
    assert(role_name(30).len() != role_name(11).len());
    reveal_strlit("success");
    assert(role_name(30).len() != role_name(12).len());
    reveal_strlit("danger");
    assert(role_name(30).len() != role_name(13).len());
    reveal_strlit("origin_mark");
    assert(role_name(30).len() != role_name(14).len());
    reveal_strlit("accent_tint_bg");
    assert(role_name(30).len() != role_name(15).len());
    reveal_strlit("accent_tint_text");
    assert(role_name(30).len() != role_name(16).len());
    reveal_strlit("trim_track");
    assert(role_name(30).len() != role_name(17).len());
    reveal_strlit("trim_range_fill");
    assert(role_name(30).len() != role_name(18).len());
    reveal_strlit("trim_range_edge");
    assert(role_name(30).len() != role_name(19).len());
    reveal_strlit("trim_range_excluded");
    assert(role_name(30).len() != role_name(20).len());
    reveal_strlit("playhead");
    assert(role_name(30).len() != role_name(21).len());
    reveal_strlit("mute");
    assert(role_name(30).len() != role_name(22).len());
    reveal_strlit("trim_out");
    assert(role_name(30).len() != role_name(23).len());
    reveal_strlit("trim_out_hover");
    assert(role_name(30).len() != role_name(24).len());
    reveal_strlit("stage_badge_text");
    assert(role_name(30).len() != role_name(25).len());
    reveal_strlit("stage_badge_text_dim");
    assert(role_name(30).len() != role_name(26).len());
    reveal_strlit("stage_shadow");
    assert(role_name(30).len() != role_name(27).len());
    reveal_strlit("text_primary");
    assert(role_name(30).len() != role_name(28).len());
    reveal_strlit("text_secondary");
    assert(role_name(30).len() != role_name(29).len());
}

proof fn lemma_role_name_31_is_new()
    ensures
        forall|j: int| 0 <= j < 31 ==> role_name(31) != #[trigger] role_name(j),
{
    reveal_strlit("text_muted");
    reveal_strlit("canvas");
    assert(role_name(31).len() != role_name(0).len());
    reveal_strlit("surface");
    assert(role_name(31).len() != role_name(1).len());
    reveal_strlit("surface_raised");
    assert(role_name(31).len() != role_name(2).len());
    reveal_strlit("surface_sunken");
    assert(role_name(31).len() != role_name(3).len());
    reveal_strlit("surface_sunken_alt");
    assert(role_name(31).len() != role_name(4).len());
    reveal_strlit("letterbox");
    assert(role_name(31).len() != role_name(5).len());
    reveal_strlit("border");
    assert(role_name(31).len() != role_name(6).len());
    reveal_strlit("border_raised");
    assert(role_name(31).len() != role_name(7).len());
    reveal_strlit("accent");
    assert(role_name(31).len() != role_name(8).len());
    reveal_strlit("on_accent");
    assert(role_name(31).len() != role_name(9).len());
    reveal_strlit("control_knob");
    assert(role_name(31).len() != role_name(10).len());
    reveal_strlit("control_track_off");
    assert(role_name(31).len() != role_name(11).len());
    reveal_strlit("success");
    assert(role_name(31).len() != role_name(12).len());
    reveal_strlit("danger");
    assert(role_name(31).len() != role_name(13).len());
    reveal_strlit("origin_mark");
    assert(role_name(31).len() != role_name(14).len());
    reveal_strlit("accent_tint_bg");
    assert(role_name(31).len() != role_name(15).len());
    reveal_strlit("accent_tint_text");
    assert(role_name(31).len() != role_name(16).len());
    reveal_strlit("trim_track");
    assert(role_name(31)[1] != role_name(17)[1]);
    reveal_strlit("trim_range_fill");
    assert(role_name(31).len() != role_name(18).len());
    reveal_strlit("trim_range_edge");
    assert(role_name(31).len() != role_name(19).len());
    reveal_strlit("trim_range_excluded");
    assert(role_name(31).len() != role_name(20).len());
    reveal_strlit("playhead");
    assert(role_name(31).len() != role_name(21).len());
    reveal_strlit("mute");
    assert(role_name(31).len() != role_name(22).len());
    reveal_strlit("trim_out");
    assert(role_name(31).len() != role_name(23).len());
    reveal_strlit("trim_out_hover");
    assert(role_name(31).len() != role_name(24).len());
    reveal_strlit("stage_badge_text");
    assert(role_name(31).len() != role_name(25).len());
    reveal_strlit("stage_badge_text_dim");
    assert(role_name(31).len() != role_name(26).len());
    reveal_strlit("stage_shadow");
    assert(role_name(31).len() != role_name(27).len());
    reveal_strlit("text_primary");
    assert(role_name(31).len() != role_name(28).len());
    reveal_strlit("text_secondary");
    assert(role_name(31).len() != role_name(29).len());
    reveal_strlit("text_secondary_alt");
    assert(role_name(31).len() != role_name(30).len());
}

proof fn lemma_role_name_32_is_new()
    ensures
        forall|j: int| 0 <= j < 32 ==> role_name(32) != #[trigger] role_name(j),
{
    reveal_strlit("text_muted_alt");
    reveal_strlit("canvas");
    assert(role_name(32).len() != role_name(0).len());
    reveal_strlit("surface");
    assert(role_name(32).len() != role_name(1).len());
    reveal_strlit("surface_raised");
    assert(role_name(32)[0] != role_name(2)[0]);
    reveal_strlit("surface_sunken");
    assert(role_name(32)[0] != role_name(3)[0]);
    reveal_strlit("surface_sunken_alt");
    assert(role_name(32).len() != role_name(4).len());
    reveal_strlit("letterbox");
    assert(role_name(32).len() != role_name(5).len());
    reveal_strlit("border");
    assert(role_name(32).len() != role_name(6).len());
    reveal_strlit("border_raised");
    assert(role_name(32).len() != role_name(7).len());
    reveal_strlit("accent");
    assert(role_name(32).len() != role_name(8).len());
    reveal_strlit("on_accent");
    assert(role_name(32).len() != role_name(9).len());
    reveal_strlit("control_knob");
    assert(role_name(32).len() != role_name(10).len());
    reveal_strlit("control_track_off");
    assert(role_name(32).len() != role_name(11).len());
    reveal_strlit("success");
    assert(role_name(32).len() != role_name(12).len());
    reveal_strlit("danger");
    assert(role_name(32).len() != role_name(13).len());
    reveal_strlit("origin_mark");
    assert(role_name(32).len() != role_name(14).len());
    reveal_strlit("accent_tint_bg");
    assert(role_name(32)[0] != role_name(15)[0]);
    reveal_strlit("accent_tint_text");
    assert(role_name(32).len() != role_name(16).len());
    reveal_strlit("trim_track");
    assert(role_name(32).len() != role_name(17).len());
    reveal_strlit("trim_range_fill");
    assert(role_name(32).len() != role_name(18).len());
    reveal_strlit("trim_range_edge");
    assert(role_name(32).len() != role_name(19).len());
    reveal_strlit("trim_range_excluded");
    assert(role_name(32).len() != role_name(20).len());
    reveal_strlit("playhead");
    assert(role_name(32).len() != role_name(21).len());
    reveal_strlit("mute");
    assert(role_name(32).len() != role_name(22).len());
    reveal_strlit("trim_out");
    assert(role_name(32).len() != role_name(23).len());
    reveal_strlit("trim_out_hover");
    assert(role_name(32)[1] != role_name(24)[1]);
    reveal_strlit("stage_badge_text");
    assert(role_name(32).len() != role_name(25).len());
    reveal_strlit("stage_badge_text_dim");
    assert(role_name(32).len() != role_name(26).len());
    reveal_strlit("stage_shadow");
    assert(role_name(32).len() != role_name(27).len());
    reveal_strlit("text_primary");
    assert(role_name(32).len() != role_name(28).len());
    reveal_strlit("text_secondary");
    assert(role_name(32)[5] != role_name(29)[5]);
    reveal_strlit("text_secondary_alt");
    assert(role_name(32).len() != role_name(30).len());
    reveal_strlit("text_muted");
    assert(role_name(32).len() != role_name(31).len());
}

proof fn lemma_role_name_33_is_new()
    ensures
        forall|j: int| 0 <= j < 33 ==> role_name(33) != #[trigger] role_name(j),
{
    reveal_strlit("surface_hover");
    reveal_strlit("canvas");
    assert(role_name(33).len() != role_name(0).len());
    reveal_strlit("surface");
    assert(role_name(33).len() != role_name(1).len());
    reveal_strlit("surface_raised");
    assert(role_name(33).len() != role_name(2).len());
    reveal_strlit("surface_sunken");
    assert(role_name(33).len() != role_name(3).len());
    reveal_strlit("surface_sunken_alt");
    assert(role_name(33).len() != role_name(4).len());
    reveal_strlit("letterbox");
    assert(role_name(33).len() != role_name(5).len());
    reveal_strlit("border");
    assert(role_name(33).len() != role_name(6).len());
    reveal_strlit("border_raised");
    assert(role_name(33)[0] != role_name(7)[0]);
    reveal_strlit("accent");
    assert(role_name(33).len() != role_name(8).len());
    reveal_strlit("on_accent");
    assert(role_name(33).len() != role_name(9).len());
    reveal_strlit("control_knob");
    assert(role_name(33).len() != role_name(10).len());
    reveal_strlit("control_track_off");
    assert(role_name(33).len() != role_name(11).len());
    reveal_strlit("success");
    assert(role_name(33).len() != role_name(12).len());
    reveal_strlit("danger");
    assert(role_name(33).len() != role_name(13).len());
    reveal_strlit("origin_mark");
    assert(role_name(33).len() != role_name(14).len());
    reveal_strlit("accent_tint_bg");
    assert(role_name(33).len() != role_name(15).len());
    reveal_strlit("accent_tint_text");
    assert(role_name(33).len() != role_name(16).len());
    reveal_strlit("trim_track");
    assert(role_name(33).len() != role_name(17).len());
    reveal_strlit("trim_range_fill");
    assert(role_name(33).len() != role_name(18).len());
    reveal_strlit("trim_range_edge");
    assert(role_name(33).len() != role_name(19).len());
    reveal_strlit("trim_range_excluded");
    assert(role_name(33).len() != role_name(20).len());
    reveal_strlit("playhead");
    assert(role_name(33).len() != role_name(21).len());
    reveal_strlit("mute");
    assert(role_name(33).len() != role_name(22).len());
    reveal_strlit("trim_out");
    assert(role_name(33).len() != role_name(23).len());
    reveal_strlit("trim_out_hover");
    assert(role_name(33).len() != role_name(24).len());
    reveal_strlit("stage_badge_text");
    assert(role_name(33).len() != role_name(25).len());
    reveal_strlit("stage_badge_text_dim");
    assert(role_name(33).len() != role_name(26).len());
    reveal_strlit("stage_shadow");
    assert(role_name(33).len() != role_name(27).len());
    reveal_strlit("text_primary");
    assert(role_name(33).len() != role_name(28).len());
    reveal_strlit("text_secondary");
    assert(role_name(33).len() != role_name(29).len());
    reveal_strlit("text_secondary_alt");
    assert(role_name(33).len() != role_name(30).len());
    reveal_strlit("text_muted");
    assert(role_name(33).len() != role_name(31).len());
    reveal_strlit("text_muted_alt");
    assert(role_name(33).len() != role_name(32).len());
}

proof fn lemma_role_name_34_is_new()
    ensures
        forall|j: int| 0 <= j < 34 ==> role_name(34) != #[trigger] role_name(j),
{
    reveal_strlit("accent_hover");
    reveal_strlit("canvas");
    assert(role_name(34).len() != role_name(0).len());
    reveal_strlit("surface");
    assert(role_name(34).len() != role_name(1).len());
    reveal_strlit("surface_raised");
    assert(role_name(34).len() != role_name(2).len());
    reveal_strlit("surface_sunken");
    assert(role_name(34).len() != role_name(3).len());
    reveal_strlit("surface_sunken_alt");
    assert(role_name(34).len() != role_name(4).len());
    reveal_strlit("letterbox");
    assert(role_name(34).len() != role_name(5).len());
    reveal_strlit("border");
    assert(role_name(34).len() != role_name(6).len());
    reveal_strlit("border_raised");
    assert(role_name(34).len() != role_name(7).len());
    reveal_strlit("accent");
    assert(role_name(34).len() != role_name(8).len());
    reveal_strlit("on_accent");
    assert(role_name(34).len() != role_name(9).len());
    reveal_strlit("control_knob");
    assert(role_name(34)[0] != role_name(10)[0]);
    reveal_strlit("control_track_off");
    assert(role_name(34).len() != role_name(11).len());
    reveal_strlit("success");
    assert(role_name(34).len() != role_name(12).len());
    reveal_strlit("danger");
    assert(role_name(34).len() != role_name(13).len());
    reveal_strlit("origin_mark");
    assert(role_name(34).len() != role_name(14).len());
    reveal_strlit("accent_tint_bg");
    assert(role_name(34).len() != role_name(15).len());
    reveal_strlit("accent_tint_text");
    assert(role_name(34).len() != role_name(16).len());
    reveal_strlit("trim_track");
    assert(role_name(34).len() != role_name(17).len());
    reveal_strlit("trim_range_fill");
    assert(role_name(34).len() != role_name(18).len());
    reveal_strlit("trim_range_edge");
    assert(role_name(34).len() != role_name(19).len());
    reveal_strlit("trim_range_excluded");
    assert(role_name(34).len() != role_name(20).len());
    reveal_strlit("playhead");
    assert(role_name(34).len() != role_name(21).len());
    reveal_strlit("mute");
    assert(role_name(34).len() != role_name(22).len());
    reveal_strlit("trim_out");
    assert(role_name(34).len() != role_name(23).len());
    reveal_strlit("trim_out_hover");
    assert(role_name(34).len() != role_name(24).len());
    reveal_strlit("stage_badge_text");
    assert(role_name(34).len() != role_name(25).len());
    reveal_strlit("stage_badge_text_dim");
    assert(role_name(34).len() != role_name(26).len());
    reveal_strlit("stage_shadow");
    assert(role_name(34)[0] != role_name(27)[0]);
    reveal_strlit("text_primary");
    assert(role_name(34)[0] != role_name(28)[0]);
    reveal_strlit("text_secondary");
    assert(role_name(34).len() != role_name(29).len());
    reveal_strlit("text_secondary_alt");
    assert(role_name(34).len() != role_name(30).len());
    reveal_strlit("text_muted");
    assert(role_name(34).len() != role_name(31).len());
    reveal_strlit("text_muted_alt");
    assert(role_name(34).len() != role_name(32).len());
    reveal_strlit("surface_hover");
    assert(role_name(34).len() != role_name(33).len());
}

proof fn lemma_role_name_35_is_new()
    ensures
        forall|j: int| 0 <= j < 35 ==> role_name(35) != #[trigger] role_name(j),
{
    reveal_strlit("waveform");
    reveal_strlit("canvas");
    assert(role_name(35).len() != role_name(0).len());
    reveal_strlit("surface");
    assert(role_name(35).len() != role_name(1).len());
    reveal_strlit("surface_raised");
    assert(role_name(35).len() != role_name(2).len());
    reveal_strlit("surface_sunken");
    assert(role_name(35).len() != role_name(3).len());
    reveal_strlit("surface_sunken_alt");
    assert(role_name(35).len() != role_name(4).len());
    reveal_strlit("letterbox");
    assert(role_name(35).len() != role_name(5).len());
    reveal_strlit("border");
    assert(role_name(35).len() != role_name(6).len());
    reveal_strlit("border_raised");
    assert(role_name(35).len() != role_name(7).len());
    reveal_strlit("accent");
    assert(role_name(35).len() != role_name(8).len());
    reveal_strlit("on_accent");
    assert(role_name(35).len() != role_name(9).len());
    reveal_strlit("control_knob");
    assert(role_name(35).len() != role_name(10).len());
    reveal_strlit("control_track_off");
    assert(role_name(35).len() != role_name(11).len());
    reveal_strlit("success");
    assert(role_name(35).len() != role_name(12).len());
    reveal_strlit("danger");
    assert(role_name(35).len() != role_name(13).len());
    reveal_strlit("origin_mark");
    assert(role_name(35).len() != role_name(14).len());
    reveal_strlit("accent_tint_bg");
    assert(role_name(35).len() != role_name(15).len());
    reveal_strlit("accent_tint_text");
    assert(role_name(35).len() != role_name(16).len());
    reveal_strlit("trim_track");
    assert(role_name(35).len() != role_name(17).len());
    reveal_strlit("trim_range_fill");
    assert(role_name(35).len() != role_name(18).len());
    reveal_strlit("trim_range_edge");
    assert(role_name(35).len() != role_name(19).len());
    reveal_strlit("trim_range_excluded");
    assert(role_name(35).len() != role_name(20).len());
    reveal_strlit("playhead");
    assert(role_name(35)[0] != role_name(21)[0]);
    reveal_strlit("mute");
    assert(role_name(35).len() != role_name(22).len());
    reveal_strlit("trim_out");
    assert(role_name(35)[0] != role_name(23)[0]);
    reveal_strlit("trim_out_hover");
    assert(role_name(35).len() != role_name(24).len());
    reveal_strlit("stage_badge_text");
    assert(role_name(35).len() != role_name(25).len());
    reveal_strlit("stage_badge_text_dim");
    assert(role_name(35).len() != role_name(26).len());
    reveal_strlit("stage_shadow");
    assert(role_name(35).len() != role_name(27).len());
    reveal_strlit("text_primary");
    assert(role_name(35).len() != role_name(28).len());
    reveal_strlit("text_secondary");
    assert(role_name(35).len() != role_name(29).len());
    reveal_strlit("text_secondary_alt");
    assert(role_name(35).len() != role_name(30).len());
    reveal_strlit("text_muted");
    assert(role_name(35).len() != role_name(31).len());
    reveal_strlit("text_muted_alt");
    assert(role_name(35).len() != role_name(32).len());
    reveal_strlit("surface_hover");
    assert(role_name(35).len() != role_name(33).len());
    reveal_strlit("accent_hover");
    assert(role_name(35).len() != role_name(34).len());
}

proof fn lemma_role_name_36_is_new()
    ensures
        forall|j: int| 0 <= j < 36 ==> role_name(36) != #[trigger] role_name(j),
{
    reveal_strlit("mute_border");
    reveal_strlit("canvas");
    assert(role_name(36).len() != role_name(0).len());
    reveal_strlit("surface");
    assert(role_name(36).len() != role_name(1).len());
    reveal_strlit("surface_raised");
    assert(role_name(36).len() != role_name(2).len());
    reveal_strlit("surface_sunken");
    assert(role_name(36).len() != role_name(3).len());
    reveal_strlit("surface_sunken_alt");
    assert(role_name(36).len() != role_name(4).len());
    reveal_strlit("letterbox");
    assert(role_name(36).len() != role_name(5).len());
    reveal_strlit("border");
    assert(role_name(36).len() != role_name(6).len());
    reveal_strlit("border_raised");
    assert(role_name(36).len() != role_name(7).len());
    reveal_strlit("accent");
    assert(role_name(36).len() != role_name(8).len());
    reveal_strlit("on_accent");
    assert(role_name(36).len() != role_name(9).len());
    reveal_strlit("control_knob");
    assert(role_name(36).len() != role_name(10).len());
    reveal_strlit("control_track_off");
    assert(role_name(36).len() != role_name(11).len());
    reveal_strlit("success");
    assert(role_name(36).len() != role_name(12).len());
    reveal_strlit("danger");
    assert(role_name(36).len() != role_name(13).len());
    reveal_strlit("origin_mark");
    assert(role_name(36)[0] != role_name(14)[0]);
    reveal_strlit("accent_tint_bg");
    assert(role_name(36).len() != role_name(15).len());
    reveal_strlit("accent_tint_text");
    assert(role_name(36).len() != role_name(16).len());
    reveal_strlit("trim_track");
    assert(role_name(36).len() != role_name(17).len());
    reveal_strlit("trim_range_fill");
    assert(role_name(36).len() != role_name(18).len());
    reveal_strlit("trim_range_edge");
    assert(role_name(36).len() != role_name(19).len());
    reveal_strlit("trim_range_excluded");
    assert(role_name(36).len() != role_name(20).len());
    reveal_strlit("playhead");
    assert(role_name(36).len() != role_name(21).len());
    reveal_strlit("mute");
    assert(role_name(36).len() != role_name(22).len());
    reveal_strlit("trim_out");
    assert(role_name(36).len() != role_name(23).len());
    reveal_strlit("trim_out_hover");
    assert(role_name(36).len() != role_name(24).len());
    reveal_strlit("stage_badge_text");
    assert(role_name(36).len() != role_name(25).len());
    reveal_strlit("stage_badge_text_dim");
    assert(role_name(36).len() != role_name(26).len());
    reveal_strlit("stage_shadow");
    assert(role_name(36).len() != role_name(27).len());
    reveal_strlit("text_primary");
    assert(role_name(36).len() != role_name(28).len());
    reveal_strlit("text_secondary");
    assert(role_name(36).len() != role_name(29).len());
    reveal_strlit("text_secondary_alt");
    assert(role_name(36).len() != role_name(30).len());
    reveal_strlit("text_muted");
    assert(role_name(36).len() != role_name(31).len());
    reveal_strlit("text_muted_alt");
    assert(role_name(36).len() != role_name(32).len());
    reveal_strlit("surface_hover");
    assert(role_name(36).len() != role_name(33).len());
    reveal_strlit("accent_hover");
    assert(role_name(36).len() != role_name(34).len());
    reveal_strlit("waveform");
    assert(role_name(36).len() != role_name(35).len());
}

/// Role names `i` and `j` differ when `i != j`.
proof fn lemma_role_names_differ(i: int, j: int)
    requires
        0 <= i < 37,
        0 <= j < 37,
        i != j,
    ensures
        role_name(i) != role_name(j),
{
    let hi = if i > j {
        i
    } else {
        j
    };
    if hi == 1 {
        lemma_role_name_1_is_new();
    } else if hi == 2 {
        lemma_role_name_2_is_new();
    } else if hi == 3 {
        lemma_role_name_3_is_new();
    } else if hi == 4 {
        lemma_role_name_4_is_new();
    } else if hi == 5 {
        lemma_role_name_5_is_new();
    } else if hi == 6 {
        lemma_role_name_6_is_new();
    } else if hi == 7 {
        lemma_role_name_7_is_new();
    } else if hi == 8 {
        lemma_role_name_8_is_new();
    } else if hi == 9 {
        lemma_role_name_9_is_new();
    } else if hi == 10 {
        lemma_role_name_10_is_new();
    } else if hi == 11 {
        lemma_role_name_11_is_new();
    } else if hi == 12 {
        lemma_role_name_12_is_new();
    } else if hi == 13 {
        lemma_role_name_13_is_new();
    } else if hi == 14 {
        lemma_role_name_14_is_new();
    } else if hi == 15 {
        lemma_role_name_15_is_new();
    } else if hi == 16 {
        lemma_role_name_16_is_new();
    } else if hi == 17 {
        lemma_role_name_17_is_new();
    } else if hi == 18 {
        lemma_role_name_18_is_new();
    } else if hi == 19 {
        lemma_role_name_19_is_new();
    } else if hi == 20 {
        lemma_role_name_20_is_new();
    } else if hi == 21 {
        lemma_role_name_21_is_new();
    } else if hi == 22 {
        lemma_role_name_22_is_new();
    } else if hi == 23 {
        lemma_role_name_23_is_new();
    } else if hi == 24 {
        lemma_role_name_24_is_new();
    } else if hi == 25 {
        lemma_role_name_25_is_new();
    } else if hi == 26 {
        lemma_role_name_26_is_new();
    } else if hi == 27 {
        lemma_role_name_27_is_new();
    } else if hi == 28 {
        lemma_role_name_28_is_new();
    } else if hi == 29 {
        lemma_role_name_29_is_new();
    } else if hi == 30 {
        lemma_role_name_30_is_new();
    } else if hi == 31 {
        lemma_role_name_31_is_new();
    } else if hi == 32 {
        lemma_role_name_32_is_new();
    } else if hi == 33 {
        lemma_role_name_33_is_new();
    } else if hi == 34 {
        lemma_role_name_34_is_new();
    } else if hi == 35 {
        lemma_role_name_35_is_new();
    } else if hi == 36 {
        lemma_role_name_36_is_new();
    }
}

/// **Every documented role name is settable, and names its own role**:
/// looking up the `i`th name in `ROLE_NAMES` finds role `i`, so setting
/// every advertised name reaches every field of the palette.
pub proof fn law_role_names_find_their_own_role(i: int)
    requires
        0 <= i < 37,
    ensures
        role_index(role_name(i)) == Some(i),
{
    lemma_role_index_from(role_name(i), 0);
    assert forall|j: int| 0 <= j < i implies role_name(j) != role_name(i) by {
        lemma_role_names_differ(i, j);
    }
    lemma_role_index_from(role_name(i), 0);
}

} // verus!

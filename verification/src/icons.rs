//! Drawn icon paths.
//!
//! The design system's rule: icons are drawn paths at 1.6–1.8 stroke, 16px
//! in controls and 18px in inspector rows — no glyphs, no emoji. Each icon
//! is a small SVG document authored in a 24×24 viewbox, using
//! `currentColor` throughout so one definition can be recoloured for
//! every palette state.
use vstd::prelude::*;
use crate::text::{chars_of, ends_with, push_str, starts_with, string_of};

verus! {

/// Which icon to draw. A closed enum, not a string lookup, so a typo is a
/// compile error and the full inventory is greppable in one place.
#[derive(Copy, Clone, PartialEq, Eq, Hash, Debug, Structural)]
pub enum Icon {
    Play,
    Pause,
    StepBack,
    StepForward,
    Split,
    Delete,
    Duplicate,
    Undo,
    Redo,
    Download,
    ZoomIn,
    ZoomOut,
    SpeakerOn,
    SpeakerOff,
    VolumeHigh,
    /// GNOME's primary-menu hamburger. Three equal rules, which is what
    /// libadwaita's `open-menu-symbolic` draws -- not a stack of
    /// unequal lines, and not a kebab.
    Menu,
    /// Dismiss. Two rules crossing at the viewbox centre, at the family's
    /// own stroke weight. This closes a plate; it does not delete the
    /// plate's contents, which is `Delete`.
    Close,
    Lock,
    Folder,
    Sun,
    Moon,
}

/// The stroke attributes every outlined mark shares: 1.7 in a 24×24
/// viewbox, directly comparable to the design system's "1.6–1.8" figure.
pub const STROKE: &'static str = r#"fill="none" stroke="currentColor" stroke-width="1.7" stroke-linecap="round" stroke-linejoin="round""#;

/// `STROKE` at a caller-chosen weight, as text.
pub open spec fn stroke_at_text(width: Seq<char>) -> Seq<char> {
    r#"fill="none" stroke="currentColor" stroke-width=""#@ + width
        + r#"" stroke-linecap="round" stroke-linejoin="round""#@
}

/// `STROKE` at a caller-chosen weight.
///
/// Appending a second `stroke-width` after `STROKE` would put duplicate
/// attributes on one element — invalid SVG that the rasteriser drops
/// silently. This helper makes the correct form the easy one.
fn stroke_at(width: &str) -> (s: String)
    ensures
        s@ == stroke_at_text(width@),
{
    let mut v: Vec<char> = Vec::new();
    push_str(&mut v, r#"fill="none" stroke="currentColor" stroke-width=""#);
    push_str(&mut v, width);
    push_str(&mut v, r#"" stroke-linecap="round" stroke-linejoin="round""#);
    let s = string_of(&v);
    assert(s@ =~= stroke_at_text(width@));
    s
}

/// The inner markup of an icon's 24×24 viewbox.
pub open spec fn icon_body(icon: Icon) -> Seq<char> {
    match icon {
        Icon::Play => r#"<path d="M8 5 L19 12 L8 19 Z" fill="currentColor"/>"#@,
        Icon::Pause => r#"<path d="M9 5.5 V18.5 M15 5.5 V18.5" "#@ + stroke_at_text("2.4"@) + r#"/>"#@,
        Icon::StepBack => r#"<path d="M17 5.5 L17 18.5 L8 12 Z" fill="currentColor"/><path d="M6 5.5 V18.5" "#@ + stroke_at_text("1.9"@) + r#"/>"#@,
        Icon::StepForward => r#"<path d="M7 5.5 L7 18.5 L16 12 Z" fill="currentColor"/><path d="M18 5.5 V18.5" "#@ + stroke_at_text("1.9"@) + r#"/>"#@,
        Icon::Split => r#"<path d="M12 3.5 V20.5" "#@ + STROKE@ + r#" stroke-dasharray="3 3"/><path d="M8 8.5 L4.5 12 L8 15.5 M16 8.5 L19.5 12 L16 15.5" "#@ + STROKE@ + r#"/>"#@,
        Icon::Delete => r#"<path d="M5.5 7 H18.5 M7.5 7 L8.5 19.5 H15.5 L16.5 7 M9.5 7 V4.5 H14.5 V7" "#@ + STROKE@ + r#"/>"#@,
        Icon::Duplicate => r#"<path d="M8.5 4.5 H19.5 V15.5" "#@ + STROKE@ + r#"/><path d="M4.5 8.5 H15.5 V19.5 H4.5 Z" "#@ + STROKE@ + r#"/>"#@,
        Icon::Undo => r#"<path d="M9 7 L4.5 11 L9 15 M4.5 11 H14 C18.5 11 20 14 19 18.5" "#@ + STROKE@ + r#"/>"#@,
        Icon::Redo => r#"<path d="M15 7 L19.5 11 L15 15 M19.5 11 H10 C5.5 11 4 14 5 18.5" "#@ + STROKE@ + r#"/>"#@,
        Icon::Download => r#"<path d="M12 3.5 V15 M7.5 10.5 L12 15 L16.5 10.5 M4.5 18.5 H19.5" "#@ + STROKE@ + r#"/>"#@,
        Icon::ZoomIn => r#"<circle cx="10.5" cy="10.5" r="6" "#@ + STROKE@ + r#"/><path d="M15 15 L20 20 M7.5 10.5 H13.5 M10.5 7.5 V13.5" "#@ + STROKE@ + r#"/>"#@,
        Icon::ZoomOut => r#"<circle cx="10.5" cy="10.5" r="6" "#@ + STROKE@ + r#"/><path d="M15 15 L20 20 M7.5 10.5 H13.5" "#@ + STROKE@ + r#"/>"#@,
        Icon::SpeakerOn => r#"<path d="M4.5 9.5 H8 L12 5.5 V18.5 L8 14.5 H4.5 Z" "#@ + STROKE@ + r#"/><path d="M15 9 C17 10.5 17 13.5 15 15 M17.5 6.5 C21 9 21 15 17.5 17.5" "#@ + STROKE@ + r#"/>"#@,
        Icon::SpeakerOff => r#"<path d="M4.5 9.5 H8 L12 5.5 V18.5 L8 14.5 H4.5 Z" "#@ + STROKE@ + r#"/><path d="M15.5 9.5 L20.5 14.5 M20.5 9.5 L15.5 14.5" "#@ + STROKE@ + r#"/>"#@,
        Icon::VolumeHigh => r#"<path d="M3.5 9.5 H7 L11 5.5 V18.5 L7 14.5 H3.5 Z" "#@ + STROKE@ + r#"/><path d="M13.5 10 C14.8 11 14.8 13 13.5 14 M16 7.8 C18.4 9.6 18.4 14.4 16 16.2 M18.5 5.6 C22 8.2 22 15.8 18.5 18.4" "#@ + STROKE@ + r#"/>"#@,
        Icon::Menu => r#"<path d="M4 7.25 H20 M4 12 H20 M4 16.75 H20" "#@ + stroke_at_text("1.9"@) + r#"/>"#@,
        Icon::Close => r#"<path d="M6.5 6.5 L17.5 17.5 M17.5 6.5 L6.5 17.5" "#@ + STROKE@ + r#"/>"#@,
        Icon::Lock => r#"<path d="M6.5 11 H17.5 V19.5 H6.5 Z" "#@ + STROKE@ + r#"/><path d="M8.5 11 V8 C8.5 4.5 15.5 4.5 15.5 8 V11" "#@ + STROKE@ + r#"/>"#@,
        Icon::Folder => r#"<path d="M3.5 6.5 H9.5 L11.5 9 H20.5 V18.5 H3.5 Z" "#@ + STROKE@ + r#"/>"#@,
        Icon::Sun => r#"<circle cx="12" cy="12" r="4.5" "#@ + STROKE@ + r#"/><path d="M12 2.5 V5 M12 19 V21.5 M2.5 12 H5 M19 12 H21.5 M5.2 5.2 L7 7 M17 17 L18.8 18.8 M18.8 5.2 L17 7 M7 17 L5.2 18.8" "#@ + STROKE@ + r#"/>"#@,
        Icon::Moon => r#"<path d="M20 14.5 A9 9 0 1 1 9.5 4 A7 7 0 0 0 20 14.5 Z" "#@ + STROKE@ + r#"/>"#@,
    }
}

/// The opening tag every icon document starts with.
pub const SVG_OPEN: &'static str = r#"<svg xmlns="http://www.w3.org/2000/svg" viewBox="0 0 24 24" width="24" height="24">"#;

/// The complete SVG document for an icon.
pub open spec fn svg_text(icon: Icon) -> Seq<char> {
    SVG_OPEN@ + icon_body(icon) + "</svg>"@
}

impl Icon {
    /// Every icon, in declaration order.
    pub const ALL: [Icon; 21] = [
        Icon::Play,
        Icon::Pause,
        Icon::StepBack,
        Icon::StepForward,
        Icon::Split,
        Icon::Delete,
        Icon::Duplicate,
        Icon::Undo,
        Icon::Redo,
        Icon::Download,
        Icon::ZoomIn,
        Icon::ZoomOut,
        Icon::SpeakerOn,
        Icon::SpeakerOff,
        Icon::VolumeHigh,
        Icon::Menu,
        Icon::Close,
        Icon::Lock,
        Icon::Folder,
        Icon::Sun,
        Icon::Moon,
    ];

    /// The inner markup of this icon's 24×24 viewbox.
    fn body(self) -> (s: String)
        ensures
            s@ == icon_body(self),
    {
        let mut v: Vec<char> = Vec::new();
        match self {
            Icon::Play => {
                push_str(&mut v, r#"<path d="M8 5 L19 12 L8 19 Z" fill="currentColor"/>"#);
            },
            Icon::Pause => {
                push_str(&mut v, r#"<path d="M9 5.5 V18.5 M15 5.5 V18.5" "#);
                push_str(&mut v, stroke_at("2.4").as_str());
                push_str(&mut v, r#"/>"#);
            },
            Icon::StepBack => {
                push_str(&mut v, r#"<path d="M17 5.5 L17 18.5 L8 12 Z" fill="currentColor"/><path d="M6 5.5 V18.5" "#);
                push_str(&mut v, stroke_at("1.9").as_str());
                push_str(&mut v, r#"/>"#);
            },
            Icon::StepForward => {
                push_str(&mut v, r#"<path d="M7 5.5 L7 18.5 L16 12 Z" fill="currentColor"/><path d="M18 5.5 V18.5" "#);
                push_str(&mut v, stroke_at("1.9").as_str());
                push_str(&mut v, r#"/>"#);
            },
            Icon::Split => {
                push_str(&mut v, r#"<path d="M12 3.5 V20.5" "#);
                push_str(&mut v, STROKE);
                push_str(&mut v, r#" stroke-dasharray="3 3"/><path d="M8 8.5 L4.5 12 L8 15.5 M16 8.5 L19.5 12 L16 15.5" "#);
                push_str(&mut v, STROKE);
                push_str(&mut v, r#"/>"#);
            },
            Icon::Delete => {
                push_str(&mut v, r#"<path d="M5.5 7 H18.5 M7.5 7 L8.5 19.5 H15.5 L16.5 7 M9.5 7 V4.5 H14.5 V7" "#);
                push_str(&mut v, STROKE);
                push_str(&mut v, r#"/>"#);
            },
            Icon::Duplicate => {
                push_str(&mut v, r#"<path d="M8.5 4.5 H19.5 V15.5" "#);
                push_str(&mut v, STROKE);
                push_str(&mut v, r#"/><path d="M4.5 8.5 H15.5 V19.5 H4.5 Z" "#);
                push_str(&mut v, STROKE);
                push_str(&mut v, r#"/>"#);
            },
            Icon::Undo => {
                push_str(&mut v, r#"<path d="M9 7 L4.5 11 L9 15 M4.5 11 H14 C18.5 11 20 14 19 18.5" "#);
                push_str(&mut v, STROKE);
                push_str(&mut v, r#"/>"#);
            },
            Icon::Redo => {
                push_str(&mut v, r#"<path d="M15 7 L19.5 11 L15 15 M19.5 11 H10 C5.5 11 4 14 5 18.5" "#);
                push_str(&mut v, STROKE);
                push_str(&mut v, r#"/>"#);
            },
            Icon::Download => {
                push_str(&mut v, r#"<path d="M12 3.5 V15 M7.5 10.5 L12 15 L16.5 10.5 M4.5 18.5 H19.5" "#);
                push_str(&mut v, STROKE);
                push_str(&mut v, r#"/>"#);
            },
            Icon::ZoomIn => {
                push_str(&mut v, r#"<circle cx="10.5" cy="10.5" r="6" "#);
                push_str(&mut v, STROKE);
                push_str(&mut v, r#"/><path d="M15 15 L20 20 M7.5 10.5 H13.5 M10.5 7.5 V13.5" "#);
                push_str(&mut v, STROKE);
                push_str(&mut v, r#"/>"#);
            },
            Icon::ZoomOut => {
                push_str(&mut v, r#"<circle cx="10.5" cy="10.5" r="6" "#);
                push_str(&mut v, STROKE);
                push_str(&mut v, r#"/><path d="M15 15 L20 20 M7.5 10.5 H13.5" "#);
                push_str(&mut v, STROKE);
                push_str(&mut v, r#"/>"#);
            },
            Icon::SpeakerOn => {
                push_str(&mut v, r#"<path d="M4.5 9.5 H8 L12 5.5 V18.5 L8 14.5 H4.5 Z" "#);
                push_str(&mut v, STROKE);
                push_str(&mut v, r#"/><path d="M15 9 C17 10.5 17 13.5 15 15 M17.5 6.5 C21 9 21 15 17.5 17.5" "#);
                push_str(&mut v, STROKE);
                push_str(&mut v, r#"/>"#);
            },
            Icon::SpeakerOff => {
                push_str(&mut v, r#"<path d="M4.5 9.5 H8 L12 5.5 V18.5 L8 14.5 H4.5 Z" "#);
                push_str(&mut v, STROKE);
                push_str(&mut v, r#"/><path d="M15.5 9.5 L20.5 14.5 M20.5 9.5 L15.5 14.5" "#);
                push_str(&mut v, STROKE);
                push_str(&mut v, r#"/>"#);
            },
            Icon::VolumeHigh => {
                push_str(&mut v, r#"<path d="M3.5 9.5 H7 L11 5.5 V18.5 L7 14.5 H3.5 Z" "#);
                push_str(&mut v, STROKE);
                push_str(&mut v, r#"/><path d="M13.5 10 C14.8 11 14.8 13 13.5 14 M16 7.8 C18.4 9.6 18.4 14.4 16 16.2 M18.5 5.6 C22 8.2 22 15.8 18.5 18.4" "#);
                push_str(&mut v, STROKE);
                push_str(&mut v, r#"/>"#);
            },
            Icon::Menu => {
                push_str(&mut v, r#"<path d="M4 7.25 H20 M4 12 H20 M4 16.75 H20" "#);
                push_str(&mut v, stroke_at("1.9").as_str());
                push_str(&mut v, r#"/>"#);
            },
            Icon::Close => {
                push_str(&mut v, r#"<path d="M6.5 6.5 L17.5 17.5 M17.5 6.5 L6.5 17.5" "#);
                push_str(&mut v, STROKE);
                push_str(&mut v, r#"/>"#);
            },
            Icon::Lock => {
                push_str(&mut v, r#"<path d="M6.5 11 H17.5 V19.5 H6.5 Z" "#);
                push_str(&mut v, STROKE);
                push_str(&mut v, r#"/><path d="M8.5 11 V8 C8.5 4.5 15.5 4.5 15.5 8 V11" "#);
                push_str(&mut v, STROKE);
                push_str(&mut v, r#"/>"#);
            },
            Icon::Folder => {
                push_str(&mut v, r#"<path d="M3.5 6.5 H9.5 L11.5 9 H20.5 V18.5 H3.5 Z" "#);
                push_str(&mut v, STROKE);
                push_str(&mut v, r#"/>"#);
            },
            Icon::Sun => {
                push_str(&mut v, r#"<circle cx="12" cy="12" r="4.5" "#);
                push_str(&mut v, STROKE);
                push_str(&mut v, r#"/><path d="M12 2.5 V5 M12 19 V21.5 M2.5 12 H5 M19 12 H21.5 M5.2 5.2 L7 7 M17 17 L18.8 18.8 M18.8 5.2 L17 7 M7 17 L5.2 18.8" "#);
                push_str(&mut v, STROKE);
                push_str(&mut v, r#"/>"#);
            },
            Icon::Moon => {
                push_str(&mut v, r#"<path d="M20 14.5 A9 9 0 1 1 9.5 4 A7 7 0 0 0 20 14.5 Z" "#);
                push_str(&mut v, STROKE);
                push_str(&mut v, r#"/>"#);
            },
        }
        let s = string_of(&v);
        assert(s@ =~= icon_body(self));
        s
    }

    /// The complete SVG document for this icon.
    ///
    /// `currentColor` throughout, so the renderer's colour filter recolours
    /// the whole mark in one place — a single definition serves every
    /// palette state without a second copy per colour.
    pub fn svg_source(self) -> (s: String)
        ensures
            s@ == svg_text(self),
    {
        let mut v: Vec<char> = Vec::new();
        push_str(&mut v, SVG_OPEN);
        let b = self.body();
        push_str(&mut v, b.as_str());
        push_str(&mut v, "</svg>");
        let s = string_of(&v);
        assert(s@ =~= svg_text(self));
        s
    }
}

/// Whether `needle` occurs in `s`.
pub open spec fn contains_text(s: Seq<char>, needle: Seq<char>) -> bool {
    exists|k: int| 0 <= k <= s.len() - needle.len() && #[trigger] s.subrange(k, k + needle.len()) == needle
}

/// **Every icon is a well-formed SVG document**: it opens with an `<svg`
/// element carrying the 24×24 viewbox and is closed.
pub proof fn law_every_icon_is_an_svg_document(icon: Icon)
    ensures
        starts_with(svg_text(icon), "<svg "@),
        ends_with(svg_text(icon), "</svg>"@),
        contains_text(svg_text(icon), r#"viewBox="0 0 24 24""#@),
{
    reveal_strlit(r#"<svg xmlns="http://www.w3.org/2000/svg" viewBox="0 0 24 24" width="24" height="24">"#);
    reveal_strlit("<svg ");
    reveal_strlit("</svg>");
    reveal_strlit(r#"viewBox="0 0 24 24""#);
    let s = svg_text(icon);
    let open = SVG_OPEN@;
    assert(s.take(5) =~= "<svg "@);
    assert(s.skip(s.len() - 6) =~= "</svg>"@);
    let needle = r#"viewBox="0 0 24 24""#@;
    assert(s.subrange(40int, 40int + needle.len()) =~= needle);
}


/// No character of `s` is a `#`.
pub open spec fn no_hash(s: Seq<char>) -> bool {
    forall|k: int| 0 <= k < s.len() ==> s[k] != '#'
}

proof fn lemma_no_hash_concat(a: Seq<char>, b: Seq<char>)
    requires
        no_hash(a),
        no_hash(b),
    ensures
        no_hash(a + b),
{
    assert forall|k: int| 0 <= k < (a + b).len() implies (a + b)[k] != '#' by {
        if k >= a.len() {
            assert((a + b)[k] == b[k - a.len()]);
        }
    }
}

/// **No icon hardcodes a colour**: every mark is drawn in `currentColor`,
/// and no `#` — the start of any hex colour — appears anywhere in the
/// document, so the renderer's colour filter recolours the whole icon.
#[verifier::rlimit(100)]
pub proof fn law_no_icon_hardcodes_a_colour(icon: Icon)
    ensures
        no_hash(svg_text(icon)),
        contains_text(svg_text(icon), "currentColor"@),
{
    reveal_strlit("currentColor");
    let needle = "currentColor"@;
    match icon {
        Icon::Play => {
            reveal_strlit(r#"</svg>"#);
            reveal_strlit(r#"<path d="M8 5 L19 12 L8 19 Z" fill="currentColor"/>"#);
            reveal_strlit(r#"<svg xmlns="http://www.w3.org/2000/svg" viewBox="0 0 24 24" width="24" height="24">"#);
            assert(no_hash(r#"</svg>"#@));
            assert(no_hash(r#"<path d="M8 5 L19 12 L8 19 Z" fill="currentColor"/>"#@));
            assert(no_hash(r#"<svg xmlns="http://www.w3.org/2000/svg" viewBox="0 0 24 24" width="24" height="24">"#@));
            lemma_no_hash_concat(r#"<svg xmlns="http://www.w3.org/2000/svg" viewBox="0 0 24 24" width="24" height="24">"#@, r#"<path d="M8 5 L19 12 L8 19 Z" fill="currentColor"/>"#@);
            lemma_no_hash_concat(r#"<svg xmlns="http://www.w3.org/2000/svg" viewBox="0 0 24 24" width="24" height="24">"#@ + r#"<path d="M8 5 L19 12 L8 19 Z" fill="currentColor"/>"#@, "</svg>"@);
            assert(svg_text(Icon::Play) =~= r#"<svg xmlns="http://www.w3.org/2000/svg" viewBox="0 0 24 24" width="24" height="24">"#@ + r#"<path d="M8 5 L19 12 L8 19 Z" fill="currentColor"/>"#@ + "</svg>"@);
            assert(svg_text(Icon::Play).subrange(119int, 119int + needle.len()) =~= needle);
        },
        Icon::Pause => {
            reveal_strlit(r#"" stroke-linecap="round" stroke-linejoin="round""#);
            reveal_strlit(r#"/>"#);
            reveal_strlit(r#"2.4"#);
            reveal_strlit(r#"</svg>"#);
            reveal_strlit(r#"<path d="M9 5.5 V18.5 M15 5.5 V18.5" "#);
            reveal_strlit(r#"<svg xmlns="http://www.w3.org/2000/svg" viewBox="0 0 24 24" width="24" height="24">"#);
            reveal_strlit(r#"fill="none" stroke="currentColor" stroke-width=""#);
            assert(no_hash(r#"" stroke-linecap="round" stroke-linejoin="round""#@));
            assert(no_hash(r#"/>"#@));
            assert(no_hash(r#"2.4"#@));
            assert(no_hash(r#"</svg>"#@));
            assert(no_hash(r#"<path d="M9 5.5 V18.5 M15 5.5 V18.5" "#@));
            assert(no_hash(r#"<svg xmlns="http://www.w3.org/2000/svg" viewBox="0 0 24 24" width="24" height="24">"#@));
            assert(no_hash(r#"fill="none" stroke="currentColor" stroke-width=""#@));
            lemma_no_hash_concat(r#"<svg xmlns="http://www.w3.org/2000/svg" viewBox="0 0 24 24" width="24" height="24">"#@, r#"<path d="M9 5.5 V18.5 M15 5.5 V18.5" "#@);
            lemma_no_hash_concat(r#"<svg xmlns="http://www.w3.org/2000/svg" viewBox="0 0 24 24" width="24" height="24">"#@ + r#"<path d="M9 5.5 V18.5 M15 5.5 V18.5" "#@, r#"fill="none" stroke="currentColor" stroke-width=""#@);
            lemma_no_hash_concat(r#"<svg xmlns="http://www.w3.org/2000/svg" viewBox="0 0 24 24" width="24" height="24">"#@ + r#"<path d="M9 5.5 V18.5 M15 5.5 V18.5" "#@ + r#"fill="none" stroke="currentColor" stroke-width=""#@, "2.4"@);
            lemma_no_hash_concat(r#"<svg xmlns="http://www.w3.org/2000/svg" viewBox="0 0 24 24" width="24" height="24">"#@ + r#"<path d="M9 5.5 V18.5 M15 5.5 V18.5" "#@ + r#"fill="none" stroke="currentColor" stroke-width=""#@ + "2.4"@, r#"" stroke-linecap="round" stroke-linejoin="round""#@);
            lemma_no_hash_concat(r#"<svg xmlns="http://www.w3.org/2000/svg" viewBox="0 0 24 24" width="24" height="24">"#@ + r#"<path d="M9 5.5 V18.5 M15 5.5 V18.5" "#@ + r#"fill="none" stroke="currentColor" stroke-width=""#@ + "2.4"@ + r#"" stroke-linecap="round" stroke-linejoin="round""#@, r#"/>"#@);
            lemma_no_hash_concat(r#"<svg xmlns="http://www.w3.org/2000/svg" viewBox="0 0 24 24" width="24" height="24">"#@ + r#"<path d="M9 5.5 V18.5 M15 5.5 V18.5" "#@ + r#"fill="none" stroke="currentColor" stroke-width=""#@ + "2.4"@ + r#"" stroke-linecap="round" stroke-linejoin="round""#@ + r#"/>"#@, "</svg>"@);
            assert(svg_text(Icon::Pause) =~= r#"<svg xmlns="http://www.w3.org/2000/svg" viewBox="0 0 24 24" width="24" height="24">"#@ + r#"<path d="M9 5.5 V18.5 M15 5.5 V18.5" "#@ + r#"fill="none" stroke="currentColor" stroke-width=""#@ + "2.4"@ + r#"" stroke-linecap="round" stroke-linejoin="round""#@ + r#"/>"#@ + "</svg>"@);
            assert(svg_text(Icon::Pause).subrange(140int, 140int + needle.len()) =~= needle);
        },
        Icon::StepBack => {
            reveal_strlit(r#"" stroke-linecap="round" stroke-linejoin="round""#);
            reveal_strlit(r#"/>"#);
            reveal_strlit(r#"1.9"#);
            reveal_strlit(r#"</svg>"#);
            reveal_strlit(r#"<path d="M17 5.5 L17 18.5 L8 12 Z" fill="currentColor"/><path d="M6 5.5 V18.5" "#);
            reveal_strlit(r#"<svg xmlns="http://www.w3.org/2000/svg" viewBox="0 0 24 24" width="24" height="24">"#);
            reveal_strlit(r#"fill="none" stroke="currentColor" stroke-width=""#);
            assert(no_hash(r#"" stroke-linecap="round" stroke-linejoin="round""#@));
            assert(no_hash(r#"/>"#@));
            assert(no_hash(r#"1.9"#@));
            assert(no_hash(r#"</svg>"#@));
            assert(no_hash(r#"<path d="M17 5.5 L17 18.5 L8 12 Z" fill="currentColor"/><path d="M6 5.5 V18.5" "#@));
            assert(no_hash(r#"<svg xmlns="http://www.w3.org/2000/svg" viewBox="0 0 24 24" width="24" height="24">"#@));
            assert(no_hash(r#"fill="none" stroke="currentColor" stroke-width=""#@));
            lemma_no_hash_concat(r#"<svg xmlns="http://www.w3.org/2000/svg" viewBox="0 0 24 24" width="24" height="24">"#@, r#"<path d="M17 5.5 L17 18.5 L8 12 Z" fill="currentColor"/><path d="M6 5.5 V18.5" "#@);
            lemma_no_hash_concat(r#"<svg xmlns="http://www.w3.org/2000/svg" viewBox="0 0 24 24" width="24" height="24">"#@ + r#"<path d="M17 5.5 L17 18.5 L8 12 Z" fill="currentColor"/><path d="M6 5.5 V18.5" "#@, r#"fill="none" stroke="currentColor" stroke-width=""#@);
            lemma_no_hash_concat(r#"<svg xmlns="http://www.w3.org/2000/svg" viewBox="0 0 24 24" width="24" height="24">"#@ + r#"<path d="M17 5.5 L17 18.5 L8 12 Z" fill="currentColor"/><path d="M6 5.5 V18.5" "#@ + r#"fill="none" stroke="currentColor" stroke-width=""#@, "1.9"@);
            lemma_no_hash_concat(r#"<svg xmlns="http://www.w3.org/2000/svg" viewBox="0 0 24 24" width="24" height="24">"#@ + r#"<path d="M17 5.5 L17 18.5 L8 12 Z" fill="currentColor"/><path d="M6 5.5 V18.5" "#@ + r#"fill="none" stroke="currentColor" stroke-width=""#@ + "1.9"@, r#"" stroke-linecap="round" stroke-linejoin="round""#@);
            lemma_no_hash_concat(r#"<svg xmlns="http://www.w3.org/2000/svg" viewBox="0 0 24 24" width="24" height="24">"#@ + r#"<path d="M17 5.5 L17 18.5 L8 12 Z" fill="currentColor"/><path d="M6 5.5 V18.5" "#@ + r#"fill="none" stroke="currentColor" stroke-width=""#@ + "1.9"@ + r#"" stroke-linecap="round" stroke-linejoin="round""#@, r#"/>"#@);
            lemma_no_hash_concat(r#"<svg xmlns="http://www.w3.org/2000/svg" viewBox="0 0 24 24" width="24" height="24">"#@ + r#"<path d="M17 5.5 L17 18.5 L8 12 Z" fill="currentColor"/><path d="M6 5.5 V18.5" "#@ + r#"fill="none" stroke="currentColor" stroke-width=""#@ + "1.9"@ + r#"" stroke-linecap="round" stroke-linejoin="round""#@ + r#"/>"#@, "</svg>"@);
            assert(svg_text(Icon::StepBack) =~= r#"<svg xmlns="http://www.w3.org/2000/svg" viewBox="0 0 24 24" width="24" height="24">"#@ + r#"<path d="M17 5.5 L17 18.5 L8 12 Z" fill="currentColor"/><path d="M6 5.5 V18.5" "#@ + r#"fill="none" stroke="currentColor" stroke-width=""#@ + "1.9"@ + r#"" stroke-linecap="round" stroke-linejoin="round""#@ + r#"/>"#@ + "</svg>"@);
            assert(svg_text(Icon::StepBack).subrange(124int, 124int + needle.len()) =~= needle);
        },
        Icon::StepForward => {
            reveal_strlit(r#"" stroke-linecap="round" stroke-linejoin="round""#);
            reveal_strlit(r#"/>"#);
            reveal_strlit(r#"1.9"#);
            reveal_strlit(r#"</svg>"#);
            reveal_strlit(r#"<path d="M7 5.5 L7 18.5 L16 12 Z" fill="currentColor"/><path d="M18 5.5 V18.5" "#);
            reveal_strlit(r#"<svg xmlns="http://www.w3.org/2000/svg" viewBox="0 0 24 24" width="24" height="24">"#);
            reveal_strlit(r#"fill="none" stroke="currentColor" stroke-width=""#);
            assert(no_hash(r#"" stroke-linecap="round" stroke-linejoin="round""#@));
            assert(no_hash(r#"/>"#@));
            assert(no_hash(r#"1.9"#@));
            assert(no_hash(r#"</svg>"#@));
            assert(no_hash(r#"<path d="M7 5.5 L7 18.5 L16 12 Z" fill="currentColor"/><path d="M18 5.5 V18.5" "#@));
            assert(no_hash(r#"<svg xmlns="http://www.w3.org/2000/svg" viewBox="0 0 24 24" width="24" height="24">"#@));
            assert(no_hash(r#"fill="none" stroke="currentColor" stroke-width=""#@));
            lemma_no_hash_concat(r#"<svg xmlns="http://www.w3.org/2000/svg" viewBox="0 0 24 24" width="24" height="24">"#@, r#"<path d="M7 5.5 L7 18.5 L16 12 Z" fill="currentColor"/><path d="M18 5.5 V18.5" "#@);
            lemma_no_hash_concat(r#"<svg xmlns="http://www.w3.org/2000/svg" viewBox="0 0 24 24" width="24" height="24">"#@ + r#"<path d="M7 5.5 L7 18.5 L16 12 Z" fill="currentColor"/><path d="M18 5.5 V18.5" "#@, r#"fill="none" stroke="currentColor" stroke-width=""#@);
            lemma_no_hash_concat(r#"<svg xmlns="http://www.w3.org/2000/svg" viewBox="0 0 24 24" width="24" height="24">"#@ + r#"<path d="M7 5.5 L7 18.5 L16 12 Z" fill="currentColor"/><path d="M18 5.5 V18.5" "#@ + r#"fill="none" stroke="currentColor" stroke-width=""#@, "1.9"@);
            lemma_no_hash_concat(r#"<svg xmlns="http://www.w3.org/2000/svg" viewBox="0 0 24 24" width="24" height="24">"#@ + r#"<path d="M7 5.5 L7 18.5 L16 12 Z" fill="currentColor"/><path d="M18 5.5 V18.5" "#@ + r#"fill="none" stroke="currentColor" stroke-width=""#@ + "1.9"@, r#"" stroke-linecap="round" stroke-linejoin="round""#@);
            lemma_no_hash_concat(r#"<svg xmlns="http://www.w3.org/2000/svg" viewBox="0 0 24 24" width="24" height="24">"#@ + r#"<path d="M7 5.5 L7 18.5 L16 12 Z" fill="currentColor"/><path d="M18 5.5 V18.5" "#@ + r#"fill="none" stroke="currentColor" stroke-width=""#@ + "1.9"@ + r#"" stroke-linecap="round" stroke-linejoin="round""#@, r#"/>"#@);
            lemma_no_hash_concat(r#"<svg xmlns="http://www.w3.org/2000/svg" viewBox="0 0 24 24" width="24" height="24">"#@ + r#"<path d="M7 5.5 L7 18.5 L16 12 Z" fill="currentColor"/><path d="M18 5.5 V18.5" "#@ + r#"fill="none" stroke="currentColor" stroke-width=""#@ + "1.9"@ + r#"" stroke-linecap="round" stroke-linejoin="round""#@ + r#"/>"#@, "</svg>"@);
            assert(svg_text(Icon::StepForward) =~= r#"<svg xmlns="http://www.w3.org/2000/svg" viewBox="0 0 24 24" width="24" height="24">"#@ + r#"<path d="M7 5.5 L7 18.5 L16 12 Z" fill="currentColor"/><path d="M18 5.5 V18.5" "#@ + r#"fill="none" stroke="currentColor" stroke-width=""#@ + "1.9"@ + r#"" stroke-linecap="round" stroke-linejoin="round""#@ + r#"/>"#@ + "</svg>"@);
            assert(svg_text(Icon::StepForward).subrange(123int, 123int + needle.len()) =~= needle);
        },
        Icon::Split => {
            reveal_strlit(r#" stroke-dasharray="3 3"/><path d="M8 8.5 L4.5 12 L8 15.5 M16 8.5 L19.5 12 L16 15.5" "#);
            reveal_strlit(r#"/>"#);
            reveal_strlit(r#"</svg>"#);
            reveal_strlit(r#"<path d="M12 3.5 V20.5" "#);
            reveal_strlit(r#"<svg xmlns="http://www.w3.org/2000/svg" viewBox="0 0 24 24" width="24" height="24">"#);
            reveal_strlit(r#"fill="none" stroke="currentColor" stroke-width="1.7" stroke-linecap="round" stroke-linejoin="round""#);
            assert(no_hash(r#" stroke-dasharray="3 3"/><path d="M8 8.5 L4.5 12 L8 15.5 M16 8.5 L19.5 12 L16 15.5" "#@));
            assert(no_hash(r#"/>"#@));
            assert(no_hash(r#"</svg>"#@));
            assert(no_hash(r#"<path d="M12 3.5 V20.5" "#@));
            assert(no_hash(r#"<svg xmlns="http://www.w3.org/2000/svg" viewBox="0 0 24 24" width="24" height="24">"#@));
            assert(no_hash(r#"fill="none" stroke="currentColor" stroke-width="1.7" stroke-linecap="round" stroke-linejoin="round""#@));
            lemma_no_hash_concat(r#"<svg xmlns="http://www.w3.org/2000/svg" viewBox="0 0 24 24" width="24" height="24">"#@, r#"<path d="M12 3.5 V20.5" "#@);
            lemma_no_hash_concat(r#"<svg xmlns="http://www.w3.org/2000/svg" viewBox="0 0 24 24" width="24" height="24">"#@ + r#"<path d="M12 3.5 V20.5" "#@, STROKE@);
            lemma_no_hash_concat(r#"<svg xmlns="http://www.w3.org/2000/svg" viewBox="0 0 24 24" width="24" height="24">"#@ + r#"<path d="M12 3.5 V20.5" "#@ + STROKE@, r#" stroke-dasharray="3 3"/><path d="M8 8.5 L4.5 12 L8 15.5 M16 8.5 L19.5 12 L16 15.5" "#@);
            lemma_no_hash_concat(r#"<svg xmlns="http://www.w3.org/2000/svg" viewBox="0 0 24 24" width="24" height="24">"#@ + r#"<path d="M12 3.5 V20.5" "#@ + STROKE@ + r#" stroke-dasharray="3 3"/><path d="M8 8.5 L4.5 12 L8 15.5 M16 8.5 L19.5 12 L16 15.5" "#@, STROKE@);
            lemma_no_hash_concat(r#"<svg xmlns="http://www.w3.org/2000/svg" viewBox="0 0 24 24" width="24" height="24">"#@ + r#"<path d="M12 3.5 V20.5" "#@ + STROKE@ + r#" stroke-dasharray="3 3"/><path d="M8 8.5 L4.5 12 L8 15.5 M16 8.5 L19.5 12 L16 15.5" "#@ + STROKE@, r#"/>"#@);
            lemma_no_hash_concat(r#"<svg xmlns="http://www.w3.org/2000/svg" viewBox="0 0 24 24" width="24" height="24">"#@ + r#"<path d="M12 3.5 V20.5" "#@ + STROKE@ + r#" stroke-dasharray="3 3"/><path d="M8 8.5 L4.5 12 L8 15.5 M16 8.5 L19.5 12 L16 15.5" "#@ + STROKE@ + r#"/>"#@, "</svg>"@);
            assert(svg_text(Icon::Split) =~= r#"<svg xmlns="http://www.w3.org/2000/svg" viewBox="0 0 24 24" width="24" height="24">"#@ + r#"<path d="M12 3.5 V20.5" "#@ + STROKE@ + r#" stroke-dasharray="3 3"/><path d="M8 8.5 L4.5 12 L8 15.5 M16 8.5 L19.5 12 L16 15.5" "#@ + STROKE@ + r#"/>"#@ + "</svg>"@);
            assert(svg_text(Icon::Split).subrange(127int, 127int + needle.len()) =~= needle);
        },
        Icon::Delete => {
            reveal_strlit(r#"/>"#);
            reveal_strlit(r#"</svg>"#);
            reveal_strlit(r#"<path d="M5.5 7 H18.5 M7.5 7 L8.5 19.5 H15.5 L16.5 7 M9.5 7 V4.5 H14.5 V7" "#);
            reveal_strlit(r#"<svg xmlns="http://www.w3.org/2000/svg" viewBox="0 0 24 24" width="24" height="24">"#);
            reveal_strlit(r#"fill="none" stroke="currentColor" stroke-width="1.7" stroke-linecap="round" stroke-linejoin="round""#);
            assert(no_hash(r#"/>"#@));
            assert(no_hash(r#"</svg>"#@));
            assert(no_hash(r#"<path d="M5.5 7 H18.5 M7.5 7 L8.5 19.5 H15.5 L16.5 7 M9.5 7 V4.5 H14.5 V7" "#@));
            assert(no_hash(r#"<svg xmlns="http://www.w3.org/2000/svg" viewBox="0 0 24 24" width="24" height="24">"#@));
            assert(no_hash(r#"fill="none" stroke="currentColor" stroke-width="1.7" stroke-linecap="round" stroke-linejoin="round""#@));
            lemma_no_hash_concat(r#"<svg xmlns="http://www.w3.org/2000/svg" viewBox="0 0 24 24" width="24" height="24">"#@, r#"<path d="M5.5 7 H18.5 M7.5 7 L8.5 19.5 H15.5 L16.5 7 M9.5 7 V4.5 H14.5 V7" "#@);
            lemma_no_hash_concat(r#"<svg xmlns="http://www.w3.org/2000/svg" viewBox="0 0 24 24" width="24" height="24">"#@ + r#"<path d="M5.5 7 H18.5 M7.5 7 L8.5 19.5 H15.5 L16.5 7 M9.5 7 V4.5 H14.5 V7" "#@, STROKE@);
            lemma_no_hash_concat(r#"<svg xmlns="http://www.w3.org/2000/svg" viewBox="0 0 24 24" width="24" height="24">"#@ + r#"<path d="M5.5 7 H18.5 M7.5 7 L8.5 19.5 H15.5 L16.5 7 M9.5 7 V4.5 H14.5 V7" "#@ + STROKE@, r#"/>"#@);
            lemma_no_hash_concat(r#"<svg xmlns="http://www.w3.org/2000/svg" viewBox="0 0 24 24" width="24" height="24">"#@ + r#"<path d="M5.5 7 H18.5 M7.5 7 L8.5 19.5 H15.5 L16.5 7 M9.5 7 V4.5 H14.5 V7" "#@ + STROKE@ + r#"/>"#@, "</svg>"@);
            assert(svg_text(Icon::Delete) =~= r#"<svg xmlns="http://www.w3.org/2000/svg" viewBox="0 0 24 24" width="24" height="24">"#@ + r#"<path d="M5.5 7 H18.5 M7.5 7 L8.5 19.5 H15.5 L16.5 7 M9.5 7 V4.5 H14.5 V7" "#@ + STROKE@ + r#"/>"#@ + "</svg>"@);
            assert(svg_text(Icon::Delete).subrange(178int, 178int + needle.len()) =~= needle);
        },
        Icon::Duplicate => {
            reveal_strlit(r#"/>"#);
            reveal_strlit(r#"/><path d="M4.5 8.5 H15.5 V19.5 H4.5 Z" "#);
            reveal_strlit(r#"</svg>"#);
            reveal_strlit(r#"<path d="M8.5 4.5 H19.5 V15.5" "#);
            reveal_strlit(r#"<svg xmlns="http://www.w3.org/2000/svg" viewBox="0 0 24 24" width="24" height="24">"#);
            reveal_strlit(r#"fill="none" stroke="currentColor" stroke-width="1.7" stroke-linecap="round" stroke-linejoin="round""#);
            assert(no_hash(r#"/>"#@));
            assert(no_hash(r#"/><path d="M4.5 8.5 H15.5 V19.5 H4.5 Z" "#@));
            assert(no_hash(r#"</svg>"#@));
            assert(no_hash(r#"<path d="M8.5 4.5 H19.5 V15.5" "#@));
            assert(no_hash(r#"<svg xmlns="http://www.w3.org/2000/svg" viewBox="0 0 24 24" width="24" height="24">"#@));
            assert(no_hash(r#"fill="none" stroke="currentColor" stroke-width="1.7" stroke-linecap="round" stroke-linejoin="round""#@));
            lemma_no_hash_concat(r#"<svg xmlns="http://www.w3.org/2000/svg" viewBox="0 0 24 24" width="24" height="24">"#@, r#"<path d="M8.5 4.5 H19.5 V15.5" "#@);
            lemma_no_hash_concat(r#"<svg xmlns="http://www.w3.org/2000/svg" viewBox="0 0 24 24" width="24" height="24">"#@ + r#"<path d="M8.5 4.5 H19.5 V15.5" "#@, STROKE@);
            lemma_no_hash_concat(r#"<svg xmlns="http://www.w3.org/2000/svg" viewBox="0 0 24 24" width="24" height="24">"#@ + r#"<path d="M8.5 4.5 H19.5 V15.5" "#@ + STROKE@, r#"/><path d="M4.5 8.5 H15.5 V19.5 H4.5 Z" "#@);
            lemma_no_hash_concat(r#"<svg xmlns="http://www.w3.org/2000/svg" viewBox="0 0 24 24" width="24" height="24">"#@ + r#"<path d="M8.5 4.5 H19.5 V15.5" "#@ + STROKE@ + r#"/><path d="M4.5 8.5 H15.5 V19.5 H4.5 Z" "#@, STROKE@);
            lemma_no_hash_concat(r#"<svg xmlns="http://www.w3.org/2000/svg" viewBox="0 0 24 24" width="24" height="24">"#@ + r#"<path d="M8.5 4.5 H19.5 V15.5" "#@ + STROKE@ + r#"/><path d="M4.5 8.5 H15.5 V19.5 H4.5 Z" "#@ + STROKE@, r#"/>"#@);
            lemma_no_hash_concat(r#"<svg xmlns="http://www.w3.org/2000/svg" viewBox="0 0 24 24" width="24" height="24">"#@ + r#"<path d="M8.5 4.5 H19.5 V15.5" "#@ + STROKE@ + r#"/><path d="M4.5 8.5 H15.5 V19.5 H4.5 Z" "#@ + STROKE@ + r#"/>"#@, "</svg>"@);
            assert(svg_text(Icon::Duplicate) =~= r#"<svg xmlns="http://www.w3.org/2000/svg" viewBox="0 0 24 24" width="24" height="24">"#@ + r#"<path d="M8.5 4.5 H19.5 V15.5" "#@ + STROKE@ + r#"/><path d="M4.5 8.5 H15.5 V19.5 H4.5 Z" "#@ + STROKE@ + r#"/>"#@ + "</svg>"@);
            assert(svg_text(Icon::Duplicate).subrange(134int, 134int + needle.len()) =~= needle);
        },
        Icon::Undo => {
            reveal_strlit(r#"/>"#);
            reveal_strlit(r#"</svg>"#);
            reveal_strlit(r#"<path d="M9 7 L4.5 11 L9 15 M4.5 11 H14 C18.5 11 20 14 19 18.5" "#);
            reveal_strlit(r#"<svg xmlns="http://www.w3.org/2000/svg" viewBox="0 0 24 24" width="24" height="24">"#);
            reveal_strlit(r#"fill="none" stroke="currentColor" stroke-width="1.7" stroke-linecap="round" stroke-linejoin="round""#);
            assert(no_hash(r#"/>"#@));
            assert(no_hash(r#"</svg>"#@));
            assert(no_hash(r#"<path d="M9 7 L4.5 11 L9 15 M4.5 11 H14 C18.5 11 20 14 19 18.5" "#@));
            assert(no_hash(r#"<svg xmlns="http://www.w3.org/2000/svg" viewBox="0 0 24 24" width="24" height="24">"#@));
            assert(no_hash(r#"fill="none" stroke="currentColor" stroke-width="1.7" stroke-linecap="round" stroke-linejoin="round""#@));
            lemma_no_hash_concat(r#"<svg xmlns="http://www.w3.org/2000/svg" viewBox="0 0 24 24" width="24" height="24">"#@, r#"<path d="M9 7 L4.5 11 L9 15 M4.5 11 H14 C18.5 11 20 14 19 18.5" "#@);
            lemma_no_hash_concat(r#"<svg xmlns="http://www.w3.org/2000/svg" viewBox="0 0 24 24" width="24" height="24">"#@ + r#"<path d="M9 7 L4.5 11 L9 15 M4.5 11 H14 C18.5 11 20 14 19 18.5" "#@, STROKE@);
            lemma_no_hash_concat(r#"<svg xmlns="http://www.w3.org/2000/svg" viewBox="0 0 24 24" width="24" height="24">"#@ + r#"<path d="M9 7 L4.5 11 L9 15 M4.5 11 H14 C18.5 11 20 14 19 18.5" "#@ + STROKE@, r#"/>"#@);
            lemma_no_hash_concat(r#"<svg xmlns="http://www.w3.org/2000/svg" viewBox="0 0 24 24" width="24" height="24">"#@ + r#"<path d="M9 7 L4.5 11 L9 15 M4.5 11 H14 C18.5 11 20 14 19 18.5" "#@ + STROKE@ + r#"/>"#@, "</svg>"@);
            assert(svg_text(Icon::Undo) =~= r#"<svg xmlns="http://www.w3.org/2000/svg" viewBox="0 0 24 24" width="24" height="24">"#@ + r#"<path d="M9 7 L4.5 11 L9 15 M4.5 11 H14 C18.5 11 20 14 19 18.5" "#@ + STROKE@ + r#"/>"#@ + "</svg>"@);
            assert(svg_text(Icon::Undo).subrange(167int, 167int + needle.len()) =~= needle);
        },
        Icon::Redo => {
            reveal_strlit(r#"/>"#);
            reveal_strlit(r#"</svg>"#);
            reveal_strlit(r#"<path d="M15 7 L19.5 11 L15 15 M19.5 11 H10 C5.5 11 4 14 5 18.5" "#);
            reveal_strlit(r#"<svg xmlns="http://www.w3.org/2000/svg" viewBox="0 0 24 24" width="24" height="24">"#);
            reveal_strlit(r#"fill="none" stroke="currentColor" stroke-width="1.7" stroke-linecap="round" stroke-linejoin="round""#);
            assert(no_hash(r#"/>"#@));
            assert(no_hash(r#"</svg>"#@));
            assert(no_hash(r#"<path d="M15 7 L19.5 11 L15 15 M19.5 11 H10 C5.5 11 4 14 5 18.5" "#@));
            assert(no_hash(r#"<svg xmlns="http://www.w3.org/2000/svg" viewBox="0 0 24 24" width="24" height="24">"#@));
            assert(no_hash(r#"fill="none" stroke="currentColor" stroke-width="1.7" stroke-linecap="round" stroke-linejoin="round""#@));
            lemma_no_hash_concat(r#"<svg xmlns="http://www.w3.org/2000/svg" viewBox="0 0 24 24" width="24" height="24">"#@, r#"<path d="M15 7 L19.5 11 L15 15 M19.5 11 H10 C5.5 11 4 14 5 18.5" "#@);
            lemma_no_hash_concat(r#"<svg xmlns="http://www.w3.org/2000/svg" viewBox="0 0 24 24" width="24" height="24">"#@ + r#"<path d="M15 7 L19.5 11 L15 15 M19.5 11 H10 C5.5 11 4 14 5 18.5" "#@, STROKE@);
            lemma_no_hash_concat(r#"<svg xmlns="http://www.w3.org/2000/svg" viewBox="0 0 24 24" width="24" height="24">"#@ + r#"<path d="M15 7 L19.5 11 L15 15 M19.5 11 H10 C5.5 11 4 14 5 18.5" "#@ + STROKE@, r#"/>"#@);
            lemma_no_hash_concat(r#"<svg xmlns="http://www.w3.org/2000/svg" viewBox="0 0 24 24" width="24" height="24">"#@ + r#"<path d="M15 7 L19.5 11 L15 15 M19.5 11 H10 C5.5 11 4 14 5 18.5" "#@ + STROKE@ + r#"/>"#@, "</svg>"@);
            assert(svg_text(Icon::Redo) =~= r#"<svg xmlns="http://www.w3.org/2000/svg" viewBox="0 0 24 24" width="24" height="24">"#@ + r#"<path d="M15 7 L19.5 11 L15 15 M19.5 11 H10 C5.5 11 4 14 5 18.5" "#@ + STROKE@ + r#"/>"#@ + "</svg>"@);
            assert(svg_text(Icon::Redo).subrange(168int, 168int + needle.len()) =~= needle);
        },
        Icon::Download => {
            reveal_strlit(r#"/>"#);
            reveal_strlit(r#"</svg>"#);
            reveal_strlit(r#"<path d="M12 3.5 V15 M7.5 10.5 L12 15 L16.5 10.5 M4.5 18.5 H19.5" "#);
            reveal_strlit(r#"<svg xmlns="http://www.w3.org/2000/svg" viewBox="0 0 24 24" width="24" height="24">"#);
            reveal_strlit(r#"fill="none" stroke="currentColor" stroke-width="1.7" stroke-linecap="round" stroke-linejoin="round""#);
            assert(no_hash(r#"/>"#@));
            assert(no_hash(r#"</svg>"#@));
            assert(no_hash(r#"<path d="M12 3.5 V15 M7.5 10.5 L12 15 L16.5 10.5 M4.5 18.5 H19.5" "#@));
            assert(no_hash(r#"<svg xmlns="http://www.w3.org/2000/svg" viewBox="0 0 24 24" width="24" height="24">"#@));
            assert(no_hash(r#"fill="none" stroke="currentColor" stroke-width="1.7" stroke-linecap="round" stroke-linejoin="round""#@));
            lemma_no_hash_concat(r#"<svg xmlns="http://www.w3.org/2000/svg" viewBox="0 0 24 24" width="24" height="24">"#@, r#"<path d="M12 3.5 V15 M7.5 10.5 L12 15 L16.5 10.5 M4.5 18.5 H19.5" "#@);
            lemma_no_hash_concat(r#"<svg xmlns="http://www.w3.org/2000/svg" viewBox="0 0 24 24" width="24" height="24">"#@ + r#"<path d="M12 3.5 V15 M7.5 10.5 L12 15 L16.5 10.5 M4.5 18.5 H19.5" "#@, STROKE@);
            lemma_no_hash_concat(r#"<svg xmlns="http://www.w3.org/2000/svg" viewBox="0 0 24 24" width="24" height="24">"#@ + r#"<path d="M12 3.5 V15 M7.5 10.5 L12 15 L16.5 10.5 M4.5 18.5 H19.5" "#@ + STROKE@, r#"/>"#@);
            lemma_no_hash_concat(r#"<svg xmlns="http://www.w3.org/2000/svg" viewBox="0 0 24 24" width="24" height="24">"#@ + r#"<path d="M12 3.5 V15 M7.5 10.5 L12 15 L16.5 10.5 M4.5 18.5 H19.5" "#@ + STROKE@ + r#"/>"#@, "</svg>"@);
            assert(svg_text(Icon::Download) =~= r#"<svg xmlns="http://www.w3.org/2000/svg" viewBox="0 0 24 24" width="24" height="24">"#@ + r#"<path d="M12 3.5 V15 M7.5 10.5 L12 15 L16.5 10.5 M4.5 18.5 H19.5" "#@ + STROKE@ + r#"/>"#@ + "</svg>"@);
            assert(svg_text(Icon::Download).subrange(169int, 169int + needle.len()) =~= needle);
        },
        Icon::ZoomIn => {
            reveal_strlit(r#"/>"#);
            reveal_strlit(r#"/><path d="M15 15 L20 20 M7.5 10.5 H13.5 M10.5 7.5 V13.5" "#);
            reveal_strlit(r#"</svg>"#);
            reveal_strlit(r#"<circle cx="10.5" cy="10.5" r="6" "#);
            reveal_strlit(r#"<svg xmlns="http://www.w3.org/2000/svg" viewBox="0 0 24 24" width="24" height="24">"#);
            reveal_strlit(r#"fill="none" stroke="currentColor" stroke-width="1.7" stroke-linecap="round" stroke-linejoin="round""#);
            assert(no_hash(r#"/>"#@));
            assert(no_hash(r#"/><path d="M15 15 L20 20 M7.5 10.5 H13.5 M10.5 7.5 V13.5" "#@));
            assert(no_hash(r#"</svg>"#@));
            assert(no_hash(r#"<circle cx="10.5" cy="10.5" r="6" "#@));
            assert(no_hash(r#"<svg xmlns="http://www.w3.org/2000/svg" viewBox="0 0 24 24" width="24" height="24">"#@));
            assert(no_hash(r#"fill="none" stroke="currentColor" stroke-width="1.7" stroke-linecap="round" stroke-linejoin="round""#@));
            lemma_no_hash_concat(r#"<svg xmlns="http://www.w3.org/2000/svg" viewBox="0 0 24 24" width="24" height="24">"#@, r#"<circle cx="10.5" cy="10.5" r="6" "#@);
            lemma_no_hash_concat(r#"<svg xmlns="http://www.w3.org/2000/svg" viewBox="0 0 24 24" width="24" height="24">"#@ + r#"<circle cx="10.5" cy="10.5" r="6" "#@, STROKE@);
            lemma_no_hash_concat(r#"<svg xmlns="http://www.w3.org/2000/svg" viewBox="0 0 24 24" width="24" height="24">"#@ + r#"<circle cx="10.5" cy="10.5" r="6" "#@ + STROKE@, r#"/><path d="M15 15 L20 20 M7.5 10.5 H13.5 M10.5 7.5 V13.5" "#@);
            lemma_no_hash_concat(r#"<svg xmlns="http://www.w3.org/2000/svg" viewBox="0 0 24 24" width="24" height="24">"#@ + r#"<circle cx="10.5" cy="10.5" r="6" "#@ + STROKE@ + r#"/><path d="M15 15 L20 20 M7.5 10.5 H13.5 M10.5 7.5 V13.5" "#@, STROKE@);
            lemma_no_hash_concat(r#"<svg xmlns="http://www.w3.org/2000/svg" viewBox="0 0 24 24" width="24" height="24">"#@ + r#"<circle cx="10.5" cy="10.5" r="6" "#@ + STROKE@ + r#"/><path d="M15 15 L20 20 M7.5 10.5 H13.5 M10.5 7.5 V13.5" "#@ + STROKE@, r#"/>"#@);
            lemma_no_hash_concat(r#"<svg xmlns="http://www.w3.org/2000/svg" viewBox="0 0 24 24" width="24" height="24">"#@ + r#"<circle cx="10.5" cy="10.5" r="6" "#@ + STROKE@ + r#"/><path d="M15 15 L20 20 M7.5 10.5 H13.5 M10.5 7.5 V13.5" "#@ + STROKE@ + r#"/>"#@, "</svg>"@);
            assert(svg_text(Icon::ZoomIn) =~= r#"<svg xmlns="http://www.w3.org/2000/svg" viewBox="0 0 24 24" width="24" height="24">"#@ + r#"<circle cx="10.5" cy="10.5" r="6" "#@ + STROKE@ + r#"/><path d="M15 15 L20 20 M7.5 10.5 H13.5 M10.5 7.5 V13.5" "#@ + STROKE@ + r#"/>"#@ + "</svg>"@);
            assert(svg_text(Icon::ZoomIn).subrange(137int, 137int + needle.len()) =~= needle);
        },
        Icon::ZoomOut => {
            reveal_strlit(r#"/>"#);
            reveal_strlit(r#"/><path d="M15 15 L20 20 M7.5 10.5 H13.5" "#);
            reveal_strlit(r#"</svg>"#);
            reveal_strlit(r#"<circle cx="10.5" cy="10.5" r="6" "#);
            reveal_strlit(r#"<svg xmlns="http://www.w3.org/2000/svg" viewBox="0 0 24 24" width="24" height="24">"#);
            reveal_strlit(r#"fill="none" stroke="currentColor" stroke-width="1.7" stroke-linecap="round" stroke-linejoin="round""#);
            assert(no_hash(r#"/>"#@));
            assert(no_hash(r#"/><path d="M15 15 L20 20 M7.5 10.5 H13.5" "#@));
            assert(no_hash(r#"</svg>"#@));
            assert(no_hash(r#"<circle cx="10.5" cy="10.5" r="6" "#@));
            assert(no_hash(r#"<svg xmlns="http://www.w3.org/2000/svg" viewBox="0 0 24 24" width="24" height="24">"#@));
            assert(no_hash(r#"fill="none" stroke="currentColor" stroke-width="1.7" stroke-linecap="round" stroke-linejoin="round""#@));
            lemma_no_hash_concat(r#"<svg xmlns="http://www.w3.org/2000/svg" viewBox="0 0 24 24" width="24" height="24">"#@, r#"<circle cx="10.5" cy="10.5" r="6" "#@);
            lemma_no_hash_concat(r#"<svg xmlns="http://www.w3.org/2000/svg" viewBox="0 0 24 24" width="24" height="24">"#@ + r#"<circle cx="10.5" cy="10.5" r="6" "#@, STROKE@);
            lemma_no_hash_concat(r#"<svg xmlns="http://www.w3.org/2000/svg" viewBox="0 0 24 24" width="24" height="24">"#@ + r#"<circle cx="10.5" cy="10.5" r="6" "#@ + STROKE@, r#"/><path d="M15 15 L20 20 M7.5 10.5 H13.5" "#@);
            lemma_no_hash_concat(r#"<svg xmlns="http://www.w3.org/2000/svg" viewBox="0 0 24 24" width="24" height="24">"#@ + r#"<circle cx="10.5" cy="10.5" r="6" "#@ + STROKE@ + r#"/><path d="M15 15 L20 20 M7.5 10.5 H13.5" "#@, STROKE@);
            lemma_no_hash_concat(r#"<svg xmlns="http://www.w3.org/2000/svg" viewBox="0 0 24 24" width="24" height="24">"#@ + r#"<circle cx="10.5" cy="10.5" r="6" "#@ + STROKE@ + r#"/><path d="M15 15 L20 20 M7.5 10.5 H13.5" "#@ + STROKE@, r#"/>"#@);
            lemma_no_hash_concat(r#"<svg xmlns="http://www.w3.org/2000/svg" viewBox="0 0 24 24" width="24" height="24">"#@ + r#"<circle cx="10.5" cy="10.5" r="6" "#@ + STROKE@ + r#"/><path d="M15 15 L20 20 M7.5 10.5 H13.5" "#@ + STROKE@ + r#"/>"#@, "</svg>"@);
            assert(svg_text(Icon::ZoomOut) =~= r#"<svg xmlns="http://www.w3.org/2000/svg" viewBox="0 0 24 24" width="24" height="24">"#@ + r#"<circle cx="10.5" cy="10.5" r="6" "#@ + STROKE@ + r#"/><path d="M15 15 L20 20 M7.5 10.5 H13.5" "#@ + STROKE@ + r#"/>"#@ + "</svg>"@);
            assert(svg_text(Icon::ZoomOut).subrange(137int, 137int + needle.len()) =~= needle);
        },
        Icon::SpeakerOn => {
            reveal_strlit(r#"/>"#);
            reveal_strlit(r#"/><path d="M15 9 C17 10.5 17 13.5 15 15 M17.5 6.5 C21 9 21 15 17.5 17.5" "#);
            reveal_strlit(r#"</svg>"#);
            reveal_strlit(r#"<path d="M4.5 9.5 H8 L12 5.5 V18.5 L8 14.5 H4.5 Z" "#);
            reveal_strlit(r#"<svg xmlns="http://www.w3.org/2000/svg" viewBox="0 0 24 24" width="24" height="24">"#);
            reveal_strlit(r#"fill="none" stroke="currentColor" stroke-width="1.7" stroke-linecap="round" stroke-linejoin="round""#);
            assert(no_hash(r#"/>"#@));
            assert(no_hash(r#"/><path d="M15 9 C17 10.5 17 13.5 15 15 M17.5 6.5 C21 9 21 15 17.5 17.5" "#@));
            assert(no_hash(r#"</svg>"#@));
            assert(no_hash(r#"<path d="M4.5 9.5 H8 L12 5.5 V18.5 L8 14.5 H4.5 Z" "#@));
            assert(no_hash(r#"<svg xmlns="http://www.w3.org/2000/svg" viewBox="0 0 24 24" width="24" height="24">"#@));
            assert(no_hash(r#"fill="none" stroke="currentColor" stroke-width="1.7" stroke-linecap="round" stroke-linejoin="round""#@));
            lemma_no_hash_concat(r#"<svg xmlns="http://www.w3.org/2000/svg" viewBox="0 0 24 24" width="24" height="24">"#@, r#"<path d="M4.5 9.5 H8 L12 5.5 V18.5 L8 14.5 H4.5 Z" "#@);
            lemma_no_hash_concat(r#"<svg xmlns="http://www.w3.org/2000/svg" viewBox="0 0 24 24" width="24" height="24">"#@ + r#"<path d="M4.5 9.5 H8 L12 5.5 V18.5 L8 14.5 H4.5 Z" "#@, STROKE@);
            lemma_no_hash_concat(r#"<svg xmlns="http://www.w3.org/2000/svg" viewBox="0 0 24 24" width="24" height="24">"#@ + r#"<path d="M4.5 9.5 H8 L12 5.5 V18.5 L8 14.5 H4.5 Z" "#@ + STROKE@, r#"/><path d="M15 9 C17 10.5 17 13.5 15 15 M17.5 6.5 C21 9 21 15 17.5 17.5" "#@);
            lemma_no_hash_concat(r#"<svg xmlns="http://www.w3.org/2000/svg" viewBox="0 0 24 24" width="24" height="24">"#@ + r#"<path d="M4.5 9.5 H8 L12 5.5 V18.5 L8 14.5 H4.5 Z" "#@ + STROKE@ + r#"/><path d="M15 9 C17 10.5 17 13.5 15 15 M17.5 6.5 C21 9 21 15 17.5 17.5" "#@, STROKE@);
            lemma_no_hash_concat(r#"<svg xmlns="http://www.w3.org/2000/svg" viewBox="0 0 24 24" width="24" height="24">"#@ + r#"<path d="M4.5 9.5 H8 L12 5.5 V18.5 L8 14.5 H4.5 Z" "#@ + STROKE@ + r#"/><path d="M15 9 C17 10.5 17 13.5 15 15 M17.5 6.5 C21 9 21 15 17.5 17.5" "#@ + STROKE@, r#"/>"#@);
            lemma_no_hash_concat(r#"<svg xmlns="http://www.w3.org/2000/svg" viewBox="0 0 24 24" width="24" height="24">"#@ + r#"<path d="M4.5 9.5 H8 L12 5.5 V18.5 L8 14.5 H4.5 Z" "#@ + STROKE@ + r#"/><path d="M15 9 C17 10.5 17 13.5 15 15 M17.5 6.5 C21 9 21 15 17.5 17.5" "#@ + STROKE@ + r#"/>"#@, "</svg>"@);
            assert(svg_text(Icon::SpeakerOn) =~= r#"<svg xmlns="http://www.w3.org/2000/svg" viewBox="0 0 24 24" width="24" height="24">"#@ + r#"<path d="M4.5 9.5 H8 L12 5.5 V18.5 L8 14.5 H4.5 Z" "#@ + STROKE@ + r#"/><path d="M15 9 C17 10.5 17 13.5 15 15 M17.5 6.5 C21 9 21 15 17.5 17.5" "#@ + STROKE@ + r#"/>"#@ + "</svg>"@);
            assert(svg_text(Icon::SpeakerOn).subrange(154int, 154int + needle.len()) =~= needle);
        },
        Icon::SpeakerOff => {
            reveal_strlit(r#"/>"#);
            reveal_strlit(r#"/><path d="M15.5 9.5 L20.5 14.5 M20.5 9.5 L15.5 14.5" "#);
            reveal_strlit(r#"</svg>"#);
            reveal_strlit(r#"<path d="M4.5 9.5 H8 L12 5.5 V18.5 L8 14.5 H4.5 Z" "#);
            reveal_strlit(r#"<svg xmlns="http://www.w3.org/2000/svg" viewBox="0 0 24 24" width="24" height="24">"#);
            reveal_strlit(r#"fill="none" stroke="currentColor" stroke-width="1.7" stroke-linecap="round" stroke-linejoin="round""#);
            assert(no_hash(r#"/>"#@));
            assert(no_hash(r#"/><path d="M15.5 9.5 L20.5 14.5 M20.5 9.5 L15.5 14.5" "#@));
            assert(no_hash(r#"</svg>"#@));
            assert(no_hash(r#"<path d="M4.5 9.5 H8 L12 5.5 V18.5 L8 14.5 H4.5 Z" "#@));
            assert(no_hash(r#"<svg xmlns="http://www.w3.org/2000/svg" viewBox="0 0 24 24" width="24" height="24">"#@));
            assert(no_hash(r#"fill="none" stroke="currentColor" stroke-width="1.7" stroke-linecap="round" stroke-linejoin="round""#@));
            lemma_no_hash_concat(r#"<svg xmlns="http://www.w3.org/2000/svg" viewBox="0 0 24 24" width="24" height="24">"#@, r#"<path d="M4.5 9.5 H8 L12 5.5 V18.5 L8 14.5 H4.5 Z" "#@);
            lemma_no_hash_concat(r#"<svg xmlns="http://www.w3.org/2000/svg" viewBox="0 0 24 24" width="24" height="24">"#@ + r#"<path d="M4.5 9.5 H8 L12 5.5 V18.5 L8 14.5 H4.5 Z" "#@, STROKE@);
            lemma_no_hash_concat(r#"<svg xmlns="http://www.w3.org/2000/svg" viewBox="0 0 24 24" width="24" height="24">"#@ + r#"<path d="M4.5 9.5 H8 L12 5.5 V18.5 L8 14.5 H4.5 Z" "#@ + STROKE@, r#"/><path d="M15.5 9.5 L20.5 14.5 M20.5 9.5 L15.5 14.5" "#@);
            lemma_no_hash_concat(r#"<svg xmlns="http://www.w3.org/2000/svg" viewBox="0 0 24 24" width="24" height="24">"#@ + r#"<path d="M4.5 9.5 H8 L12 5.5 V18.5 L8 14.5 H4.5 Z" "#@ + STROKE@ + r#"/><path d="M15.5 9.5 L20.5 14.5 M20.5 9.5 L15.5 14.5" "#@, STROKE@);
            lemma_no_hash_concat(r#"<svg xmlns="http://www.w3.org/2000/svg" viewBox="0 0 24 24" width="24" height="24">"#@ + r#"<path d="M4.5 9.5 H8 L12 5.5 V18.5 L8 14.5 H4.5 Z" "#@ + STROKE@ + r#"/><path d="M15.5 9.5 L20.5 14.5 M20.5 9.5 L15.5 14.5" "#@ + STROKE@, r#"/>"#@);
            lemma_no_hash_concat(r#"<svg xmlns="http://www.w3.org/2000/svg" viewBox="0 0 24 24" width="24" height="24">"#@ + r#"<path d="M4.5 9.5 H8 L12 5.5 V18.5 L8 14.5 H4.5 Z" "#@ + STROKE@ + r#"/><path d="M15.5 9.5 L20.5 14.5 M20.5 9.5 L15.5 14.5" "#@ + STROKE@ + r#"/>"#@, "</svg>"@);
            assert(svg_text(Icon::SpeakerOff) =~= r#"<svg xmlns="http://www.w3.org/2000/svg" viewBox="0 0 24 24" width="24" height="24">"#@ + r#"<path d="M4.5 9.5 H8 L12 5.5 V18.5 L8 14.5 H4.5 Z" "#@ + STROKE@ + r#"/><path d="M15.5 9.5 L20.5 14.5 M20.5 9.5 L15.5 14.5" "#@ + STROKE@ + r#"/>"#@ + "</svg>"@);
            assert(svg_text(Icon::SpeakerOff).subrange(154int, 154int + needle.len()) =~= needle);
        },
        Icon::VolumeHigh => {
            reveal_strlit(r#"/>"#);
            reveal_strlit(r#"/><path d="M13.5 10 C14.8 11 14.8 13 13.5 14 M16 7.8 C18.4 9.6 18.4 14.4 16 16.2 M18.5 5.6 C22 8.2 22 15.8 18.5 18.4" "#);
            reveal_strlit(r#"</svg>"#);
            reveal_strlit(r#"<path d="M3.5 9.5 H7 L11 5.5 V18.5 L7 14.5 H3.5 Z" "#);
            reveal_strlit(r#"<svg xmlns="http://www.w3.org/2000/svg" viewBox="0 0 24 24" width="24" height="24">"#);
            reveal_strlit(r#"fill="none" stroke="currentColor" stroke-width="1.7" stroke-linecap="round" stroke-linejoin="round""#);
            assert(no_hash(r#"/>"#@));
            assert(no_hash(r#"/><path d="M13.5 10 C14.8 11 14.8 13 13.5 14 M16 7.8 C18.4 9.6 18.4 14.4 16 16.2 M18.5 5.6 C22 8.2 22 15.8 18.5 18.4" "#@));
            assert(no_hash(r#"</svg>"#@));
            assert(no_hash(r#"<path d="M3.5 9.5 H7 L11 5.5 V18.5 L7 14.5 H3.5 Z" "#@));
            assert(no_hash(r#"<svg xmlns="http://www.w3.org/2000/svg" viewBox="0 0 24 24" width="24" height="24">"#@));
            assert(no_hash(r#"fill="none" stroke="currentColor" stroke-width="1.7" stroke-linecap="round" stroke-linejoin="round""#@));
            lemma_no_hash_concat(r#"<svg xmlns="http://www.w3.org/2000/svg" viewBox="0 0 24 24" width="24" height="24">"#@, r#"<path d="M3.5 9.5 H7 L11 5.5 V18.5 L7 14.5 H3.5 Z" "#@);
            lemma_no_hash_concat(r#"<svg xmlns="http://www.w3.org/2000/svg" viewBox="0 0 24 24" width="24" height="24">"#@ + r#"<path d="M3.5 9.5 H7 L11 5.5 V18.5 L7 14.5 H3.5 Z" "#@, STROKE@);
            lemma_no_hash_concat(r#"<svg xmlns="http://www.w3.org/2000/svg" viewBox="0 0 24 24" width="24" height="24">"#@ + r#"<path d="M3.5 9.5 H7 L11 5.5 V18.5 L7 14.5 H3.5 Z" "#@ + STROKE@, r#"/><path d="M13.5 10 C14.8 11 14.8 13 13.5 14 M16 7.8 C18.4 9.6 18.4 14.4 16 16.2 M18.5 5.6 C22 8.2 22 15.8 18.5 18.4" "#@);
            lemma_no_hash_concat(r#"<svg xmlns="http://www.w3.org/2000/svg" viewBox="0 0 24 24" width="24" height="24">"#@ + r#"<path d="M3.5 9.5 H7 L11 5.5 V18.5 L7 14.5 H3.5 Z" "#@ + STROKE@ + r#"/><path d="M13.5 10 C14.8 11 14.8 13 13.5 14 M16 7.8 C18.4 9.6 18.4 14.4 16 16.2 M18.5 5.6 C22 8.2 22 15.8 18.5 18.4" "#@, STROKE@);
            lemma_no_hash_concat(r#"<svg xmlns="http://www.w3.org/2000/svg" viewBox="0 0 24 24" width="24" height="24">"#@ + r#"<path d="M3.5 9.5 H7 L11 5.5 V18.5 L7 14.5 H3.5 Z" "#@ + STROKE@ + r#"/><path d="M13.5 10 C14.8 11 14.8 13 13.5 14 M16 7.8 C18.4 9.6 18.4 14.4 16 16.2 M18.5 5.6 C22 8.2 22 15.8 18.5 18.4" "#@ + STROKE@, r#"/>"#@);
            lemma_no_hash_concat(r#"<svg xmlns="http://www.w3.org/2000/svg" viewBox="0 0 24 24" width="24" height="24">"#@ + r#"<path d="M3.5 9.5 H7 L11 5.5 V18.5 L7 14.5 H3.5 Z" "#@ + STROKE@ + r#"/><path d="M13.5 10 C14.8 11 14.8 13 13.5 14 M16 7.8 C18.4 9.6 18.4 14.4 16 16.2 M18.5 5.6 C22 8.2 22 15.8 18.5 18.4" "#@ + STROKE@ + r#"/>"#@, "</svg>"@);
            assert(svg_text(Icon::VolumeHigh) =~= r#"<svg xmlns="http://www.w3.org/2000/svg" viewBox="0 0 24 24" width="24" height="24">"#@ + r#"<path d="M3.5 9.5 H7 L11 5.5 V18.5 L7 14.5 H3.5 Z" "#@ + STROKE@ + r#"/><path d="M13.5 10 C14.8 11 14.8 13 13.5 14 M16 7.8 C18.4 9.6 18.4 14.4 16 16.2 M18.5 5.6 C22 8.2 22 15.8 18.5 18.4" "#@ + STROKE@ + r#"/>"#@ + "</svg>"@);
            assert(svg_text(Icon::VolumeHigh).subrange(154int, 154int + needle.len()) =~= needle);
        },
        Icon::Menu => {
            reveal_strlit(r#"" stroke-linecap="round" stroke-linejoin="round""#);
            reveal_strlit(r#"/>"#);
            reveal_strlit(r#"1.9"#);
            reveal_strlit(r#"</svg>"#);
            reveal_strlit(r#"<path d="M4 7.25 H20 M4 12 H20 M4 16.75 H20" "#);
            reveal_strlit(r#"<svg xmlns="http://www.w3.org/2000/svg" viewBox="0 0 24 24" width="24" height="24">"#);
            reveal_strlit(r#"fill="none" stroke="currentColor" stroke-width=""#);
            assert(no_hash(r#"" stroke-linecap="round" stroke-linejoin="round""#@));
            assert(no_hash(r#"/>"#@));
            assert(no_hash(r#"1.9"#@));
            assert(no_hash(r#"</svg>"#@));
            assert(no_hash(r#"<path d="M4 7.25 H20 M4 12 H20 M4 16.75 H20" "#@));
            assert(no_hash(r#"<svg xmlns="http://www.w3.org/2000/svg" viewBox="0 0 24 24" width="24" height="24">"#@));
            assert(no_hash(r#"fill="none" stroke="currentColor" stroke-width=""#@));
            lemma_no_hash_concat(r#"<svg xmlns="http://www.w3.org/2000/svg" viewBox="0 0 24 24" width="24" height="24">"#@, r#"<path d="M4 7.25 H20 M4 12 H20 M4 16.75 H20" "#@);
            lemma_no_hash_concat(r#"<svg xmlns="http://www.w3.org/2000/svg" viewBox="0 0 24 24" width="24" height="24">"#@ + r#"<path d="M4 7.25 H20 M4 12 H20 M4 16.75 H20" "#@, r#"fill="none" stroke="currentColor" stroke-width=""#@);
            lemma_no_hash_concat(r#"<svg xmlns="http://www.w3.org/2000/svg" viewBox="0 0 24 24" width="24" height="24">"#@ + r#"<path d="M4 7.25 H20 M4 12 H20 M4 16.75 H20" "#@ + r#"fill="none" stroke="currentColor" stroke-width=""#@, "1.9"@);
            lemma_no_hash_concat(r#"<svg xmlns="http://www.w3.org/2000/svg" viewBox="0 0 24 24" width="24" height="24">"#@ + r#"<path d="M4 7.25 H20 M4 12 H20 M4 16.75 H20" "#@ + r#"fill="none" stroke="currentColor" stroke-width=""#@ + "1.9"@, r#"" stroke-linecap="round" stroke-linejoin="round""#@);
            lemma_no_hash_concat(r#"<svg xmlns="http://www.w3.org/2000/svg" viewBox="0 0 24 24" width="24" height="24">"#@ + r#"<path d="M4 7.25 H20 M4 12 H20 M4 16.75 H20" "#@ + r#"fill="none" stroke="currentColor" stroke-width=""#@ + "1.9"@ + r#"" stroke-linecap="round" stroke-linejoin="round""#@, r#"/>"#@);
            lemma_no_hash_concat(r#"<svg xmlns="http://www.w3.org/2000/svg" viewBox="0 0 24 24" width="24" height="24">"#@ + r#"<path d="M4 7.25 H20 M4 12 H20 M4 16.75 H20" "#@ + r#"fill="none" stroke="currentColor" stroke-width=""#@ + "1.9"@ + r#"" stroke-linecap="round" stroke-linejoin="round""#@ + r#"/>"#@, "</svg>"@);
            assert(svg_text(Icon::Menu) =~= r#"<svg xmlns="http://www.w3.org/2000/svg" viewBox="0 0 24 24" width="24" height="24">"#@ + r#"<path d="M4 7.25 H20 M4 12 H20 M4 16.75 H20" "#@ + r#"fill="none" stroke="currentColor" stroke-width=""#@ + "1.9"@ + r#"" stroke-linecap="round" stroke-linejoin="round""#@ + r#"/>"#@ + "</svg>"@);
            assert(svg_text(Icon::Menu).subrange(148int, 148int + needle.len()) =~= needle);
        },
        Icon::Close => {
            reveal_strlit(r#"/>"#);
            reveal_strlit(r#"</svg>"#);
            reveal_strlit(r#"<path d="M6.5 6.5 L17.5 17.5 M17.5 6.5 L6.5 17.5" "#);
            reveal_strlit(r#"<svg xmlns="http://www.w3.org/2000/svg" viewBox="0 0 24 24" width="24" height="24">"#);
            reveal_strlit(r#"fill="none" stroke="currentColor" stroke-width="1.7" stroke-linecap="round" stroke-linejoin="round""#);
            assert(no_hash(r#"/>"#@));
            assert(no_hash(r#"</svg>"#@));
            assert(no_hash(r#"<path d="M6.5 6.5 L17.5 17.5 M17.5 6.5 L6.5 17.5" "#@));
            assert(no_hash(r#"<svg xmlns="http://www.w3.org/2000/svg" viewBox="0 0 24 24" width="24" height="24">"#@));
            assert(no_hash(r#"fill="none" stroke="currentColor" stroke-width="1.7" stroke-linecap="round" stroke-linejoin="round""#@));
            lemma_no_hash_concat(r#"<svg xmlns="http://www.w3.org/2000/svg" viewBox="0 0 24 24" width="24" height="24">"#@, r#"<path d="M6.5 6.5 L17.5 17.5 M17.5 6.5 L6.5 17.5" "#@);
            lemma_no_hash_concat(r#"<svg xmlns="http://www.w3.org/2000/svg" viewBox="0 0 24 24" width="24" height="24">"#@ + r#"<path d="M6.5 6.5 L17.5 17.5 M17.5 6.5 L6.5 17.5" "#@, STROKE@);
            lemma_no_hash_concat(r#"<svg xmlns="http://www.w3.org/2000/svg" viewBox="0 0 24 24" width="24" height="24">"#@ + r#"<path d="M6.5 6.5 L17.5 17.5 M17.5 6.5 L6.5 17.5" "#@ + STROKE@, r#"/>"#@);
            lemma_no_hash_concat(r#"<svg xmlns="http://www.w3.org/2000/svg" viewBox="0 0 24 24" width="24" height="24">"#@ + r#"<path d="M6.5 6.5 L17.5 17.5 M17.5 6.5 L6.5 17.5" "#@ + STROKE@ + r#"/>"#@, "</svg>"@);
            assert(svg_text(Icon::Close) =~= r#"<svg xmlns="http://www.w3.org/2000/svg" viewBox="0 0 24 24" width="24" height="24">"#@ + r#"<path d="M6.5 6.5 L17.5 17.5 M17.5 6.5 L6.5 17.5" "#@ + STROKE@ + r#"/>"#@ + "</svg>"@);
            assert(svg_text(Icon::Close).subrange(153int, 153int + needle.len()) =~= needle);
        },
        Icon::Lock => {
            reveal_strlit(r#"/>"#);
            reveal_strlit(r#"/><path d="M8.5 11 V8 C8.5 4.5 15.5 4.5 15.5 8 V11" "#);
            reveal_strlit(r#"</svg>"#);
            reveal_strlit(r#"<path d="M6.5 11 H17.5 V19.5 H6.5 Z" "#);
            reveal_strlit(r#"<svg xmlns="http://www.w3.org/2000/svg" viewBox="0 0 24 24" width="24" height="24">"#);
            reveal_strlit(r#"fill="none" stroke="currentColor" stroke-width="1.7" stroke-linecap="round" stroke-linejoin="round""#);
            assert(no_hash(r#"/>"#@));
            assert(no_hash(r#"/><path d="M8.5 11 V8 C8.5 4.5 15.5 4.5 15.5 8 V11" "#@));
            assert(no_hash(r#"</svg>"#@));
            assert(no_hash(r#"<path d="M6.5 11 H17.5 V19.5 H6.5 Z" "#@));
            assert(no_hash(r#"<svg xmlns="http://www.w3.org/2000/svg" viewBox="0 0 24 24" width="24" height="24">"#@));
            assert(no_hash(r#"fill="none" stroke="currentColor" stroke-width="1.7" stroke-linecap="round" stroke-linejoin="round""#@));
            lemma_no_hash_concat(r#"<svg xmlns="http://www.w3.org/2000/svg" viewBox="0 0 24 24" width="24" height="24">"#@, r#"<path d="M6.5 11 H17.5 V19.5 H6.5 Z" "#@);
            lemma_no_hash_concat(r#"<svg xmlns="http://www.w3.org/2000/svg" viewBox="0 0 24 24" width="24" height="24">"#@ + r#"<path d="M6.5 11 H17.5 V19.5 H6.5 Z" "#@, STROKE@);
            lemma_no_hash_concat(r#"<svg xmlns="http://www.w3.org/2000/svg" viewBox="0 0 24 24" width="24" height="24">"#@ + r#"<path d="M6.5 11 H17.5 V19.5 H6.5 Z" "#@ + STROKE@, r#"/><path d="M8.5 11 V8 C8.5 4.5 15.5 4.5 15.5 8 V11" "#@);
            lemma_no_hash_concat(r#"<svg xmlns="http://www.w3.org/2000/svg" viewBox="0 0 24 24" width="24" height="24">"#@ + r#"<path d="M6.5 11 H17.5 V19.5 H6.5 Z" "#@ + STROKE@ + r#"/><path d="M8.5 11 V8 C8.5 4.5 15.5 4.5 15.5 8 V11" "#@, STROKE@);
            lemma_no_hash_concat(r#"<svg xmlns="http://www.w3.org/2000/svg" viewBox="0 0 24 24" width="24" height="24">"#@ + r#"<path d="M6.5 11 H17.5 V19.5 H6.5 Z" "#@ + STROKE@ + r#"/><path d="M8.5 11 V8 C8.5 4.5 15.5 4.5 15.5 8 V11" "#@ + STROKE@, r#"/>"#@);
            lemma_no_hash_concat(r#"<svg xmlns="http://www.w3.org/2000/svg" viewBox="0 0 24 24" width="24" height="24">"#@ + r#"<path d="M6.5 11 H17.5 V19.5 H6.5 Z" "#@ + STROKE@ + r#"/><path d="M8.5 11 V8 C8.5 4.5 15.5 4.5 15.5 8 V11" "#@ + STROKE@ + r#"/>"#@, "</svg>"@);
            assert(svg_text(Icon::Lock) =~= r#"<svg xmlns="http://www.w3.org/2000/svg" viewBox="0 0 24 24" width="24" height="24">"#@ + r#"<path d="M6.5 11 H17.5 V19.5 H6.5 Z" "#@ + STROKE@ + r#"/><path d="M8.5 11 V8 C8.5 4.5 15.5 4.5 15.5 8 V11" "#@ + STROKE@ + r#"/>"#@ + "</svg>"@);
            assert(svg_text(Icon::Lock).subrange(140int, 140int + needle.len()) =~= needle);
        },
        Icon::Folder => {
            reveal_strlit(r#"/>"#);
            reveal_strlit(r#"</svg>"#);
            reveal_strlit(r#"<path d="M3.5 6.5 H9.5 L11.5 9 H20.5 V18.5 H3.5 Z" "#);
            reveal_strlit(r#"<svg xmlns="http://www.w3.org/2000/svg" viewBox="0 0 24 24" width="24" height="24">"#);
            reveal_strlit(r#"fill="none" stroke="currentColor" stroke-width="1.7" stroke-linecap="round" stroke-linejoin="round""#);
            assert(no_hash(r#"/>"#@));
            assert(no_hash(r#"</svg>"#@));
            assert(no_hash(r#"<path d="M3.5 6.5 H9.5 L11.5 9 H20.5 V18.5 H3.5 Z" "#@));
            assert(no_hash(r#"<svg xmlns="http://www.w3.org/2000/svg" viewBox="0 0 24 24" width="24" height="24">"#@));
            assert(no_hash(r#"fill="none" stroke="currentColor" stroke-width="1.7" stroke-linecap="round" stroke-linejoin="round""#@));
            lemma_no_hash_concat(r#"<svg xmlns="http://www.w3.org/2000/svg" viewBox="0 0 24 24" width="24" height="24">"#@, r#"<path d="M3.5 6.5 H9.5 L11.5 9 H20.5 V18.5 H3.5 Z" "#@);
            lemma_no_hash_concat(r#"<svg xmlns="http://www.w3.org/2000/svg" viewBox="0 0 24 24" width="24" height="24">"#@ + r#"<path d="M3.5 6.5 H9.5 L11.5 9 H20.5 V18.5 H3.5 Z" "#@, STROKE@);
            lemma_no_hash_concat(r#"<svg xmlns="http://www.w3.org/2000/svg" viewBox="0 0 24 24" width="24" height="24">"#@ + r#"<path d="M3.5 6.5 H9.5 L11.5 9 H20.5 V18.5 H3.5 Z" "#@ + STROKE@, r#"/>"#@);
            lemma_no_hash_concat(r#"<svg xmlns="http://www.w3.org/2000/svg" viewBox="0 0 24 24" width="24" height="24">"#@ + r#"<path d="M3.5 6.5 H9.5 L11.5 9 H20.5 V18.5 H3.5 Z" "#@ + STROKE@ + r#"/>"#@, "</svg>"@);
            assert(svg_text(Icon::Folder) =~= r#"<svg xmlns="http://www.w3.org/2000/svg" viewBox="0 0 24 24" width="24" height="24">"#@ + r#"<path d="M3.5 6.5 H9.5 L11.5 9 H20.5 V18.5 H3.5 Z" "#@ + STROKE@ + r#"/>"#@ + "</svg>"@);
            assert(svg_text(Icon::Folder).subrange(154int, 154int + needle.len()) =~= needle);
        },
        Icon::Sun => {
            reveal_strlit(r#"/>"#);
            reveal_strlit(r#"/><path d="M12 2.5 V5 M12 19 V21.5 M2.5 12 H5 M19 12 H21.5 M5.2 5.2 L7 7 M17 17 L18.8 18.8 M18.8 5.2 L17 7 M7 17 L5.2 18.8" "#);
            reveal_strlit(r#"</svg>"#);
            reveal_strlit(r#"<circle cx="12" cy="12" r="4.5" "#);
            reveal_strlit(r#"<svg xmlns="http://www.w3.org/2000/svg" viewBox="0 0 24 24" width="24" height="24">"#);
            reveal_strlit(r#"fill="none" stroke="currentColor" stroke-width="1.7" stroke-linecap="round" stroke-linejoin="round""#);
            assert(no_hash(r#"/>"#@));
            assert(no_hash(r#"/><path d="M12 2.5 V5 M12 19 V21.5 M2.5 12 H5 M19 12 H21.5 M5.2 5.2 L7 7 M17 17 L18.8 18.8 M18.8 5.2 L17 7 M7 17 L5.2 18.8" "#@));
            assert(no_hash(r#"</svg>"#@));
            assert(no_hash(r#"<circle cx="12" cy="12" r="4.5" "#@));
            assert(no_hash(r#"<svg xmlns="http://www.w3.org/2000/svg" viewBox="0 0 24 24" width="24" height="24">"#@));
            assert(no_hash(r#"fill="none" stroke="currentColor" stroke-width="1.7" stroke-linecap="round" stroke-linejoin="round""#@));
            lemma_no_hash_concat(r#"<svg xmlns="http://www.w3.org/2000/svg" viewBox="0 0 24 24" width="24" height="24">"#@, r#"<circle cx="12" cy="12" r="4.5" "#@);
            lemma_no_hash_concat(r#"<svg xmlns="http://www.w3.org/2000/svg" viewBox="0 0 24 24" width="24" height="24">"#@ + r#"<circle cx="12" cy="12" r="4.5" "#@, STROKE@);
            lemma_no_hash_concat(r#"<svg xmlns="http://www.w3.org/2000/svg" viewBox="0 0 24 24" width="24" height="24">"#@ + r#"<circle cx="12" cy="12" r="4.5" "#@ + STROKE@, r#"/><path d="M12 2.5 V5 M12 19 V21.5 M2.5 12 H5 M19 12 H21.5 M5.2 5.2 L7 7 M17 17 L18.8 18.8 M18.8 5.2 L17 7 M7 17 L5.2 18.8" "#@);
            lemma_no_hash_concat(r#"<svg xmlns="http://www.w3.org/2000/svg" viewBox="0 0 24 24" width="24" height="24">"#@ + r#"<circle cx="12" cy="12" r="4.5" "#@ + STROKE@ + r#"/><path d="M12 2.5 V5 M12 19 V21.5 M2.5 12 H5 M19 12 H21.5 M5.2 5.2 L7 7 M17 17 L18.8 18.8 M18.8 5.2 L17 7 M7 17 L5.2 18.8" "#@, STROKE@);
            lemma_no_hash_concat(r#"<svg xmlns="http://www.w3.org/2000/svg" viewBox="0 0 24 24" width="24" height="24">"#@ + r#"<circle cx="12" cy="12" r="4.5" "#@ + STROKE@ + r#"/><path d="M12 2.5 V5 M12 19 V21.5 M2.5 12 H5 M19 12 H21.5 M5.2 5.2 L7 7 M17 17 L18.8 18.8 M18.8 5.2 L17 7 M7 17 L5.2 18.8" "#@ + STROKE@, r#"/>"#@);
            lemma_no_hash_concat(r#"<svg xmlns="http://www.w3.org/2000/svg" viewBox="0 0 24 24" width="24" height="24">"#@ + r#"<circle cx="12" cy="12" r="4.5" "#@ + STROKE@ + r#"/><path d="M12 2.5 V5 M12 19 V21.5 M2.5 12 H5 M19 12 H21.5 M5.2 5.2 L7 7 M17 17 L18.8 18.8 M18.8 5.2 L17 7 M7 17 L5.2 18.8" "#@ + STROKE@ + r#"/>"#@, "</svg>"@);
            assert(svg_text(Icon::Sun) =~= r#"<svg xmlns="http://www.w3.org/2000/svg" viewBox="0 0 24 24" width="24" height="24">"#@ + r#"<circle cx="12" cy="12" r="4.5" "#@ + STROKE@ + r#"/><path d="M12 2.5 V5 M12 19 V21.5 M2.5 12 H5 M19 12 H21.5 M5.2 5.2 L7 7 M17 17 L18.8 18.8 M18.8 5.2 L17 7 M7 17 L5.2 18.8" "#@ + STROKE@ + r#"/>"#@ + "</svg>"@);
            assert(svg_text(Icon::Sun).subrange(135int, 135int + needle.len()) =~= needle);
        },
        Icon::Moon => {
            reveal_strlit(r#"/>"#);
            reveal_strlit(r#"</svg>"#);
            reveal_strlit(r#"<path d="M20 14.5 A9 9 0 1 1 9.5 4 A7 7 0 0 0 20 14.5 Z" "#);
            reveal_strlit(r#"<svg xmlns="http://www.w3.org/2000/svg" viewBox="0 0 24 24" width="24" height="24">"#);
            reveal_strlit(r#"fill="none" stroke="currentColor" stroke-width="1.7" stroke-linecap="round" stroke-linejoin="round""#);
            assert(no_hash(r#"/>"#@));
            assert(no_hash(r#"</svg>"#@));
            assert(no_hash(r#"<path d="M20 14.5 A9 9 0 1 1 9.5 4 A7 7 0 0 0 20 14.5 Z" "#@));
            assert(no_hash(r#"<svg xmlns="http://www.w3.org/2000/svg" viewBox="0 0 24 24" width="24" height="24">"#@));
            assert(no_hash(r#"fill="none" stroke="currentColor" stroke-width="1.7" stroke-linecap="round" stroke-linejoin="round""#@));
            lemma_no_hash_concat(r#"<svg xmlns="http://www.w3.org/2000/svg" viewBox="0 0 24 24" width="24" height="24">"#@, r#"<path d="M20 14.5 A9 9 0 1 1 9.5 4 A7 7 0 0 0 20 14.5 Z" "#@);
            lemma_no_hash_concat(r#"<svg xmlns="http://www.w3.org/2000/svg" viewBox="0 0 24 24" width="24" height="24">"#@ + r#"<path d="M20 14.5 A9 9 0 1 1 9.5 4 A7 7 0 0 0 20 14.5 Z" "#@, STROKE@);
            lemma_no_hash_concat(r#"<svg xmlns="http://www.w3.org/2000/svg" viewBox="0 0 24 24" width="24" height="24">"#@ + r#"<path d="M20 14.5 A9 9 0 1 1 9.5 4 A7 7 0 0 0 20 14.5 Z" "#@ + STROKE@, r#"/>"#@);
            lemma_no_hash_concat(r#"<svg xmlns="http://www.w3.org/2000/svg" viewBox="0 0 24 24" width="24" height="24">"#@ + r#"<path d="M20 14.5 A9 9 0 1 1 9.5 4 A7 7 0 0 0 20 14.5 Z" "#@ + STROKE@ + r#"/>"#@, "</svg>"@);
            assert(svg_text(Icon::Moon) =~= r#"<svg xmlns="http://www.w3.org/2000/svg" viewBox="0 0 24 24" width="24" height="24">"#@ + r#"<path d="M20 14.5 A9 9 0 1 1 9.5 4 A7 7 0 0 0 20 14.5 Z" "#@ + STROKE@ + r#"/>"#@ + "</svg>"@);
            assert(svg_text(Icon::Moon).subrange(160int, 160int + needle.len()) =~= needle);
        },
    }
}

/// The size the design system specifies for icons inside controls, in
/// logical pixels.
pub const CONTROL_PX: u32 = 16;
/// The size the design system specifies for icons in inspector rows.
pub const INSPECTOR_PX: u32 = 18;


/// The length of each icon's inner markup.
spec fn body_len(icon: Icon) -> nat {
    match icon {
        Icon::Play => 51,
        Icon::Pause => 138,
        Icon::StepBack => 180,
        Icon::StepForward => 180,
        Icon::Split => 308,
        Icon::Delete => 176,
        Icon::Duplicate => 271,
        Icon::Undo => 165,
        Icon::Redo => 166,
        Icon::Download => 167,
        Icon::ZoomIn => 292,
        Icon::ZoomOut => 276,
        Icon::SpeakerOn => 324,
        Icon::SpeakerOff => 305,
        Icon::VolumeHigh => 369,
        Icon::Menu => 146,
        Icon::Close => 151,
        Icon::Lock => 289,
        Icon::Folder => 152,
        Icon::Sun => 356,
        Icon::Moon => 158,
    }
}

/// Each icon's markup has its own length, but for the two step arrows,
/// which differ in their eleventh character.
proof fn lemma_body_shape(icon: Icon)
    ensures
        icon_body(icon).len() == body_len(icon),
        icon == Icon::StepBack ==> icon_body(icon)[10] == '1',
        icon == Icon::StepForward ==> icon_body(icon)[10] == '7',
{
    match icon {
        Icon::Play => {
            reveal_strlit(r#"<path d="M8 5 L19 12 L8 19 Z" fill="currentColor"/>"#);
        },
        Icon::Pause => {
            reveal_strlit(r#"<path d="M9 5.5 V18.5 M15 5.5 V18.5" "#);
            reveal_strlit(r#"fill="none" stroke="currentColor" stroke-width=""#);
            reveal_strlit(r#"2.4"#);
            reveal_strlit(r#"" stroke-linecap="round" stroke-linejoin="round""#);
            reveal_strlit(r#"/>"#);
        },
        Icon::StepBack => {
            reveal_strlit(r#"<path d="M17 5.5 L17 18.5 L8 12 Z" fill="currentColor"/><path d="M6 5.5 V18.5" "#);
            reveal_strlit(r#"fill="none" stroke="currentColor" stroke-width=""#);
            reveal_strlit(r#"1.9"#);
            reveal_strlit(r#"" stroke-linecap="round" stroke-linejoin="round""#);
            reveal_strlit(r#"/>"#);
        },
        Icon::StepForward => {
            reveal_strlit(r#"<path d="M7 5.5 L7 18.5 L16 12 Z" fill="currentColor"/><path d="M18 5.5 V18.5" "#);
            reveal_strlit(r#"fill="none" stroke="currentColor" stroke-width=""#);
            reveal_strlit(r#"1.9"#);
            reveal_strlit(r#"" stroke-linecap="round" stroke-linejoin="round""#);
            reveal_strlit(r#"/>"#);
        },
        Icon::Split => {
            reveal_strlit(r#"<path d="M12 3.5 V20.5" "#);
            reveal_strlit(r#"fill="none" stroke="currentColor" stroke-width="1.7" stroke-linecap="round" stroke-linejoin="round""#);
            reveal_strlit(r#" stroke-dasharray="3 3"/><path d="M8 8.5 L4.5 12 L8 15.5 M16 8.5 L19.5 12 L16 15.5" "#);
            reveal_strlit(r#"/>"#);
        },
        Icon::Delete => {
            reveal_strlit(r#"<path d="M5.5 7 H18.5 M7.5 7 L8.5 19.5 H15.5 L16.5 7 M9.5 7 V4.5 H14.5 V7" "#);
            reveal_strlit(r#"fill="none" stroke="currentColor" stroke-width="1.7" stroke-linecap="round" stroke-linejoin="round""#);
            reveal_strlit(r#"/>"#);
        },
        Icon::Duplicate => {
            reveal_strlit(r#"<path d="M8.5 4.5 H19.5 V15.5" "#);
            reveal_strlit(r#"fill="none" stroke="currentColor" stroke-width="1.7" stroke-linecap="round" stroke-linejoin="round""#);
            reveal_strlit(r#"/><path d="M4.5 8.5 H15.5 V19.5 H4.5 Z" "#);
            reveal_strlit(r#"/>"#);
        },
        Icon::Undo => {
            reveal_strlit(r#"<path d="M9 7 L4.5 11 L9 15 M4.5 11 H14 C18.5 11 20 14 19 18.5" "#);
            reveal_strlit(r#"fill="none" stroke="currentColor" stroke-width="1.7" stroke-linecap="round" stroke-linejoin="round""#);
            reveal_strlit(r#"/>"#);
        },
        Icon::Redo => {
            reveal_strlit(r#"<path d="M15 7 L19.5 11 L15 15 M19.5 11 H10 C5.5 11 4 14 5 18.5" "#);
            reveal_strlit(r#"fill="none" stroke="currentColor" stroke-width="1.7" stroke-linecap="round" stroke-linejoin="round""#);
            reveal_strlit(r#"/>"#);
        },
        Icon::Download => {
            reveal_strlit(r#"<path d="M12 3.5 V15 M7.5 10.5 L12 15 L16.5 10.5 M4.5 18.5 H19.5" "#);
            reveal_strlit(r#"fill="none" stroke="currentColor" stroke-width="1.7" stroke-linecap="round" stroke-linejoin="round""#);
            reveal_strlit(r#"/>"#);
        },
        Icon::ZoomIn => {
            reveal_strlit(r#"<circle cx="10.5" cy="10.5" r="6" "#);
            reveal_strlit(r#"fill="none" stroke="currentColor" stroke-width="1.7" stroke-linecap="round" stroke-linejoin="round""#);
            reveal_strlit(r#"/><path d="M15 15 L20 20 M7.5 10.5 H13.5 M10.5 7.5 V13.5" "#);
            reveal_strlit(r#"/>"#);
        },
        Icon::ZoomOut => {
            reveal_strlit(r#"<circle cx="10.5" cy="10.5" r="6" "#);
            reveal_strlit(r#"fill="none" stroke="currentColor" stroke-width="1.7" stroke-linecap="round" stroke-linejoin="round""#);
            reveal_strlit(r#"/><path d="M15 15 L20 20 M7.5 10.5 H13.5" "#);
            reveal_strlit(r#"/>"#);
        },
        Icon::SpeakerOn => {
            reveal_strlit(r#"<path d="M4.5 9.5 H8 L12 5.5 V18.5 L8 14.5 H4.5 Z" "#);
            reveal_strlit(r#"fill="none" stroke="currentColor" stroke-width="1.7" stroke-linecap="round" stroke-linejoin="round""#);
            reveal_strlit(r#"/><path d="M15 9 C17 10.5 17 13.5 15 15 M17.5 6.5 C21 9 21 15 17.5 17.5" "#);
            reveal_strlit(r#"/>"#);
        },
        Icon::SpeakerOff => {
            reveal_strlit(r#"<path d="M4.5 9.5 H8 L12 5.5 V18.5 L8 14.5 H4.5 Z" "#);
            reveal_strlit(r#"fill="none" stroke="currentColor" stroke-width="1.7" stroke-linecap="round" stroke-linejoin="round""#);
            reveal_strlit(r#"/><path d="M15.5 9.5 L20.5 14.5 M20.5 9.5 L15.5 14.5" "#);
            reveal_strlit(r#"/>"#);
        },
        Icon::VolumeHigh => {
            reveal_strlit(r#"<path d="M3.5 9.5 H7 L11 5.5 V18.5 L7 14.5 H3.5 Z" "#);
            reveal_strlit(r#"fill="none" stroke="currentColor" stroke-width="1.7" stroke-linecap="round" stroke-linejoin="round""#);
            reveal_strlit(r#"/><path d="M13.5 10 C14.8 11 14.8 13 13.5 14 M16 7.8 C18.4 9.6 18.4 14.4 16 16.2 M18.5 5.6 C22 8.2 22 15.8 18.5 18.4" "#);
            reveal_strlit(r#"/>"#);
        },
        Icon::Menu => {
            reveal_strlit(r#"<path d="M4 7.25 H20 M4 12 H20 M4 16.75 H20" "#);
            reveal_strlit(r#"fill="none" stroke="currentColor" stroke-width=""#);
            reveal_strlit(r#"1.9"#);
            reveal_strlit(r#"" stroke-linecap="round" stroke-linejoin="round""#);
            reveal_strlit(r#"/>"#);
        },
        Icon::Close => {
            reveal_strlit(r#"<path d="M6.5 6.5 L17.5 17.5 M17.5 6.5 L6.5 17.5" "#);
            reveal_strlit(r#"fill="none" stroke="currentColor" stroke-width="1.7" stroke-linecap="round" stroke-linejoin="round""#);
            reveal_strlit(r#"/>"#);
        },
        Icon::Lock => {
            reveal_strlit(r#"<path d="M6.5 11 H17.5 V19.5 H6.5 Z" "#);
            reveal_strlit(r#"fill="none" stroke="currentColor" stroke-width="1.7" stroke-linecap="round" stroke-linejoin="round""#);
            reveal_strlit(r#"/><path d="M8.5 11 V8 C8.5 4.5 15.5 4.5 15.5 8 V11" "#);
            reveal_strlit(r#"/>"#);
        },
        Icon::Folder => {
            reveal_strlit(r#"<path d="M3.5 6.5 H9.5 L11.5 9 H20.5 V18.5 H3.5 Z" "#);
            reveal_strlit(r#"fill="none" stroke="currentColor" stroke-width="1.7" stroke-linecap="round" stroke-linejoin="round""#);
            reveal_strlit(r#"/>"#);
        },
        Icon::Sun => {
            reveal_strlit(r#"<circle cx="12" cy="12" r="4.5" "#);
            reveal_strlit(r#"fill="none" stroke="currentColor" stroke-width="1.7" stroke-linecap="round" stroke-linejoin="round""#);
            reveal_strlit(r#"/><path d="M12 2.5 V5 M12 19 V21.5 M2.5 12 H5 M19 12 H21.5 M5.2 5.2 L7 7 M17 17 L18.8 18.8 M18.8 5.2 L17 7 M7 17 L5.2 18.8" "#);
            reveal_strlit(r#"/>"#);
        },
        Icon::Moon => {
            reveal_strlit(r#"<path d="M20 14.5 A9 9 0 1 1 9.5 4 A7 7 0 0 0 20 14.5 Z" "#);
            reveal_strlit(r#"fill="none" stroke="currentColor" stroke-width="1.7" stroke-linecap="round" stroke-linejoin="round""#);
            reveal_strlit(r#"/>"#);
        },
    }
}

/// **No two icons draw the same document**: distinct icons have distinct
/// SVG sources, so no mark in the set stands in for another.
pub proof fn law_distinct_icons_draw_distinct_documents(a: Icon, b: Icon)
    requires
        a != b,
    ensures
        svg_text(a) != svg_text(b),
{
    lemma_body_shape(a);
    lemma_body_shape(b);
    reveal_strlit(r#"<svg xmlns="http://www.w3.org/2000/svg" viewBox="0 0 24 24" width="24" height="24">"#);
    reveal_strlit("</svg>");
    let open = SVG_OPEN@;
    if body_len(a) != body_len(b) {
        assert(svg_text(a).len() != svg_text(b).len());
    } else {
        let k: int = open.len() as int + 10;
        assert(svg_text(a)[k] == icon_body(a)[10]);
        assert(svg_text(b)[k] == icon_body(b)[10]);
    }
}

} // verus!

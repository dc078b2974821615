use offcut_ui::rice::{
    config_path, parse, parse_color, selection_path, summary, themed, themes_dir, Override, Rgba8,
    Seeds, ThemeConfig,
};
use offcut_ui::theme::{Mode, Palette, ROLE_COUNT, ROLE_NAMES};

fn c(r: u8, g: u8, b: u8, a: u8) -> Rgba8 {
    Rgba8 { r, g, b, a }
}

/// The shipped dark palette, as bytes.
fn dark() -> Palette<Rgba8> {
    Palette {
        canvas: c(0x1A, 0x1A, 0x1A, 0xFF),
        surface: c(0x25, 0x25, 0x25, 0xFF),
        surface_raised: c(0x2F, 0x2F, 0x2F, 0xFF),
        surface_sunken: c(0x15, 0x15, 0x15, 0xFF),
        surface_sunken_alt: c(0x0D, 0x0D, 0x0D, 0xFF),
        letterbox: c(0x00, 0x00, 0x00, 0xFF),
        border: c(0x38, 0x38, 0x38, 0xFF),
        border_raised: c(0x4A, 0x4A, 0x4A, 0xFF),
        accent: c(0x0A, 0x6F, 0xD8, 0xFF),
        on_accent: c(0xFF, 0xFF, 0xFF, 0xFF),
        control_knob: c(0xFF, 0xFF, 0xFF, 0xFF),
        control_track_off: c(0x7A, 0x7A, 0x80, 0xFF),
        success: c(0x30, 0xD1, 0x58, 0xFF),
        danger: c(0xFF, 0x45, 0x3A, 0xFF),
        origin_mark: c(0xB8, 0xB8, 0xBD, 0xFF),
        accent_tint_bg: c(0x14, 0x2A, 0x42, 0xFF),
        accent_tint_text: c(0x6F, 0xB6, 0xFF, 0xFF),
        trim_track: c(0x15, 0x15, 0x15, 0xFF),
        trim_range_fill: c(0x0A, 0x6F, 0xD8, 0xFF),
        trim_range_edge: c(0xFF, 0xFF, 0xFF, 0xFF),
        trim_range_excluded: c(0xFF, 0xFF, 0xFF, 0x0F),
        playhead: c(0xFF, 0x45, 0x3A, 0xFF),
        mute: c(0xFF, 0x45, 0x3A, 0xFF),
        trim_out: c(0xFF, 0xD4, 0x26, 0xFF),
        trim_out_hover: c(0xFF, 0xE0, 0x66, 0xFF),
        stage_badge_text: c(0xFF, 0xFF, 0xFF, 0xFF),
        stage_badge_text_dim: c(0xC8, 0xC8, 0xC8, 0xFF),
        stage_shadow: c(0x00, 0x00, 0x00, 0x8C),
        text_primary: c(0xFF, 0xFF, 0xFF, 0xFF),
        text_secondary: c(0xA8, 0xA8, 0xAD, 0xFF),
        text_secondary_alt: c(0xC0, 0xC0, 0xC5, 0xFF),
        text_muted: c(0x90, 0x90, 0x95, 0xFF),
        text_muted_alt: c(0x78, 0x78, 0x7D, 0xFF),
        surface_hover: c(0x3A, 0x3A, 0x3A, 0xFF),
        accent_hover: c(0x2B, 0x85, 0xEA, 0xFF),
        waveform: c(0x5E, 0x5E, 0x63, 0xFF),
        mute_border: c(0x5E, 0x2A, 0x25, 0xFF),
    }
}

/// The shipped light palette, as bytes.
fn light() -> Palette<Rgba8> {
    Palette {
        canvas: c(0xEC, 0xEC, 0xEE, 0xFF),
        surface: c(0xF5, 0xF5, 0xF7, 0xFF),
        surface_raised: c(0xFF, 0xFF, 0xFF, 0xFF),
        surface_sunken: c(0xE2, 0xE2, 0xE5, 0xFF),
        surface_sunken_alt: c(0xD8, 0xD8, 0xDB, 0xFF),
        letterbox: c(0x00, 0x00, 0x00, 0xFF),
        border: c(0xD6, 0xD6, 0xD9, 0xFF),
        border_raised: c(0xC6, 0xC6, 0xC8, 0xFF),
        accent: c(0x00, 0x71, 0xE3, 0xFF),
        on_accent: c(0xFF, 0xFF, 0xFF, 0xFF),
        control_knob: c(0xFF, 0xFF, 0xFF, 0xFF),
        control_track_off: c(0x7C, 0x7C, 0x84, 0xFF),
        success: c(0x24, 0x8A, 0x3D, 0xFF),
        danger: c(0xD7, 0x00, 0x15, 0xFF),
        origin_mark: c(0x2C, 0x2C, 0x2E, 0xFF),
        accent_tint_bg: c(0xE3, 0xEF, 0xFC, 0xFF),
        accent_tint_text: c(0x00, 0x58, 0xB0, 0xFF),
        trim_track: c(0x15, 0x15, 0x15, 0xFF),
        trim_range_fill: c(0x0A, 0x6F, 0xD8, 0xFF),
        trim_range_edge: c(0xFF, 0xFF, 0xFF, 0xFF),
        trim_range_excluded: c(0xFF, 0xFF, 0xFF, 0x0F),
        playhead: c(0xFF, 0x45, 0x3A, 0xFF),
        mute: c(0xFF, 0x45, 0x3A, 0xFF),
        trim_out: c(0xFF, 0xD4, 0x26, 0xFF),
        trim_out_hover: c(0xFF, 0xE0, 0x66, 0xFF),
        stage_badge_text: c(0xFF, 0xFF, 0xFF, 0xFF),
        stage_badge_text_dim: c(0xC8, 0xC8, 0xC8, 0xFF),
        stage_shadow: c(0x00, 0x00, 0x00, 0x8C),
        text_primary: c(0x1D, 0x1D, 0x1F, 0xFF),
        text_secondary: c(0x5E, 0x5E, 0x63, 0xFF),
        text_secondary_alt: c(0x48, 0x48, 0x4D, 0xFF),
        text_muted: c(0x6E, 0x6E, 0x73, 0xFF),
        text_muted_alt: c(0x86, 0x86, 0x8B, 0xFF),
        surface_hover: c(0xE8, 0xE8, 0xEB, 0xFF),
        accent_hover: c(0x00, 0x5F, 0xC4, 0xFF),
        waveform: c(0xB4, 0xB4, 0xB8, 0xFF),
        mute_border: c(0xF0, 0xC6, 0xC9, 0xFF),
    }
}

fn rgb(r: u8, g: u8, b: u8) -> Rgba8 {
    Rgba8 { r, g, b, a: 255 }
}

/// The palettes a config produces over the shipped ones, with `base`
/// standing in for whatever a `[wallpaper]` section derives.
fn apply(config: &ThemeConfig, base_dark: Palette<Rgba8>, base_light: Palette<Rgba8>) -> (Palette<Rgba8>, Palette<Rgba8>) {
    (
        themed(base_dark, Mode::Dark, &config.overrides),
        themed(base_light, Mode::Light, &config.overrides),
    )
}

#[test]
fn an_override_replaces_only_the_named_role() {
    let r = parse("[dark]\naccent = \"#ff0000\"\n");
    let (d, l) = apply(&r, dark(), light());
    assert_eq!(d.accent, rgb(0xFF, 0, 0));
    // Everything else is untouched, including the other mode.
    assert_eq!(d.canvas, dark().canvas);
    assert_eq!(l, light());
}

#[test]
fn a_comment_marker_does_not_eat_the_colour_it_precedes() {
    let r = parse(
        "# a leading comment\n\
         [dark]\n\
         accent = \"#89b4fa\"  # trailing comment\n\
         canvas = #1e1e2e\n",
    );
    let (d, _) = apply(&r, dark(), light());
    assert_eq!(d.accent, rgb(0x89, 0xB4, 0xFA));
    assert_eq!(d.canvas, rgb(0x1E, 0x1E, 0x2E), "bare colours parse too");
    assert!(r.warnings.is_empty(), "clean config warned: {:?}", r.warnings);
}

#[test]
fn an_unknown_role_is_reported_with_a_suggestion() {
    let r = parse("[dark]\ntext_secondry = \"#ffffff\"\n");
    assert_eq!(r.warnings.len(), 1);
    let w = &r.warnings[0];
    assert!(w.contains("text_secondry"), "{w}");
    assert!(w.contains("text_secondary"), "no suggestion offered: {w}");
}

#[test]
fn the_unknown_role_warning_is_worded_exactly() {
    let r = parse("[dark]\ntext_secondry = \"#ffffff\"\n");
    assert_eq!(
        r.warnings[0],
        "line 2: unknown colour role `text_secondry` — did you mean `text_secondary`?"
    );
}

#[test]
fn a_wildly_wrong_role_is_not_given_a_misleading_suggestion() {
    let r = parse("[dark]\nbackground_colour_of_everything = \"#fff\"\n");
    assert_eq!(r.warnings.len(), 1);
    assert!(
        !r.warnings[0].contains("did you mean"),
        "guessed at an unrelated name: {}",
        r.warnings[0]
    );
}

#[test]
fn a_suggestion_ignores_letter_case() {
    let r = parse("[dark]\nACCENT = \"#fff\"\n");
    assert_eq!(r.warnings, vec!["line 2: unknown colour role `ACCENT` — did you mean `accent`?".to_string()]);
}

#[test]
fn every_documented_role_name_is_actually_settable() {
    let mut p = dark();
    for role in ROLE_NAMES {
        assert!(
            p.set_role(role, rgb(0, 0, 0)),
            "`{role}` is advertised in ROLE_NAMES but set_role rejects it"
        );
    }
}

#[test]
fn the_role_vocabulary_covers_every_palette_field() {
    let sentinel = Rgba8 { r: 31, g: 116, b: 201, a: 255 };
    let mut p = dark();
    for role in ROLE_NAMES {
        p.set_role(role, sentinel);
    }
    for i in 0..37 {
        assert_eq!(p.role(i), sentinel, "role {i} ({}) was left at its built-in value", ROLE_NAMES[i]);
    }
}

#[test]
fn an_unknown_name_is_rejected_and_changes_nothing() {
    let mut p = dark();
    assert!(!p.set_role("not_a_role", rgb(1, 2, 3)));
    assert_eq!(p, dark());
}

#[test]
fn colours_parse_in_every_accepted_form() {
    assert_eq!(parse_color("#abc"), Some(rgb(0xAA, 0xBB, 0xCC)));
    assert_eq!(parse_color("#89b4fa"), Some(rgb(0x89, 0xB4, 0xFA)));
    assert_eq!(parse_color("89b4fa"), Some(rgb(0x89, 0xB4, 0xFA)));
    let with_alpha = parse_color("#00000080").expect("8-digit hex");
    let alpha = with_alpha.a as f32 / 255.0;
    assert!((alpha - 0.502).abs() < 0.01, "alpha was {}", alpha);

    for bad in ["", "#12345", "#gggggg", "not-a-colour", "#1234567"] {
        assert_eq!(parse_color(bad), None, "`{bad}` parsed as a colour");
    }
}

#[test]
fn a_colour_value_may_carry_spaces_and_upper_case() {
    assert_eq!(parse_color("  #89B4FA "), Some(rgb(0x89, 0xB4, 0xFA)));
}

#[test]
fn a_colour_has_at_most_one_hash() {
    assert_eq!(parse_color("##fff"), None);
    assert_eq!(parse_color("##89b4fa"), None);
    let r = parse("[dark]\naccent = \"##89b4fa\"\n");
    assert!(r.overrides.is_empty(), "a doubled `#` was applied as a colour");
    assert_eq!(r.warnings.len(), 1, "a doubled `#` went unreported");
}

#[test]
fn a_failing_theme_is_still_applied() {
    let r = parse("[dark]\ntrim_range_fill = \"#161616\"\n");
    let (d, _) = apply(&r, dark(), light());
    assert_eq!(
        d.trim_range_fill,
        rgb(0x16, 0x16, 0x16),
        "the audit overrode the user's choice instead of reporting it"
    );
}

#[test]
fn a_role_outside_any_section_is_reported_rather_than_guessed() {
    let r = parse("accent = \"#ff0000\"\n");
    assert_eq!(r.warnings.len(), 1);
    assert!(r.warnings[0].contains("before any"), "{}", r.warnings[0]);
    let (d, _) = apply(&r, dark(), light());
    assert_eq!(d, dark(), "applied to a mode it was never assigned to");
}

#[test]
fn an_unknown_section_and_a_line_without_a_value_are_reported_with_their_line() {
    let r = parse("[colours]\njust some words\n");
    assert_eq!(
        r.warnings,
        vec![
            "line 1: unknown section [colours] — expected [wallpaper], [dark], or [light]".to_string(),
            "line 2: expected `role = \"#rrggbb\"`".to_string(),
        ]
    );
}

#[test]
fn a_bad_colour_is_reported_and_not_applied() {
    let r = parse("[light]\naccent = \"blue\"\n");
    assert_eq!(
        r.warnings,
        vec!["line 2: `blue` is not a colour — use #rgb, #rrggbb, or #rrggbbaa".to_string()]
    );
    assert!(r.overrides.is_empty());
}

#[test]
fn crlf_line_endings_read_like_plain_ones() {
    let r = parse("[light]\r\naccent = \"#000\"\r\n");
    assert!(r.warnings.is_empty(), "{:?}", r.warnings);
    assert_eq!(r.overrides, vec![Override { mode: Mode::Light, role: 8, color: rgb(0, 0, 0) }]);
}

fn wall(extra: &str) -> ThemeConfig {
    parse(&format!("[wallpaper]\nbackground = \"#111016\"\naccent = \"#d3685b\"\n{extra}"))
}

#[test]
fn two_seeds_are_enough_to_start_a_palette() {
    let r = wall("");
    assert!(r.warnings.is_empty(), "{:?}", r.warnings);
    assert_eq!(
        r.seeds,
        Some(Seeds {
            background: rgb(0x11, 0x10, 0x16),
            accent: rgb(0xD3, 0x68, 0x5B),
            danger: None,
            warning: None,
            success: None,
            text: None,
        })
    );
}

#[test]
fn a_wallpaper_section_without_its_two_required_seeds_says_so() {
    let r = parse("[wallpaper]\naccent = \"#d3685b\"\n");
    assert_eq!(r.warnings.len(), 1);
    assert!(r.warnings[0].contains("background"), "{}", r.warnings[0]);
    assert_eq!(r.seeds, None, "a partial seed set must not half-derive a palette");
    let (d, _) = apply(&r, dark(), light());
    assert_eq!(d, dark());
}

#[test]
fn an_unknown_seed_name_is_reported_with_the_list_of_real_ones() {
    let r = wall("foreground = \"#ffffff\"\n");
    assert!(r.warnings.iter().any(|w| w.contains("foreground") && w.contains("text")));
}

#[test]
fn the_last_statement_of_a_seed_wins() {
    let r = wall("accent = \"#000\"\nsuccess = \"#39a85a\"\n");
    let seeds = r.seeds.expect("both seeds present");
    assert_eq!(seeds.accent, rgb(0, 0, 0));
    assert_eq!(seeds.success, Some(rgb(0x39, 0xA8, 0x5A)));
}

#[test]
fn an_explicit_role_overrides_the_derived_one_in_either_order() {
    // Whatever a wallpaper derives is only a base: stand one in.
    let derived = light();
    let after = parse(
        "[wallpaper]\nbackground = \"#111016\"\naccent = \"#d3685b\"\n\
         [dark]\nplayhead = \"#6fc7e0\"\n",
    );
    assert!(after.seeds.is_some());
    assert_eq!(themed(derived, Mode::Dark, &after.overrides).playhead, rgb(0x6F, 0xC7, 0xE0));

    let before = parse(
        "[dark]\nplayhead = \"#6fc7e0\"\n\
         [wallpaper]\nbackground = \"#111016\"\naccent = \"#d3685b\"\n",
    );
    assert!(before.seeds.is_some());
    assert_eq!(
        themed(derived, Mode::Dark, &before.overrides).playhead,
        rgb(0x6F, 0xC7, 0xE0),
        "the derivation overwrote a role the user stated outright"
    );
}

#[test]
fn the_theme_paths_are_all_under_one_config_directory() {
    let dir = "/home/someone/.config/offcut";
    let themes = themes_dir(Some(dir)).unwrap();
    let colors = config_path(Some(dir)).unwrap();
    let selected = selection_path(Some(dir)).unwrap();
    assert!(themes.starts_with(dir), "themes dir is outside the config dir");
    assert!(colors.starts_with(dir), "colors.toml is outside the config dir");
    assert_eq!(themes, "/home/someone/.config/offcut/themes");
    assert_eq!(colors, "/home/someone/.config/offcut/colors.toml");
    assert_eq!(selected, "/home/someone/.config/offcut/selected");
    assert_eq!(config_path(None), None);
}

#[test]
fn the_pill_summary_names_a_count_it_cannot_list() {
    assert_eq!(summary(&[]), None);
    let one = summary(&["a".into()]).unwrap();
    assert!(!one.contains("more"));
    let three = summary(&["a".into(), "b".into(), "c".into()]).unwrap();
    assert!(three.contains("2 more issues"), "{three}");
}

#[test]
fn the_pill_summary_is_singular_for_one_more() {
    assert_eq!(summary(&["a".into()]).unwrap(), "Theme: a");
    assert_eq!(summary(&["a".into(), "b".into()]).unwrap(), "Theme: a (and 1 more issue)");
}

#[test]
fn every_kept_override_names_a_real_role() {
    let config = parse("[dark]\naccent = \"#ff0000\"\nacent = \"#00ff00\"\n[light]\nmute_border = \"#123\"\ncanvas = #abcdef\n");
    assert_eq!(config.overrides.len(), 3);
    for o in &config.overrides {
        assert!(o.role < ROLE_COUNT, "override names role {} of {ROLE_COUNT}", o.role);
    }
}

#[test]
fn edit_distance_behaves_as_a_distance() {
    let chars = |s: &str| s.chars().collect::<Vec<char>>();
    let (a, b, empty) = (chars("text_secondry"), chars("text_secondary"), chars(""));
    assert_eq!(offcut_ui::rice::edit_distance(&a, &b), 1);
    assert_eq!(offcut_ui::rice::edit_distance(&b, &a), 1);
    assert_eq!(offcut_ui::rice::edit_distance(&a, &a), 0);
    assert_eq!(offcut_ui::rice::edit_distance(&empty, &b), b.len());
    assert_eq!(offcut_ui::rice::edit_distance(&b, &empty), b.len());
    let (k, s) = (chars("kitten"), chars("sitting"));
    assert_eq!(offcut_ui::rice::edit_distance(&k, &s), 3);
    assert_eq!(offcut_ui::rice::edit_distance(&s, &k), 3);
}

use offcut_ui::shell::{
    clamp_playhead, clamp_selection, elide_middle, keys, nudged, select_clip, step_back,
    step_forward, timecode_from_frames, AdjustField, Chrome, InspectorTab, Platform,
};
use offcut_ui::theme::Mode;
use offcut_ui::time::Time;
use offcut_ui::timeline::clamp_to_timeline;
use offcut_ui::trimbar::fmt_duration;

fn secs(n: f64) -> Time {
    Time::from_nanos((n * 1e9) as u64)
}

/// A 30fps frame, as the model computes it: one thirtieth of a second.
fn frame_30() -> Time {
    Time::from_nanos(1_000_000_000 / 30)
}

#[test]
fn toggle_mode_flips_dark_light() {
    let mut state = Chrome::new();
    assert_eq!(state.mode, Mode::Dark);
    state.toggle_mode(false);
    assert_eq!(state.mode, Mode::Light);
    state.toggle_mode(false);
    assert_eq!(state.mode, Mode::Dark);
}

#[test]
fn toggling_appearance_explains_itself_when_the_theme_has_one_palette() {
    let mut state = Chrome::new();
    state.menu_open = true;
    state.toggle_mode(true);
    assert_eq!(
        state.status.as_deref(),
        Some("This theme sets one palette for both appearances, so light and dark look the same.")
    );
    assert!(!state.menu_open, "the menu dismisses on activation");
}

#[test]
fn toggling_appearance_is_silent_when_the_two_modes_differ() {
    let mut state = Chrome::new();
    state.toggle_mode(false);
    assert_eq!(state.status, None);
}

#[test]
fn every_inspector_tab_can_be_selected() {
    let mut state = Chrome::new();
    assert_eq!(state.tab, InspectorTab::Video);
    for tab in InspectorTab::ALL {
        if state.inspector_open && state.tab == tab {
            state.select_tab(tab);
        }
        state.select_tab(tab);
        assert_eq!(state.tab, tab);
        assert!(state.inspector_open, "selecting a tab must show its panel");
    }
}

#[test]
fn the_inspector_starts_closed_so_the_first_view_is_the_whole_picture() {
    let state = Chrome::new();
    assert!(!state.inspector_open);
}

#[test]
fn pressing_the_open_tab_again_closes_the_panel() {
    let mut state = Chrome::new();
    state.select_tab(InspectorTab::Crop);
    assert!(state.inspector_open);
    state.select_tab(InspectorTab::Crop);
    assert!(!state.inspector_open, "the same tab again must close the panel");
    state.select_tab(InspectorTab::Adjust);
    assert!(state.inspector_open);
    assert_eq!(state.tab, InspectorTab::Adjust);
}

#[test]
fn closing_the_inspector_remembers_which_tab_was_open() {
    let mut state = Chrome::new();
    state.select_tab(InspectorTab::Adjust);
    state.close_inspector();
    assert!(!state.inspector_open);
    assert_eq!(state.tab, InspectorTab::Adjust, "the tab is context, not transient state");
    state.select_tab(InspectorTab::Adjust);
    assert!(state.inspector_open);
}

#[test]
fn escape_closes_the_topmost_plate_first() {
    let mut state = Chrome::new();
    state.inspector_open = true;
    state.shortcuts_open = true;
    state.close_inspector();
    assert!(!state.shortcuts_open, "the sheet closes first");
    assert!(state.inspector_open, "and the panel behind it is untouched");
    state.close_inspector();
    assert!(!state.inspector_open, "a second press reaches the panel");
}

#[test]
fn the_shortcut_reference_toggles_and_dismisses_the_menu() {
    let mut state = Chrome::new();
    state.toggle_menu();
    assert!(state.menu_open);
    state.toggle_shortcuts();
    assert!(state.shortcuts_open, "the reference opens");
    assert!(!state.menu_open, "and the menu that launched it closes behind it");
    state.toggle_shortcuts();
    assert!(!state.shortcuts_open, "the same action closes it again");
}

#[test]
fn dismissing_the_status_clears_it() {
    let mut state = Chrome::new();
    state.toggle_mode(true);
    state.dismiss_status();
    assert_eq!(state.status, None);
    state.toggle_play();
    assert!(state.playing);
}

#[test]
fn stepping_moves_the_playhead_exactly_one_frame() {
    let total = secs(40.0);
    let frame = frame_30();
    let forward = step_forward(Time::zero(), frame, total);
    assert_eq!(forward, frame);
    assert_eq!(step_back(forward, frame), Time::zero());
}

#[test]
fn stepping_back_at_zero_stays_at_zero() {
    assert_eq!(step_back(Time::zero(), frame_30()), Time::zero(), "must not underflow past the start");
}

#[test]
fn stepping_forward_stops_at_the_end_of_the_timeline() {
    let total = secs(40.0);
    assert_eq!(step_forward(total, frame_30(), total), total);
}

#[test]
fn deleting_the_last_clip_moves_the_selection_into_range() {
    // Four clips, the last selected, then one deleted.
    assert_eq!(clamp_selection(Some(3), 3), Some(2), "selection must not dangle past the end");
}

#[test]
fn deleting_every_clip_clears_the_selection_without_panicking() {
    assert_eq!(clamp_selection(Some(0), 0), None);
    assert_eq!(clamp_playhead(secs(12.0), Time::zero()), Time::zero(), "the playhead must not outlive the timeline");
}

#[test]
fn selecting_a_clip_that_does_not_exist_is_ignored() {
    assert_eq!(select_clip(Some(1), 4, 4), Some(1));
    assert_eq!(select_clip(Some(1), 3, 4), Some(3));
}

#[test]
fn nudging_an_adjust_slider_steps_then_wraps_to_zero() {
    let mut value = 0u8;
    for expected in [20u8, 40, 60, 80, 100] {
        value = nudged(value, 20);
        assert_eq!(value, expected);
    }
    value = nudged(value, 20);
    assert_eq!(value, 0, "past the top it wraps, so the key alone can reach every value");
}

#[test]
fn a_nudge_stops_at_the_top_before_wrapping() {
    assert_eq!(nudged(95, 20), 100);
}

#[test]
fn the_adjust_panel_has_exactly_five_sliders_forever() {
    assert_eq!(AdjustField::ALL.len(), 5, "the product rules: five sliders, nothing else, ever");
}

#[test]
fn the_adjust_and_tab_labels_read_as_designed() {
    let labels: Vec<&str> = AdjustField::ALL.iter().map(|f| f.label()).collect();
    assert_eq!(labels, vec!["Smooth", "Tint", "Skin tone", "Blue tone", "Vignette"]);
    let tabs: Vec<&str> = InspectorTab::ALL.iter().map(|t| t.label()).collect();
    assert_eq!(tabs, vec!["Video", "Crop", "Adjust"]);
}

#[test]
fn the_shortcut_sheet_names_this_platforms_modifier() {
    for (platform, modifier, other) in
        [(Platform::MacOs, "⌘", "Ctrl"), (Platform::Other, "Ctrl", "⌘")]
    {
        let k = keys(platform);
        for chord in [k.open, k.export, k.undo, k.redo, k.scale, k.scale_reset] {
            assert!(chord.contains(modifier), "`{chord}` does not name {modifier}");
            assert!(!chord.contains(other), "`{chord}` names {other} on a platform without it");
        }
    }
}

#[test]
fn undo_and_redo_are_spelled_consistently_in_the_sheet() {
    for (platform, modifier) in [(Platform::MacOs, "⌘"), (Platform::Other, "Ctrl")] {
        let k = keys(platform);
        assert!(
            k.redo.contains(k.undo.trim()) || k.redo.ends_with('Z'),
            "redo `{}` is not undo `{}` plus a modifier",
            k.redo,
            k.undo
        );
        assert!(k.undo.contains(modifier));
        assert!(k.redo.contains(modifier), "redo dropped the primary modifier");
        assert!(k.redo.contains('⇧'), "redo does not show that it needs Shift");
    }
}

#[test]
fn a_long_filename_is_shortened_from_the_middle_keeping_the_extension() {
    let long = "screen-recording-2026-03-14-at-11.42.08-final-v2.mov";
    let short = elide_middle(long);
    assert!(short.chars().count() <= 30, "{short} is still {} chars", short.chars().count());
    assert!(short.starts_with("screen-recordi"), "the start is gone: {short}");
    assert!(short.ends_with(".mov"), "the extension is gone: {short}");
    assert!(short.contains('…'), "truncated without saying so: {short}");
}

#[test]
fn a_short_filename_is_left_untouched() {
    assert_eq!(elide_middle("clip.mp4"), "clip.mp4");
}

#[test]
fn eliding_a_non_ascii_filename_does_not_panic() {
    let name = "aufnahme-über-den-dächern-von-münchen-final.mov";
    let short = elide_middle(name);
    assert!(short.ends_with(".mov"));
    assert!(short.chars().count() <= 30);
}

#[test]
fn fmt_timecode_at_30fps_matches_the_design_reference() {
    // The design system's reference render shows `00:00:14:07` at 30fps.
    assert_eq!(timecode_from_frames(14 * 30 + 7, 30), "00:00:14:07");
}

#[test]
fn fmt_timecode_formats_over_an_hour_correctly() {
    assert_eq!(timecode_from_frames(3661 * 30 + 15, 30), "01:01:01:15");
}

#[test]
fn the_export_clock_and_the_trim_readout_agree_on_an_hour() {
    let hour_plus = Time::from_nanos(3_661_000_000_000);
    assert_eq!(fmt_duration(hour_plus), "1:01:01");
}

#[test]
fn the_hamburger_toggles_both_ways() {
    let mut chrome = Chrome::new();
    assert!(!chrome.menu_open, "the menu starts closed");
    chrome.toggle_menu();
    assert!(chrome.menu_open);
    chrome.toggle_menu();
    assert!(!chrome.menu_open);
}

#[test]
fn appearance_still_switches_from_the_menu() {
    let mut chrome = Chrome::new();
    assert_eq!(chrome.mode, Mode::Dark, "Offcut opens dark, like GNOME's media viewers");
    chrome.toggle_menu();
    chrome.toggle_mode(false);
    assert_eq!(chrome.mode, Mode::Light);
    assert!(!chrome.menu_open, "the menu dismisses once an item is activated");
}

#[test]
fn scrubbing_past_the_end_clamps_to_the_timeline_duration() {
    // The four-clip project runs 40 seconds.
    let total = Time::from_nanos(40_000_000_000);
    assert_eq!(clamp_to_timeline(Time::from_nanos(999_000_000_000), total), total);
}

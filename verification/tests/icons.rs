use offcut_ui::icons::{Icon, CONTROL_PX, INSPECTOR_PX};

const ALL: [Icon; 21] = Icon::ALL;

#[test]
fn every_icon_produces_a_well_formed_svg_document() {
    for which in ALL {
        let source = which.svg_source();
        assert!(source.starts_with("<svg "), "{which:?} is not an svg document");
        assert!(source.ends_with("</svg>"), "{which:?} is not closed");
        assert!(source.contains(r#"viewBox="0 0 24 24""#), "{which:?} lost its viewbox");
        assert!(
            source.matches("<path").count() + source.matches("<circle").count() > 0,
            "{which:?} has no drawn geometry"
        );
    }
}

#[test]
fn no_icon_sets_the_same_attribute_twice_on_one_element() {
    for which in ALL {
        for element in which.svg_source().split('<').skip(1) {
            let Some(tag) = element.split('>').next() else { continue };
            for attribute in ["stroke-width", "d", "fill", "stroke"] {
                let hits = tag.matches(&format!("{attribute}=")).count();
                assert!(
                    hits <= 1,
                    "{which:?} repeats `{attribute}` on one element, which is invalid \
                     SVG and renders as nothing: {tag}"
                );
            }
        }
    }
}

#[test]
fn no_icon_hardcodes_a_color() {
    for which in ALL {
        let source = which.svg_source();
        assert!(source.contains("currentColor"), "{which:?} does not use currentColor");
        assert!(!source.contains('#'), "{which:?} hardcodes a hex color");
    }
}

#[test]
fn stroke_weights_stay_within_the_documented_range() {
    for which in ALL {
        let source = which.svg_source();
        if source.contains("stroke-width") {
            assert!(
                source.contains(r#"stroke-width="1.7""#)
                    || source.contains(r#"stroke-width="1.9""#)
                    || source.contains(r#"stroke-width="2.4""#),
                "{which:?} uses an undocumented stroke width"
            );
        }
    }
}

#[test]
fn icon_sizes_match_the_design_system() {
    // The design system: "16px in controls and 18px in inspector rows."
    assert_eq!(CONTROL_PX, 16);
    assert_eq!(INSPECTOR_PX, 18);
}

#[test]
fn every_icon_variant_is_distinct_in_both_identity_and_artwork() {
    assert_eq!(ALL.len(), 21, "update this list when adding an icon");
    for (i, a) in ALL.iter().enumerate() {
        for b in &ALL[i + 1..] {
            assert_ne!(a, b, "duplicate variant in the inventory");
            assert_ne!(a.svg_source(), b.svg_source(), "{a:?} and {b:?} would draw the same mark");
        }
    }
}

#[test]
fn zoom_in_has_a_plus_that_zoom_out_does_not() {
    assert!(Icon::ZoomIn.svg_source().contains("M10.5 7.5 V13.5"));
    assert!(!Icon::ZoomOut.svg_source().contains("M10.5 7.5 V13.5"));
}

#[test]
fn the_two_speaker_states_are_visually_distinguishable() {
    let on = Icon::SpeakerOn.svg_source();
    let off = Icon::SpeakerOff.svg_source();
    assert!(on.contains('C'), "SpeakerOn should have curved wave paths");
    assert_ne!(on, off);
}

#[test]
fn the_play_icon_is_an_exact_filled_triangle() {
    assert_eq!(
        Icon::Play.svg_source(),
        r#"<svg xmlns="http://www.w3.org/2000/svg" viewBox="0 0 24 24" width="24" height="24"><path d="M8 5 L19 12 L8 19 Z" fill="currentColor"/></svg>"#
    );
}

#[test]
fn the_pause_icon_uses_its_own_heavier_stroke_once() {
    let pause = Icon::Pause.svg_source();
    assert!(pause.contains(r#"stroke-width="2.4""#));
    assert_eq!(pause.matches("stroke-width").count(), 1);
}

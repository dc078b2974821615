use offcut_ui::theme::Mode;
use offcut_ui::timeline::Interaction;
use offcut_ui::trimbar::Grabbed;

#[test]
fn mode_default_is_dark() {
    assert_eq!(Mode::default(), Mode::Dark);
}

#[test]
fn mode_toggles_both_ways() {
    assert_eq!(Mode::Dark.toggled(), Mode::Light);
    assert_eq!(Mode::Light.toggled(), Mode::Dark);
}

#[test]
fn pointer_states_start_idle() {
    assert_eq!(Interaction::default(), Interaction::Idle);
    assert_eq!(Grabbed::default(), Grabbed::Nothing);
}

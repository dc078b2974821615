use offcut_ui::catalog::{selected_name, theme_names};

fn strings(names: &[&str]) -> Vec<String> {
    names.iter().map(|n| n.to_string()).collect()
}

#[test]
fn a_selection_naming_a_missing_theme_resolves_to_nothing() {
    // An empty themes directory: any name is missing.
    let available = theme_names(&Vec::new());
    assert!(!available.contains(&"definitely-not-a-real-theme".to_string()));
    assert_eq!(selected_name("definitely-not-a-real-theme", &available), None);
}

#[test]
fn the_seed_marker_is_not_mistaken_for_a_theme() {
    let listed = theme_names(&strings(&[".examples-installed", "nord.toml"]));
    assert_eq!(listed, strings(&["nord"]));
}

#[test]
fn themes_are_listed_by_name_and_sorted() {
    let files = strings(&["tokyo-night.toml", "README.md", "Gruvbox.toml", "nord.toml", "a.b.toml", "notes.toml.bak"]);
    assert_eq!(theme_names(&files), strings(&["Gruvbox", "a.b", "nord", "tokyo-night"]));
}

#[test]
fn a_bare_extension_is_a_hidden_file_not_a_theme() {
    assert_eq!(theme_names(&strings(&[".toml", "..toml", "x.TOML"])), strings(&["."]));
}

#[test]
fn sorting_follows_code_points_and_prefixes_come_first() {
    let files = strings(&["zeta.toml", "é.toml", "Zeta.toml", "ze.toml", "ze.toml"]);
    assert_eq!(theme_names(&files), strings(&["Zeta", "ze", "ze", "zeta", "é"]));
}

#[test]
fn a_recorded_choice_is_read_back_without_its_whitespace() {
    let available = strings(&["nord", "tokyo-night"]);
    assert_eq!(selected_name("  nord\n", &available), Some("nord".to_string()));
    assert_eq!(selected_name("tokyo-night", &available), Some("tokyo-night".to_string()));
    assert_eq!(selected_name(" \n\t", &available), None);
    assert_eq!(selected_name("", &available), None);
    assert_eq!(selected_name("Nord", &available), None);
}

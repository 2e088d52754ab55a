use argus::theme::{names, Theme};

#[test]
fn known_names_resolve() {
    for n in names() {
        let _ = Theme::from_name(n);
    }
}

#[test]
fn unknown_falls_back_to_default() {
    let d = Theme::default_theme();
    let f = Theme::from_name("nonexistent");
    assert_eq!(d.accent, f.accent);
    assert_eq!(d.error, f.error);
}

#[test]
fn aliases_and_case_insensitive() {
    let a = Theme::from_name("Tokyo_Night");
    let b = Theme::from_name("tokyonight");
    assert_eq!(a.accent, b.accent);
}

#[test]
fn named_presets_differ_from_default() {
    assert_ne!(Theme::from_name("nord").accent, Theme::default_theme().accent);
    assert_eq!(Theme::default(), Theme::default_theme());
}

use m3_colors::scheme::{Role, Scheme};
use m3_colors::utils::theme::Theme;

#[test]
fn placeholder_test() {
    let sum = 2 + 2;
    assert_eq!(sum, 4);
}

#[test]
fn theme_source_is_kept() {
    let source = [255, 119, 0, 153];
    let theme = Theme::from_source_color(source);
    assert_eq!(theme.source, source);
}

#[test]
fn theme_schemes_read_back_through_index() {
    let source = [255, 0, 107, 255];
    let theme = Theme::from_source_color(source);
    let light: &Scheme = &theme.schemes.light;
    let dark: &Scheme = &theme.schemes.dark;
    for role in Role::iterator() {
        let l = light.index(&role);
        let d = dark.index(&role);
        assert_eq!(l[0], 255);
        assert_eq!(d[0], 255);
    }
    // shadow and scrim are the neutral palette at tone zero: black
    assert_eq!(light.index(&Role::Shadow), [255, 0, 0, 0]);
    assert_eq!(light.index(&Role::Scrim), [255, 0, 0, 0]);
    assert_eq!(dark.index(&Role::Shadow), [255, 0, 0, 0]);
}

#[test]
fn role_iterator_lists_every_role() {
    let roles = Role::iterator();
    assert_eq!(roles.len(), 29);
    assert!(matches!(roles[0], Role::Primary));
    assert!(matches!(roles[28], Role::InversePrimary));
}

#[test]
fn content_theme_keeps_first_source() {
    let sources = [[255, 10, 20, 30], [255, 1, 2, 3], [255, 4, 5, 6]];
    let theme = Theme::from_source_colors(sources);
    assert_eq!(theme.source, sources[0]);
}

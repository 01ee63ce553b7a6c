use sgui2::{SelectionStyle, Theme};

#[test]
fn theme_values() {
    assert_eq!(Theme::font(), "/usr/share/fonts/liberation/LiberationSans-Regular.ttf");
    assert_eq!(Theme::bg_tabs(), (50, 50, 50));
    assert_eq!(Theme::bg_widgets(), (30, 30, 30));
    assert_eq!(Theme::fg_widgets(), (250, 250, 250));
    assert_eq!(Theme::selection_style(), SelectionStyle::Outline(200, 200, 200));
    assert_eq!(Theme::padding(), 20);
    assert_eq!(Theme::idle_timeout(), 2_000_000_000);
    assert_eq!(Theme::current().padding, 20);
}

use sgui2::Focus;

fn level(f: Focus) -> u8 {
    match f {
        Focus::TabBar => 0,
        Focus::Widgets => 1,
        Focus::WidgetSingle => 2,
    }
}

#[test]
fn bump_down_then_up_never_deeper() {
    for f in [Focus::TabBar, Focus::Widgets, Focus::WidgetSingle] {
        let mut g = f;
        g.bump_down();
        g.bump_up();
        assert!(level(g) <= level(f));
    }
}

#[test]
fn bump_up_from_tab_bar_stays() {
    let mut f = Focus::TabBar;
    f.bump_up();
    assert_eq!(f, Focus::TabBar);
    f.bump_up();
    assert_eq!(f, Focus::TabBar);
}

#[test]
fn bump_down_sequence() {
    let mut f = Focus::TabBar;
    f.bump_down();
    assert_eq!(f, Focus::Widgets);
    f.bump_down();
    assert_eq!(f, Focus::WidgetSingle);
    f.bump_down();
    assert_eq!(f, Focus::Widgets);
}

#[test]
fn bump_up_sequence() {
    let mut f = Focus::WidgetSingle;
    f.bump_up();
    assert_eq!(f, Focus::Widgets);
    f.bump_up();
    assert_eq!(f, Focus::TabBar);
}

use sgui2::widget::TIMER_NEVER;
use sgui2::{ActionKey, Decoration, Rect, Widget, WidgetState};

fn widget(state: WidgetState) -> Widget {
    Widget::new(80, 20, state, 0)
}

#[test]
fn slider_right_three_times_from_200() {
    let mut w = widget(WidgetState::Slider(200, 200));
    let mut fired = 0;
    for _ in 0..3 {
        if w.process_action(&ActionKey::Right) {
            fired += 1;
        }
    }
    assert_eq!(fired, 3);
    assert_eq!(w.state, WidgetState::Slider(236, 200));
    assert!(w.process_action(&ActionKey::Right));
    assert!(w.process_action(&ActionKey::Right));
    assert_eq!(w.state, WidgetState::Slider(255, 200));
    assert!(w.process_action(&ActionKey::Right));
    assert_eq!(w.state, WidgetState::Slider(255, 200));
}

#[test]
fn slider_left_saturates_at_zero() {
    let mut w = widget(WidgetState::Slider(5, 5));
    assert!(w.process_action(&ActionKey::Left));
    assert_eq!(w.state, WidgetState::Slider(0, 5));
}

#[test]
fn slider_ignores_other_actions() {
    let mut w = widget(WidgetState::Slider(100, 100));
    for a in [ActionKey::Press, ActionKey::Up, ActionKey::Down, ActionKey::Back, ActionKey::NoAction] {
        assert!(!w.process_action(&a));
    }
    assert_eq!(w.state, WidgetState::Slider(100, 100));
}

#[test]
fn toggle_press_flips_and_fires() {
    let mut w = widget(WidgetState::Toggle(false, 0));
    assert!(w.process_action(&ActionKey::Press));
    assert_eq!(w.state, WidgetState::Toggle(true, 0));
    assert!(!w.process_action(&ActionKey::Left));
    assert_eq!(w.state, WidgetState::Toggle(true, 0));
}

#[test]
fn button_press_fires_only() {
    let mut w = widget(WidgetState::Button);
    assert!(w.process_action(&ActionKey::Press));
    assert!(!w.process_action(&ActionKey::Right));
    assert_eq!(w.state, WidgetState::Button);
}

#[test]
fn grabs_input_only_for_slider() {
    assert!(widget(WidgetState::Slider(0, 0)).grabs_input());
    assert!(!widget(WidgetState::Toggle(true, 255)).grabs_input());
    assert!(!widget(WidgetState::Button).grabs_input());
}

#[test]
fn timer_fires_once_and_disarms() {
    let mut w = Widget::new(80, 20, WidgetState::Slider(1, 1), 100);
    assert!(!w.poll_timer(100));
    assert!(w.poll_timer(101));
    assert_eq!(w.next_callback, TIMER_NEVER);
    assert!(!w.poll_timer(u64::MAX));
}

#[test]
fn button_has_no_timer() {
    let mut w = widget(WidgetState::Button);
    assert!(!w.uses_timer());
    assert!(!w.poll_timer(1000));
    assert_eq!(w.next_callback, 0);
}

#[test]
fn toggle_draw_step_animates_and_places_box() {
    let mut w = widget(WidgetState::Toggle(true, 0));
    let d = w.draw_step(1000, 40);
    assert_eq!(w.state, WidgetState::Toggle(true, 63));
    assert_eq!(d, Decoration::Toggle { frame: Rect::new(960, 10, 20, 20), opacity: 63 });
}

#[test]
fn slider_draw_step_geometry() {
    let mut w = widget(WidgetState::Slider(100, 100));
    let d = w.draw_step(1536, 20);
    assert_eq!(
        d,
        Decoration::Slider { frame: Rect::new(778, 5, 748, 10), fill: Rect::new(778, 5, 293, 10) }
    );
}

#[test]
fn slider_label_wider_than_row_does_not_underflow() {
    let mut w = Widget::new(500, 20, WidgetState::Slider(255, 0), 0);
    let d = w.draw_step(300, 20);
    assert_eq!(w.state, WidgetState::Slider(255, 63));
    match d {
        Decoration::Slider { frame, fill } => {
            assert_eq!(frame.w, 1);
            assert_eq!(fill.w, 1);
        }
        _ => panic!("slider expected"),
    }
}

#[test]
fn rect_new_clamps() {
    let r = Rect::new(i32::MAX, i32::MIN, 0, u32::MAX);
    assert_eq!(r, Rect { x: 1073741823, y: -1073741824, w: 1, h: 1073741823 });
    assert_eq!(Rect::new(1, 2, 3, 4).bottom(), 6);
}

use glui::id::INVALID_ID;
use glui::{
    make_id, ButtonState, Glui, GluiFrame, GluiState, Id, Key, KeyEvent, KeyHandler, Modifiers,
    Point, Rect,
};

struct Keep;

impl KeyHandler for Keep {
    fn keeps_default(&self, _event: KeyEvent) -> bool {
        true
    }

    fn handled(&self, _event: KeyEvent) -> Keep {
        Keep
    }

    fn handle_key(&mut self, _event: &KeyEvent) -> bool {
        true
    }
}

struct Swallow;

impl KeyHandler for Swallow {
    fn keeps_default(&self, _event: KeyEvent) -> bool {
        false
    }

    fn handled(&self, _event: KeyEvent) -> Swallow {
        Swallow
    }

    fn handle_key(&mut self, _event: &KeyEvent) -> bool {
        false
    }
}

fn tab(modifiers: Modifiers) -> KeyEvent {
    KeyEvent { key: Key::Tab, modifiers, state: ButtonState::Pressed }
}

fn region() -> Rect {
    Rect { x: 10, y: 10, w: 100, h: 20 }
}

fn click_frame(glui: Glui, id: Id) -> (bool, Glui) {
    let mut frame = GluiFrame::begin(glui);
    let clicked = frame.clickable_widget(id, region());
    (clicked, frame.end())
}

#[test]
fn click_completes_on_release_only() {
    let w = make_id(1, 1);
    let mut glui = Glui::new();
    glui.uistate.mouse_pos = Point { x: 20, y: 15 };
    let (c0, g) = click_frame(glui, w);
    assert!(!c0);
    let mut glui = g;
    glui.uistate.mouse_left = ButtonState::Pressed;
    let (c1, g) = click_frame(glui, w);
    assert!(!c1);
    assert!(g.uistate.is_active(w));
    let (c2, g) = click_frame(g, w);
    assert!(!c2);
    let mut glui = g;
    glui.uistate.mouse_left = ButtonState::Released;
    let (c3, g) = click_frame(glui, w);
    assert!(c3);
    assert_eq!(g.uistate.active_widget, None);
    let (c4, _) = click_frame(g, w);
    assert!(!c4);
}

#[test]
fn click_needs_release_inside_region() {
    let w = make_id(1, 1);
    let mut glui = Glui::new();
    glui.uistate.mouse_pos = Point { x: 20, y: 15 };
    glui.uistate.mouse_left = ButtonState::Pressed;
    let (_, mut glui) = click_frame(glui, w);
    glui.uistate.mouse_pos = Point { x: 500, y: 500 };
    let (dragged, mut glui) = click_frame(glui, w);
    assert!(!dragged);
    assert!(glui.uistate.is_active(w));
    assert!(!glui.uistate.is_hover(w));
    glui.uistate.mouse_left = ButtonState::Released;
    let (released_outside, _) = click_frame(glui, w);
    assert!(!released_outside);
}

#[test]
fn first_declared_widget_keeps_activity() {
    let a = make_id(1, 1);
    let b = make_id(2, 1);
    let mut glui = Glui::new();
    glui.uistate.mouse_pos = Point { x: 20, y: 15 };
    glui.uistate.mouse_left = ButtonState::Pressed;
    for _ in 0..3 {
        let mut frame = GluiFrame::begin(glui);
        frame.clickable_widget(a, region());
        frame.clickable_widget(b, Rect { x: 0, y: 0, w: 50, h: 50 });
        assert!(frame.uistate().is_active(a));
        assert!(!frame.uistate().is_active(b));
        glui = frame.end();
        assert!(glui.uistate.is_active(a));
        assert!(!glui.uistate.is_active(b));
    }
}

#[test]
fn press_over_nothing_pins_invalid() {
    let a = make_id(1, 1);
    let mut glui = Glui::new();
    glui.uistate.mouse_pos = Point { x: 500, y: 500 };
    glui.uistate.mouse_left = ButtonState::Pressed;
    let (_, mut glui) = click_frame(glui, a);
    assert_eq!(glui.uistate.active_widget, Some(Id(INVALID_ID)));
    assert!(!glui.uistate.is_active(a));
    // Moving onto the widget with the button held does not make it active.
    glui.uistate.mouse_pos = Point { x: 20, y: 15 };
    let (_, glui) = click_frame(glui, a);
    assert!(!glui.uistate.is_active(a));
    assert!(glui.uistate.is_active(Id::invalid()));
}

#[test]
fn state_end_reconciles() {
    let mut s = GluiState::new();
    s.mouse_left = ButtonState::Pressed;
    s.text_input.push('x');
    s.key_input.push_back(tab(Modifiers::none()));
    s.focus_widget = Some(make_id(3, 3));
    s.begin();
    s.end();
    assert_eq!(s.active_widget, Some(Id::invalid()));
    assert_eq!(s.focus_widget, None);
    assert!(s.key_input.is_empty());
    assert!(s.text_input.is_empty());
    s.mouse_left = ButtonState::Released;
    s.end();
    assert_eq!(s.active_widget, None);
}

#[test]
fn unconsumed_key_input_drops_focus() {
    let a = make_id(1, 1);
    let mut glui = Glui::new();
    let mut frame = GluiFrame::begin(glui);
    assert!(frame.focusable_widget(a, false, &mut Keep));
    glui = frame.end();
    assert!(glui.uistate.has_focus(a));
    glui.uistate.key_input.push_back(KeyEvent {
        key: Key::Other(65),
        modifiers: Modifiers::none(),
        state: ButtonState::Pressed,
    });
    // The focused widget is not declared in this frame.
    let frame = GluiFrame::begin(glui);
    glui = frame.end();
    assert_eq!(glui.uistate.focus_widget, None);
    assert!(!glui.uistate.has_focus(a));
}

fn two_focusables(glui: Glui, a: Id, b: Id) -> (bool, bool, Glui) {
    let mut frame = GluiFrame::begin(glui);
    let fa = frame.focusable_widget(a, false, &mut Keep);
    let fb = frame.focusable_widget(b, false, &mut Keep);
    (fa, fb, frame.end())
}

#[test]
fn tab_moves_focus_away() {
    let a = make_id(1, 1);
    let b = make_id(2, 1);
    let (fa, fb, mut glui) = two_focusables(Glui::new(), a, b);
    assert!(fa && !fb);
    glui.uistate.key_input.push_back(tab(Modifiers::none()));
    let mut frame = GluiFrame::begin(glui);
    assert!(!frame.focusable_widget(a, false, &mut Keep));
    glui = frame.end();
    assert_eq!(glui.uistate.focus_widget, None);
    // The next frame's first focusable widget claims it.
    let (fa, fb, glui) = two_focusables(glui, b, a);
    assert!(fa && !fb);
    assert!(glui.uistate.has_focus(b));
}

#[test]
fn shift_tab_focuses_previous_widget() {
    let a = make_id(1, 1);
    let b = make_id(2, 1);
    let mut glui = Glui::new();
    glui.uistate.focus_widget = Some(b);
    glui.uistate.key_input.push_back(tab(Modifiers::shift_only()));
    let (fa, fb, glui) = two_focusables(glui, a, b);
    assert!(!fa && !fb);
    assert!(glui.uistate.has_focus(a));
}

#[test]
fn handler_can_suppress_tab() {
    let a = make_id(1, 1);
    let mut glui = Glui::new();
    glui.uistate.focus_widget = Some(a);
    glui.uistate.key_input.push_back(tab(Modifiers::none()));
    let mut frame = GluiFrame::begin(glui);
    assert!(frame.focusable_widget(a, false, &mut Swallow));
    glui = frame.end();
    assert!(glui.uistate.has_focus(a));
}

#[test]
fn tab_with_other_modifiers_keeps_focus() {
    let a = make_id(1, 1);
    let mut glui = Glui::new();
    glui.uistate.focus_widget = Some(a);
    glui.uistate.key_input.push_back(tab(Modifiers { shift: false, ctrl: true, alt: false, logo: false }));
    let mut frame = GluiFrame::begin(glui);
    assert!(frame.focusable_widget(a, false, &mut Keep));
    glui = frame.end();
    assert!(glui.uistate.has_focus(a));
}

#[test]
fn assume_focus_takes_focus() {
    let a = make_id(1, 1);
    let b = make_id(2, 1);
    let mut glui = Glui::new();
    glui.uistate.focus_widget = Some(a);
    let mut frame = GluiFrame::begin(glui);
    assert!(frame.focusable_widget(b, true, &mut Keep));
    assert_eq!(frame.uistate().last_focusable_widget, Some(b));
}

#[test]
fn frame_flags() {
    let mut glui = Glui::new();
    glui.uistate.window_close = true;
    let mut frame = GluiFrame::begin(glui);
    assert!(!frame.requested_redraw());
    assert!(frame.requested_close());
    frame.invalidate();
    assert!(frame.requested_redraw());
    assert_eq!(frame.style().font_size, 16);
}

#[test]
fn key_event_without_key_is_dropped() {
    assert_eq!(KeyEvent::from_input(None, Modifiers::none(), ButtonState::Pressed), None);
    assert_eq!(
        KeyEvent::from_input(Some(Key::Left), Modifiers::shift_only(), ButtonState::Released),
        Some(KeyEvent { key: Key::Left, modifiers: Modifiers::shift_only(), state: ButtonState::Released })
    );
}

#[test]
fn button_state_is_pressed() {
    assert!(ButtonState::Pressed.is_pressed());
    assert!(!ButtonState::Released.is_pressed());
}

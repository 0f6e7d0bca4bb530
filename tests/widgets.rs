use glui::{
    make_id, Button, ButtonState, Color, DrawCommand, Glui, GluiFrame, Key, KeyEvent, Modifiers,
    Point, ProgressBar, Rect, Style, TextBox, TextBoxState,
};

fn text_of(state: &TextBoxState) -> String {
    state.to_string()
}

#[test]
fn text_box_state_editing() {
    let mut s = TextBoxState::new();
    assert_eq!(text_of(&s), "");
    s.insert('a');
    s.insert('c');
    s.left();
    s.insert('b');
    assert_eq!(text_of(&s), "abc");
    s.right();
    s.right();
    s.insert('d');
    assert_eq!(text_of(&s), "abcd");
    s.backspace();
    assert_eq!(text_of(&s), "abc");
    s.left();
    s.left();
    s.delete();
    assert_eq!(text_of(&s), "ac");
    s.left();
    s.left();
    s.backspace();
    assert_eq!(text_of(&s), "ac");
    s.right();
    s.right();
    s.delete();
    assert_eq!(text_of(&s), "ac");
}

#[test]
fn text_box_state_type_text() {
    let mut s = TextBoxState::new();
    let changed = s.type_text(&vec!['h', 'x', '\u{8}', 'i', '\n', '\t', '\r', '!']);
    assert!(changed);
    assert_eq!(text_of(&s), "hi!");
    assert!(!s.type_text(&vec!['\n', '\r']));
    assert_eq!(text_of(&s), "hi!");
}

#[test]
fn input_char_validity() {
    assert!(TextBox::is_input_char_valid('a'));
    assert!(TextBox::is_input_char_valid('\u{8}'));
    assert!(!TextBox::is_input_char_valid('\n'));
    assert!(!TextBox::is_input_char_valid('\r'));
    assert!(!TextBox::is_input_char_valid('\t'));
}

#[test]
fn text_box_takes_typed_text_when_focused() {
    let id = make_id(5, 5);
    let mut state = TextBoxState::new();
    let mut glui = Glui::new();
    glui.uistate.text_input = vec!['a', 'b', 'c'];
    glui.uistate.key_input.push_back(KeyEvent {
        key: Key::Left,
        modifiers: Modifiers::none(),
        state: ButtonState::Pressed,
    });
    let mut frame = GluiFrame::begin(glui);
    let changed = TextBox::new().hint("E-Mail".to_string()).at(10, 122).size(150, 24).reify(
        id,
        &mut frame,
        &mut state,
    );
    assert!(changed);
    assert!(frame.uistate().text_input.is_empty());
    assert_eq!(frame.draw_list.len(), 3);
    assert!(matches!(frame.draw_list[2], DrawCommand::Caret { index: 3, .. }));
    glui = frame.end();
    assert_eq!(text_of(&state), "abc");
    assert!(glui.uistate.has_focus(id));

    // Left moves the cursor before the next typed character lands.
    glui.uistate.key_input.push_back(KeyEvent {
        key: Key::Left,
        modifiers: Modifiers::none(),
        state: ButtonState::Pressed,
    });
    glui.uistate.text_input = vec!['x'];
    let mut frame = GluiFrame::begin(glui);
    assert!(TextBox::new().reify(id, &mut frame, &mut state));
    assert_eq!(text_of(&state), "abxc");
}

#[test]
fn unfocused_text_box_shows_hint() {
    let a = make_id(1, 1);
    let b = make_id(2, 2);
    let mut state = TextBoxState::new();
    let mut glui = Glui::new();
    glui.uistate.focus_widget = Some(a);
    glui.uistate.text_input = vec!['z'];
    let mut frame = GluiFrame::begin(glui);
    let changed = TextBox::new().hint("hint".to_string()).reify(b, &mut frame, &mut state);
    assert!(!changed);
    assert_eq!(text_of(&state), "");
    assert_eq!(frame.draw_list.len(), 3);
    match &frame.draw_list[1] {
        DrawCommand::Text { text, color, left_inset, .. } => {
            assert_eq!(text, "hint");
            assert_eq!(*color, Color { r: 128, g: 128, b: 128 });
            assert_eq!(*left_inset, Some(5));
        }
        _ => panic!("expected the hint"),
    }
    assert_eq!(frame.uistate().text_input, vec!['z']);
}

#[test]
fn button_click_and_fill() {
    let id = make_id(3, 9);
    let mut glui = Glui::new();
    glui.uistate.mouse_pos = Point { x: 15, y: 15 };
    glui.uistate.mouse_left = ButtonState::Pressed;
    let mut frame = GluiFrame::begin(glui);
    let clicked = Button::with_label("Go".to_string()).at(10, 10).size(150, 24).reify(id, &mut frame);
    assert!(!clicked);
    match &frame.draw_list[0] {
        DrawCommand::Panel { fill, border_width, region, .. } => {
            assert_eq!(*fill, Some(Color { r: 230, g: 230, b: 230 }));
            assert_eq!(*border_width, 2);
            assert_eq!(*region, Rect { x: 10, y: 10, w: 150, h: 24 });
        }
        _ => panic!("expected the panel"),
    }
    let mut glui = frame.end();
    glui.uistate.mouse_left = ButtonState::Released;
    let mut frame = GluiFrame::begin(glui);
    let clicked = Button::with_label("Go".to_string())
        .region(Rect { x: 10, y: 10, w: 150, h: 24 })
        .reify(id, &mut frame);
    assert!(clicked);
}

#[test]
fn button_return_activates_when_focused() {
    let id = make_id(3, 9);
    let mut glui = Glui::new();
    glui.uistate.focus_widget = Some(id);
    glui.uistate.key_input.push_back(KeyEvent {
        key: Key::Return,
        modifiers: Modifiers::none(),
        state: ButtonState::Pressed,
    });
    let mut frame = GluiFrame::begin(glui);
    let activated = Button::with_label("Ok".to_string()).reify(id, &mut frame);
    assert!(activated);
    match &frame.draw_list[0] {
        DrawCommand::Panel { fill, .. } => assert_eq!(*fill, Some(Color { r: 255, g: 255, b: 255 })),
        _ => panic!("expected the panel"),
    }
}

#[test]
fn button_hover_fill() {
    let id = make_id(3, 9);
    let mut glui = Glui::new();
    glui.uistate.mouse_pos = Point { x: 0, y: 0 };
    let mut frame = GluiFrame::begin(glui);
    Button::with_label("Ok".to_string()).size(5, 5).reify(id, &mut frame);
    match &frame.draw_list[0] {
        DrawCommand::Panel { fill, .. } => assert_eq!(*fill, Some(Color { r: 240, g: 240, b: 240 })),
        _ => panic!("expected the panel"),
    }
}

#[test]
fn progress_bar_fill_width() {
    let bar = ProgressBar::new().size(150, 24);
    assert_eq!(bar.filled(), 0);
    let bar = bar.progress(50);
    assert_eq!(bar.filled(), 75);
    assert_eq!(ProgressBar::new().size(150, 24).progress(33).filled(), 49);
    assert_eq!(ProgressBar::new().size(150, 24).progress(-20).filled(), 0);
    assert_eq!(ProgressBar::new().size(150, 24).progress(250).filled(), 150);
    assert_eq!(ProgressBar::new().size(-150, 24).progress(33).filled(), -50);
    // Bounds given in reverse order are swapped.
    let bar = ProgressBar::with_label("x".to_string()).range(200, 100).progress(150).size(10, 1);
    assert_eq!((bar.min_value, bar.max_value), (100, 200));
    assert_eq!(bar.filled(), 5);
    // An empty range shows nothing.
    assert_eq!(ProgressBar::new().range(7, 7).progress(7).size(10, 1).filled(), 0);
}

#[test]
fn progress_bar_draws_three_commands() {
    let mut frame = GluiFrame::begin(Glui::new());
    ProgressBar::new().label("50%".to_string()).progress(50).at(10, 94).size(150, 24).reify(&mut frame);
    assert_eq!(frame.draw_list.len(), 3);
    match &frame.draw_list[0] {
        DrawCommand::Panel { clip_width, region, .. } => {
            assert_eq!(*clip_width, Some(75));
            assert_eq!(*region, Rect { x: 10, y: 94, w: 150, h: 24 });
        }
        _ => panic!("expected the fill"),
    }
}

#[test]
fn style_defaults() {
    let s = Style::default();
    assert_eq!(s.font_size, 16);
    assert_eq!(s.font_name, "default");
    assert_eq!(s.clickable_normal, Color::from_rgb(255, 255, 255));
    assert_eq!(s.widget_border.radius, 3);
}

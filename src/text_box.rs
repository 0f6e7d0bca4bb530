use vstd::prelude::*;

use crate::frame::{
    active_after_click, click_completed, focus_after_keys, focus_claimed, handled_all,
    hover_after_click, DrawCommand, GluiFrame, KeyHandler,
};
use crate::geometry::Rect;
use crate::id::Id;
use crate::state::{ButtonState, Key, KeyEvent};

verus! {

/// Relies on `String::push`: appends one character to the string.
#[verifier::external_body]
fn push_char(s: &mut String, c: char)
    ensures
        final(s)@ == old(s)@.push(c),
{
    s.push(c)
}

/// The editable content of a text box and its cursor, which stands between
/// two characters (or at either end).
pub struct TextBoxState {
    text: Vec<char>,
    cursor: usize,
}

impl TextBoxState {
    pub closed spec fn text(&self) -> Seq<char> {
        self.text@
    }

    pub closed spec fn cursor(&self) -> usize {
        self.cursor
    }

    /// The cursor never passes the end of the text.
    pub closed spec fn wf(&self) -> bool {
        self.cursor <= self.text@.len()
    }

    pub fn new() -> (r: TextBoxState)
        ensures
            r.wf(),
            r.text() == Seq::<char>::empty(),
            r.cursor() == 0,
    {
        TextBoxState { text: Vec::new(), cursor: 0 }
    }

    /// Number of characters in the text.
    pub fn len(&self) -> (r: usize)
        ensures
            r == self.text().len(),
    {
        self.text.len()
    }

    pub fn to_string(&self) -> (r: String)
        ensures
            r@ == self.text(),
    {
        let mut s = String::new();
        let mut i: usize = 0;
        while i < self.text.len()
            invariant
                i <= self.text@.len(),
                s@ == self.text@.subrange(0, i as int),
            decreases self.text@.len() - i,
        {
            push_char(&mut s, self.text[i]);
            assert(self.text@.subrange(0, i + 1) == self.text@.subrange(0, i as int).push(self.text@[i as int]));
            i = i + 1;
        }
        assert(self.text@.subrange(0, i as int) == self.text@);
        s
    }

    /// Removes the character before the cursor.
    pub fn backspace(&mut self)
        requires
            old(self).wf(),
        ensures
            final(self).wf(),
            final(self).text().len() <= old(self).text().len(),
            old(self).cursor() > 0 ==> {
                &&& final(self).text() == old(self).text().remove(old(self).cursor() - 1)
                &&& final(self).cursor() == old(self).cursor() - 1
            },
            old(self).cursor() == 0 ==> final(self).text() == old(self).text() && final(self).cursor() == 0,
    {
        if self.cursor > 0 && self.cursor <= self.text.len() {
            self.text.remove(self.cursor - 1);
            self.cursor = self.cursor - 1;
        }
    }

    /// Removes the character after the cursor.
    pub fn delete(&mut self)
        requires
            old(self).wf(),
        ensures
            final(self).wf(),
            final(self).cursor() == old(self).cursor(),
            final(self).text() == if old(self).cursor() < old(self).text().len() {
                old(self).text().remove(old(self).cursor() as int)
            } else {
                old(self).text()
            },
    {
        if self.cursor < self.text.len() {
            self.text.remove(self.cursor);
        }
    }

    /// Inserts a character at the cursor and moves the cursor past it.
    pub fn insert(&mut self, ch: char)
        requires
            old(self).wf(),
            old(self).text().len() < usize::MAX,
        ensures
            final(self).wf(),
            final(self).text() == old(self).text().insert(old(self).cursor() as int, ch),
            final(self).cursor() == old(self).cursor() + 1,
            final(self).text().len() == old(self).text().len() + 1,
    {
        self.text.insert(self.cursor, ch);
        self.cursor = self.cursor + 1;
    }

    /// Applies typed characters in order (see `type_chars`) and reports whether
    /// any of them was accepted.
    pub fn type_text(&mut self, chars: &Vec<char>) -> (changed: bool)
        requires
            old(self).wf(),
            old(self).text().len() + chars@.len() < usize::MAX,
        ensures
            final(self).wf(),
            (final(self).text(), final(self).cursor() as int) == type_chars(
                old(self).text(),
                old(self).cursor() as int,
                chars@,
            ),
            changed == exists|i: int| 0 <= i < chars@.len() && is_input_char_valid_spec(#[trigger] chars@[i]),
    {
        let mut changed = false;
        let mut i: usize = 0;
        assert(chars@.subrange(0, chars@.len() as int) == chars@);
        while i < chars.len()
            invariant
                self.wf(),
                i <= chars@.len(),
                self.text@.len() <= old(self).text().len() + i,
                old(self).text().len() + chars@.len() < usize::MAX,
                type_chars(self.text@, self.cursor as int, chars@.subrange(i as int, chars@.len() as int))
                    == type_chars(old(self).text(), old(self).cursor() as int, chars@),
                changed == exists|j: int| 0 <= j < i && is_input_char_valid_spec(#[trigger] chars@[j]),
            decreases chars@.len() - i,
        {
            let ch = chars[i];
            let ghost rest = chars@.subrange(i as int, chars@.len() as int);
            assert(rest.drop_first() == chars@.subrange(i + 1, chars@.len() as int));
            assert(rest[0] == ch);
            if ch == BACKSPACE {
                self.backspace();
                changed = true;
            } else if TextBox::is_input_char_valid(ch) {
                self.insert(ch);
                changed = true;
            }
            assert(changed == exists|j: int| 0 <= j < i + 1 && is_input_char_valid_spec(#[trigger] chars@[j])) by {
                if is_input_char_valid_spec(ch) {
                    assert(is_input_char_valid_spec(chars@[i as int]));
                }
            }
            i = i + 1;
        }
        changed
    }

    /// Moves the cursor one character to the left, if it can.
    pub fn left(&mut self)
        requires
            old(self).wf(),
        ensures
            final(self).wf(),
            final(self).text() == old(self).text(),
            final(self).cursor() == if old(self).cursor() > 0 {
                (old(self).cursor() - 1) as usize
            } else {
                0
            },
    {
        if self.cursor > 0 {
            self.cursor = self.cursor - 1;
        }
    }

    /// Moves the cursor one character to the right, if it can.
    pub fn right(&mut self)
        requires
            old(self).wf(),
        ensures
            final(self).wf(),
            final(self).text() == old(self).text(),
            final(self).cursor() == if old(self).cursor() < old(self).text().len() {
                (old(self).cursor() + 1) as usize
            } else {
                old(self).cursor()
            },
    {
        if self.cursor < self.text.len() {
            self.cursor = self.cursor + 1;
        }
    }
}

/// Characters a text box accepts as typed text (line breaks and tabs are not).
pub open spec fn is_input_char_valid_spec(ch: char) -> bool {
    !(ch == '\r' || ch == '\n' || ch == '\t')
}

/// Distance in pixels between a text box's left edge and its text.
pub const TEXT_INSET: i32 = 5;

/// The backspace character.
pub const BACKSPACE: char = '\u{8}';

/// Text and cursor after one typed character: backspace removes the character
/// before the cursor, a valid character is inserted, others are ignored.
pub open spec fn type_char(text: Seq<char>, cursor: int, ch: char) -> (Seq<char>, int) {
    if ch == BACKSPACE {
        if cursor > 0 {
            (text.remove(cursor - 1), cursor - 1)
        } else {
            (text, cursor)
        }
    } else if is_input_char_valid_spec(ch) {
        (text.insert(cursor, ch), cursor + 1)
    } else {
        (text, cursor)
    }
}

/// Text and cursor after the characters are typed in order.
pub open spec fn type_chars(text: Seq<char>, cursor: int, chars: Seq<char>) -> (Seq<char>, int)
    decreases chars.len(),
{
    if chars.len() == 0 {
        (text, cursor)
    } else {
        let next = type_char(text, cursor, chars[0]);
        type_chars(next.0, next.1, chars.drop_first())
    }
}

/// Whether `event` moves the cursor: a press of Left or Right.
pub open spec fn cursor_after_key(len: usize, cursor: usize, event: KeyEvent) -> usize {
    if event.state == ButtonState::Pressed && event.key == Key::Left && cursor > 0 {
        (cursor - 1) as usize
    } else if event.state == ButtonState::Pressed && event.key == Key::Right && cursor < len {
        (cursor + 1) as usize
    } else {
        cursor
    }
}

/// Key handler of a text box: Left and Right move the cursor.
#[derive(Copy, Clone)]
pub struct CursorKeys {
    pub len: usize,
    pub cursor: usize,
}

impl KeyHandler for CursorKeys {
    open spec fn keeps_default(&self, event: KeyEvent) -> bool {
        true
    }

    open spec fn handled(&self, event: KeyEvent) -> CursorKeys {
        CursorKeys { len: self.len, cursor: cursor_after_key(self.len, self.cursor, event) }
    }

    fn handle_key(&mut self, event: &KeyEvent) -> (r: bool) {
        if event.state.is_pressed() {
            match event.key {
                Key::Left => {
                    if self.cursor > 0 {
                        self.cursor = self.cursor - 1;
                    }
                },
                Key::Right => {
                    if self.cursor < self.len {
                        self.cursor = self.cursor + 1;
                    }
                },
                _ => {},
            }
        }
        true
    }
}

/// Moving the cursor by keys keeps it within the text and leaves the length.
proof fn lemma_cursor_keys_bounded(h: CursorKeys, events: Seq<KeyEvent>)
    requires
        h.cursor <= h.len,
    ensures
        handled_all(h, events).cursor <= h.len,
        handled_all(h, events).len == h.len,
    decreases events.len(),
{
    if events.len() > 0 {
        lemma_cursor_keys_bounded(h.handled(events[0]), events.drop_first());
    }
}

/// A single-line text input with a hint shown while it is empty and unfocused.
pub struct TextBox {
    pub hint: String,
    pub region: Rect,
}

impl TextBox {
    pub fn new() -> (r: TextBox)
        ensures
            r.hint@.len() == 0,
            r.region == (Rect { x: 0, y: 0, w: 0, h: 0 }),
    {
        TextBox { hint: String::new(), region: Rect::zero() }
    }

    pub fn hint(self, hint: String) -> (r: TextBox)
        ensures
            r.hint@ == hint@,
            r.region == self.region,
    {
        TextBox { hint, region: self.region }
    }

    pub fn at(self, x: i32, y: i32) -> (r: TextBox)
        ensures
            r.hint@ == self.hint@,
            r.region == (Rect { x, y, ..self.region }),
    {
        TextBox { hint: self.hint, region: Rect { x, y, w: self.region.w, h: self.region.h } }
    }

    pub fn size(self, w: i32, h: i32) -> (r: TextBox)
        ensures
            r.hint@ == self.hint@,
            r.region == (Rect { w, h, ..self.region }),
    {
        TextBox { hint: self.hint, region: Rect { x: self.region.x, y: self.region.y, w, h } }
    }

    pub fn region(self, region: Rect) -> (r: TextBox)
        ensures
            r.hint@ == self.hint@,
            r.region == region,
    {
        TextBox { hint: self.hint, region }
    }

    /// Declares the text box in the frame and draws it. While focused it takes
    /// the queued key events (Left and Right move the cursor) and then the
    /// typed characters. Reports whether a typed character was accepted.
    pub fn reify(self, id: Id, frame: &mut GluiFrame, state: &mut TextBoxState) -> (r: bool)
        requires
            old(state).wf(),
            old(state).text().len() + old(frame).glui.uistate.text_input@.len() < usize::MAX,
        ensures
            final(state).wf(),
            ({
                let s0 = old(frame).glui.uistate;
                let s1 = final(frame).glui.uistate;
                let clicked = click_completed(
                    hover_after_click(s0.hover_widget, s0.mouse_pos, id, self.region),
                    active_after_click(s0.active_widget, s0.mouse_pos, s0.mouse_left, id, self.region),
                    s0.mouse_left,
                    id,
                );
                let claimed = focus_claimed(s0.focus_widget, id, clicked);
                let keys = CursorKeys {
                    len: old(state).text().len() as usize,
                    cursor: old(state).cursor(),
                };
                let moved = if claimed == Some(id) {
                    handled_all(keys, s0.key_input@).cursor
                } else {
                    old(state).cursor()
                };
                let focused = s1.focus_widget == Some(id);
                &&& s1.hover_widget == hover_after_click(s0.hover_widget, s0.mouse_pos, id, self.region)
                &&& s1.active_widget == active_after_click(
                    s0.active_widget,
                    s0.mouse_pos,
                    s0.mouse_left,
                    id,
                    self.region,
                )
                &&& s1.focus_widget == if claimed == Some(id) {
                    focus_after_keys(claimed, s0.last_focusable_widget, s0.key_input@, keys)
                } else {
                    claimed
                }
                &&& s1.last_focusable_widget == Some(id)
                &&& (final(state).text(), final(state).cursor() as int) == if focused {
                    type_chars(old(state).text(), moved as int, s0.text_input@)
                } else {
                    (old(state).text(), moved as int)
                }
                &&& r == (focused && exists|i: int|
                    0 <= i < s0.text_input@.len() && is_input_char_valid_spec(#[trigger] s0.text_input@[i]))
                &&& s1.text_input@ == if focused {
                    Seq::<char>::empty()
                } else {
                    s0.text_input@
                }
                &&& final(frame).draw_list@.len() > old(frame).draw_list@.len()
                &&& final(frame).draw_list@.subrange(0, old(frame).draw_list@.len() as int)
                    == old(frame).draw_list@
                &&& final(frame).draw_list@[old(frame).draw_list@.len() as int] == (DrawCommand::Panel {
                    region: self.region,
                    fill: None,
                    border: old(frame).glui.style.widget_border.color,
                    radius: old(frame).glui.style.widget_border.radius,
                    border_width: 1,
                    clip_width: None,
                })
            }),
            final(frame).keeps_host_and_style(*old(frame)),
    {
        let ghost dl0 = frame.draw_list@;
        let clicked = frame.clickable_widget(id, self.region);
        let mut keys = CursorKeys { len: state.text.len(), cursor: state.cursor };
        let ghost keys0 = keys;
        let ghost pending = frame.glui.uistate.key_input@;
        let focused = frame.focusable_widget(id, clicked, &mut keys);
        proof {
            lemma_cursor_keys_bounded(keys0, pending);
        }
        state.cursor = keys.cursor;
        let mut changed = false;
        if focused {
            changed = state.type_text(&frame.glui.uistate.text_input);
            frame.glui.uistate.text_input.clear();
        }
        let border = frame.glui.style.widget_border;
        let foreground = frame.glui.style.foreground_color;
        let hint_color = frame.glui.style.hint_color;
        frame.draw(
            DrawCommand::Panel {
                region: self.region,
                fill: None,
                border: border.color,
                radius: border.radius,
                border_width: 1,
                clip_width: None,
            },
        );
        if !focused && state.text.len() == 0 {
            frame.draw(
                DrawCommand::Text {
                    text: self.hint,
                    region: self.region,
                    color: hint_color,
                    left_inset: Some(TEXT_INSET),
                },
            );
        }
        let text = state.to_string();
        if focused {
            frame.draw(
                DrawCommand::Text {
                    text: text.clone(),
                    region: self.region,
                    color: foreground,
                    left_inset: Some(TEXT_INSET),
                },
            );
            frame.draw(
                DrawCommand::Caret {
                    text,
                    region: self.region,
                    index: state.cursor,
                    color: foreground,
                    left_inset: Some(TEXT_INSET),
                },
            );
        } else {
            frame.draw(
                DrawCommand::Text {
                    text,
                    region: self.region,
                    color: foreground,
                    left_inset: Some(TEXT_INSET),
                },
            );
        }
        assert(frame.draw_list@.subrange(0, dl0.len() as int) =~= dl0);
        changed
    }

    pub fn is_input_char_valid(ch: char) -> (r: bool)
        ensures
            r == is_input_char_valid_spec(ch),
    {
        !(ch == '\r' || ch == '\n' || ch == '\t')
    }
}

} // verus!

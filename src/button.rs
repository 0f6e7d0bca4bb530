use vstd::prelude::*;

use crate::frame::{
    click_completed, focus_after_keys, focus_claimed, handled_all, DrawCommand, GluiFrame, KeyHandler,
};
use crate::geometry::Rect;
use crate::id::Id;
use crate::state::{ButtonState, GluiState, Key, KeyEvent};
use crate::style::{Color, Style};

verus! {

/// Whether `event` is a press of the Return key.
pub open spec fn is_return_press(event: KeyEvent) -> bool {
    event.key == Key::Return && event.state == ButtonState::Pressed
}

/// Key handler of a button: Return activates it like a click.
#[derive(Copy, Clone)]
pub struct ReturnKeys {
    pub activated: bool,
}

impl KeyHandler for ReturnKeys {
    open spec fn keeps_default(&self, event: KeyEvent) -> bool {
        true
    }

    open spec fn handled(&self, event: KeyEvent) -> ReturnKeys {
        ReturnKeys { activated: self.activated || is_return_press(event) }
    }

    fn handle_key(&mut self, event: &KeyEvent) -> (r: bool) {
        if event.state.is_pressed() && event.key == Key::Return {
            self.activated = true;
        }
        true
    }
}

/// After the events, the handler is activated exactly when it was before or
/// one of them presses Return.
proof fn lemma_return_keys(h: ReturnKeys, events: Seq<KeyEvent>)
    ensures
        handled_all(h, events).activated == (h.activated || exists|i: int|
            0 <= i < events.len() && is_return_press(#[trigger] events[i])),
    decreases events.len(),
{
    if events.len() > 0 {
        let rest = events.drop_first();
        lemma_return_keys(h.handled(events[0]), rest);
        if exists|i: int| 0 <= i < events.len() && is_return_press(#[trigger] events[i]) {
            let i = choose|i: int| 0 <= i < events.len() && is_return_press(#[trigger] events[i]);
            if i > 0 {
                assert(rest[i - 1] == events[i]);
            }
        }
        if exists|i: int| 0 <= i < rest.len() && is_return_press(#[trigger] rest[i]) {
            let i = choose|i: int| 0 <= i < rest.len() && is_return_press(#[trigger] rest[i]);
            assert(events[i + 1] == rest[i]);
        }
    }
}

/// How a clickable widget is filled: pressed (hovered and active), lit
/// (hovered or active) or plain.
pub open spec fn clickable_fill(style: Style, hover: bool, active: bool) -> Color {
    if active && hover {
        style.clickable_active
    } else if active || hover {
        style.clickable_hover
    } else {
        style.clickable_normal
    }
}

/// The outline and fill a button is drawn with.
pub open spec fn button_panel(
    style: Style,
    region: Rect,
    hover: bool,
    active: bool,
    focused: bool,
) -> DrawCommand {
    DrawCommand::Panel {
        region,
        fill: Some(clickable_fill(style, hover, active)),
        border: style.widget_border.color,
        radius: style.widget_border.radius,
        border_width: if focused {
            2
        } else {
            1
        },
        clip_width: None,
    }
}

/// A push button with a centred label.
pub struct Button {
    pub label: String,
    pub region: Rect,
}

impl Button {
    pub fn with_label(label: String) -> (r: Button)
        ensures
            r.label@ == label@,
            r.region == (Rect { x: 0, y: 0, w: 0, h: 0 }),
    {
        Button { label, region: Rect::zero() }
    }

    pub fn at(self, x: i32, y: i32) -> (r: Button)
        ensures
            r.label@ == self.label@,
            r.region == (Rect { x, y, ..self.region }),
    {
        Button { label: self.label, region: Rect { x, y, w: self.region.w, h: self.region.h } }
    }

    pub fn size(self, w: i32, h: i32) -> (r: Button)
        ensures
            r.label@ == self.label@,
            r.region == (Rect { w, h, ..self.region }),
    {
        Button { label: self.label, region: Rect { x: self.region.x, y: self.region.y, w, h } }
    }

    pub fn region(self, region: Rect) -> (r: Button)
        ensures
            r.label@ == self.label@,
            r.region == region,
    {
        Button { label: self.label, region }
    }

    /// Declares the button in the frame and draws it. Reports whether it was
    /// activated: clicked, or, while focused, sent a Return press.
    pub fn reify(self, id: Id, frame: &mut GluiFrame) -> (r: bool)
        ensures
            ({
                let s0 = old(frame).glui.uistate;
                let s1 = final(frame).glui.uistate;
                let clicked = click_completed(
                    crate::frame::hover_after_click(s0.hover_widget, s0.mouse_pos, id, self.region),
                    crate::frame::active_after_click(
                        s0.active_widget,
                        s0.mouse_pos,
                        s0.mouse_left,
                        id,
                        self.region,
                    ),
                    s0.mouse_left,
                    id,
                );
                let claimed = focus_claimed(s0.focus_widget, id, clicked);
                &&& r == (clicked || (claimed == Some(id) && exists|i: int|
                    0 <= i < s0.key_input@.len() && is_return_press(#[trigger] s0.key_input@[i])))
                &&& s1.hover_widget == crate::frame::hover_after_click(
                    s0.hover_widget,
                    s0.mouse_pos,
                    id,
                    self.region,
                )
                &&& s1.active_widget == crate::frame::active_after_click(
                    s0.active_widget,
                    s0.mouse_pos,
                    s0.mouse_left,
                    id,
                    self.region,
                )
                &&& s1.focus_widget == if claimed == Some(id) {
                    focus_after_keys(
                        claimed,
                        s0.last_focusable_widget,
                        s0.key_input@,
                        ReturnKeys { activated: clicked },
                    )
                } else {
                    claimed
                }
                &&& s1.last_focusable_widget == Some(id)
                &&& s1.text_input@ == s0.text_input@
                &&& final(frame).draw_list@.len() == old(frame).draw_list@.len() + 2
                &&& final(frame).draw_list@.subrange(0, old(frame).draw_list@.len() as int)
                    == old(frame).draw_list@
                &&& final(frame).draw_list@[old(frame).draw_list@.len() as int]
                    == button_panel(
                    old(frame).glui.style,
                    self.region,
                    s1.hover_widget == Some(id),
                    s1.active_widget == Some(id),
                    s1.focus_widget == Some(id),
                )
                &&& final(frame).draw_list@[old(frame).draw_list@.len() as int + 1] matches DrawCommand::Text {
                    text,
                    region,
                    color,
                    left_inset: None,
                } && text@ == self.label@ && region == self.region && color
                    == old(frame).glui.style.foreground_color
            }),
            final(frame).keeps_host_and_style(*old(frame)),
    {
        let clicked = frame.clickable_widget(id, self.region);
        let mut keys = ReturnKeys { activated: clicked };
        let ghost pending = frame.glui.uistate.key_input@;
        let focused = frame.focusable_widget(id, clicked, &mut keys);
        proof {
            lemma_return_keys(ReturnKeys { activated: clicked }, pending);
        }
        let state: &GluiState = &frame.glui.uistate;
        let active = state.is_active(id);
        let hover = state.is_hover(id);
        let style: &Style = &frame.glui.style;
        let fill = if active && hover {
            style.clickable_active
        } else if active || hover {
            style.clickable_hover
        } else {
            style.clickable_normal
        };
        let panel = DrawCommand::Panel {
            region: self.region,
            fill: Some(fill),
            border: style.widget_border.color,
            radius: style.widget_border.radius,
            border_width: if focused { 2 } else { 1 },
            clip_width: None,
        };
        let text = DrawCommand::Text {
            text: self.label,
            region: self.region,
            color: style.foreground_color,
            left_inset: None,
        };
        frame.draw(panel);
        frame.draw(text);
        keys.activated
    }
}

} // verus!

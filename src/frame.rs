use vstd::prelude::*;

use crate::geometry::{Point, Rect};
use crate::id::Id;
use crate::state::{active_after_frame, ButtonState, GluiState, Key, KeyEvent, Modifiers};
use crate::style::{Color, Style};

verus! {

/// The whole UI: persistent interaction state and the style widgets use.
pub struct Glui {
    pub uistate: GluiState,
    pub style: Style,
}

impl Glui {
    pub fn new() -> (r: Glui)
        ensures
            r.uistate.mouse_left == ButtonState::Released,
            !r.uistate.window_close,
            r.uistate.text_input@.len() == 0,
            r.uistate.key_input@.len() == 0,
            r.uistate.hover_widget.is_none(),
            r.uistate.active_widget.is_none(),
            r.uistate.focus_widget.is_none(),
            r.uistate.last_focusable_widget.is_none(),
            r.style.font_size == 16,
    {
        Glui { uistate: GluiState::new(), style: Style::default() }
    }
}

/// What a widget asks the rendering backend to draw, in order.
pub enum DrawCommand {
    /// A rounded rectangle, filled if `fill` is given, outlined with
    /// `border_width`; `clip_width` keeps only that many pixels from the left.
    Panel {
        region: Rect,
        fill: Option<Color>,
        border: Color,
        radius: u32,
        border_width: u32,
        clip_width: Option<i32>,
    },
    /// A line of text centred in `region`, or, with `left_inset`, vertically
    /// centred and starting that many pixels right of the region's left edge.
    Text { text: String, region: Rect, color: Color, left_inset: Option<i32> },
    /// A text cursor before glyph `index` of a text laid out as in `Text`.
    Caret { text: String, region: Rect, index: usize, color: Color, left_inset: Option<i32> },
}

/// Handles the key events a focused widget receives.
pub trait KeyHandler: Sized {
    /// Whether the default behaviour (focus navigation) still applies to `event`.
    spec fn keeps_default(&self, event: KeyEvent) -> bool;

    /// The handler after it has seen `event`.
    spec fn handled(&self, event: KeyEvent) -> Self;

    fn handle_key(&mut self, event: &KeyEvent) -> (r: bool)
        ensures
            r == old(self).keeps_default(*event),
            *final(self) == old(self).handled(*event),
    ;
}

/// The handler after it has seen all of `events`, in order.
pub open spec fn handled_all<H: KeyHandler>(h: H, events: Seq<KeyEvent>) -> H
    decreases events.len(),
{
    if events.len() == 0 {
        h
    } else {
        handled_all(h.handled(events[0]), events.drop_first())
    }
}

/// Default handling of one key event: Tab gives up focus, Shift+Tab hands it
/// to the previously declared focusable widget.
pub open spec fn tab_focus(focus: Option<Id>, last: Option<Id>, event: KeyEvent) -> Option<Id> {
    if event.key == Key::Tab && event.state == ButtonState::Pressed {
        if event.modifiers == Modifiers::none_spec() {
            None
        } else if event.modifiers == Modifiers::shift_only_spec() {
            last
        } else {
            focus
        }
    } else {
        focus
    }
}

/// Focus after the events are handled in order by `h`, each one falling back
/// to the default behaviour where the handler (in its state at that moment)
/// asks for it.
pub open spec fn focus_after_keys<H: KeyHandler>(
    focus: Option<Id>,
    last: Option<Id>,
    events: Seq<KeyEvent>,
    h: H,
) -> Option<Id>
    decreases events.len(),
{
    if events.len() == 0 {
        focus
    } else {
        let f = if h.keeps_default(events[0]) {
            tab_focus(focus, last, events[0])
        } else {
            focus
        };
        focus_after_keys(f, last, events.drop_first(), h.handled(events[0]))
    }
}

/// Hover after a clickable widget `id` over `region` was declared.
pub open spec fn hover_after_click(hover: Option<Id>, pos: Point, id: Id, region: Rect) -> Option<
    Id,
> {
    if region.contains_spec(pos) {
        Some(id)
    } else {
        hover
    }
}

/// Activity after a clickable widget `id` over `region` was declared: the
/// widget claims it when the pointer is inside, the button is down and no
/// widget is active.
pub open spec fn active_after_click(
    active: Option<Id>,
    pos: Point,
    button: ButtonState,
    id: Id,
    region: Rect,
) -> Option<Id> {
    if region.contains_spec(pos) && active.is_none() && button == ButtonState::Pressed {
        Some(id)
    } else {
        active
    }
}

/// A click completed on `id`: it is hovered and active, and the button is up.
pub open spec fn click_completed(
    hover: Option<Id>,
    active: Option<Id>,
    button: ButtonState,
    id: Id,
) -> bool {
    hover == Some(id) && active == Some(id) && button == ButtonState::Released
}

/// Focus after the claim of a focusable widget and before its keys are handled.
pub open spec fn focus_claimed(focus: Option<Id>, id: Id, assume_focus: bool) -> Option<Id> {
    if focus.is_none() || assume_focus {
        Some(id)
    } else {
        focus
    }
}

/// One rendering pass over the UI. `begin` opens it and `end` must close it,
/// on every path, to reconcile the state for the next frame.
pub struct GluiFrame {
    pub glui: Glui,
    /// Whether the UI must be drawn again right after this frame.
    pub redraw: bool,
    /// What the widgets of this frame asked to draw, in order.
    pub draw_list: Vec<DrawCommand>,
}

impl GluiFrame {
    /// Fields a widget interaction leaves alone.
    pub open spec fn keeps_host_and_style(self, other: GluiFrame) -> bool {
        &&& self.glui.uistate.same_host_fields(other.glui.uistate)
        &&& self.glui.style == other.glui.style
        &&& self.redraw == other.redraw
    }

    pub fn begin(glui: Glui) -> (r: GluiFrame)
        ensures
            r.glui.uistate.hover_widget.is_none(),
            r.glui.uistate.same_host_fields(glui.uistate),
            r.glui.uistate.text_input@ == glui.uistate.text_input@,
            r.glui.uistate.key_input@ == glui.uistate.key_input@,
            r.glui.uistate.active_widget == glui.uistate.active_widget,
            r.glui.uistate.focus_widget == glui.uistate.focus_widget,
            r.glui.uistate.last_focusable_widget == glui.uistate.last_focusable_widget,
            r.glui.style == glui.style,
            !r.redraw,
            r.draw_list@.len() == 0,
    {
        let mut glui = glui;
        glui.uistate.begin();
        GluiFrame { glui, redraw: false, draw_list: Vec::new() }
    }

    /// Closes the frame: reconciles the state for the next one and hands the
    /// UI back.
    pub fn end(self) -> (r: Glui)
        ensures
            r.uistate.active_widget == active_after_frame(
                self.glui.uistate.mouse_left,
                self.glui.uistate.active_widget,
            ),
            r.uistate.focus_widget == crate::state::focus_after_frame(
                self.glui.uistate.key_input@,
                self.glui.uistate.focus_widget,
            ),
            r.uistate.key_input@.len() == 0,
            r.uistate.text_input@.len() == 0,
            r.uistate.same_host_fields(self.glui.uistate),
            r.uistate.hover_widget == self.glui.uistate.hover_widget,
            r.uistate.last_focusable_widget == self.glui.uistate.last_focusable_widget,
            r.style == self.glui.style,
    {
        let mut glui = self.glui;
        glui.uistate.end();
        glui
    }

    pub fn style(&self) -> (r: &Style)
        ensures
            *r == self.glui.style,
    {
        &self.glui.style
    }

    pub fn uistate(&self) -> (r: &GluiState)
        ensures
            *r == self.glui.uistate,
    {
        &self.glui.uistate
    }

    /// Asks for another frame to be drawn right after this one.
    pub fn invalidate(&mut self)
        ensures
            final(self).redraw,
            final(self).glui == old(self).glui,
            final(self).draw_list@ == old(self).draw_list@,
    {
        self.redraw = true;
    }

    pub fn requested_redraw(&self) -> (r: bool)
        ensures
            r == self.redraw,
    {
        self.redraw
    }

    /// Whether the host asked for the window to close (`true` means: close).
    pub fn requested_close(&self) -> (r: bool)
        ensures
            r == self.glui.uistate.window_close,
    {
        self.glui.uistate.window_close
    }

    /// Appends a command to the draw list.
    pub fn draw(&mut self, command: DrawCommand)
        ensures
            final(self).draw_list@ == old(self).draw_list@.push(command),
            final(self).glui == old(self).glui,
            final(self).redraw == old(self).redraw,
    {
        self.draw_list.push(command);
    }

    /// Declares a clickable widget over `region` and reports whether it got a
    /// click: a press and a release, both over the widget.
    pub fn clickable_widget(&mut self, id: Id, region: Rect) -> (r: bool)
        ensures
            ({
                let s0 = old(self).glui.uistate;
                let s1 = final(self).glui.uistate;
                &&& s1.hover_widget == hover_after_click(s0.hover_widget, s0.mouse_pos, id, region)
                &&& s1.active_widget == active_after_click(
                    s0.active_widget,
                    s0.mouse_pos,
                    s0.mouse_left,
                    id,
                    region,
                )
                &&& r == click_completed(s1.hover_widget, s1.active_widget, s0.mouse_left, id)
                &&& s1.focus_widget == s0.focus_widget
                &&& s1.last_focusable_widget == s0.last_focusable_widget
                &&& s1.key_input@ == s0.key_input@
                &&& s1.text_input@ == s0.text_input@
            }),
            final(self).keeps_host_and_style(*old(self)),
            final(self).draw_list@ == old(self).draw_list@,
    {
        let state = &mut self.glui.uistate;
        if region.contains(state.mouse_pos) {
            state.hover_widget = Some(id);
            if state.active_widget.is_none() && state.mouse_left.is_pressed() {
                state.active_widget = Some(id);
            }
        }
        state.is_hover(id) && state.is_active(id) && !state.mouse_left.is_pressed()
    }

    /// Declares a focusable widget. It takes the focus when no widget holds it
    /// or when `assume_focus` is set (after a click, say). While it holds the
    /// focus, every queued key event is handed to `handler` in order, and the
    /// default behaviour applies where the handler keeps it. Reports whether
    /// the widget holds the focus afterwards.
    pub fn focusable_widget<H: KeyHandler>(
        &mut self,
        id: Id,
        assume_focus: bool,
        handler: &mut H,
    ) -> (r: bool)
        ensures
            ({
                let s0 = old(self).glui.uistate;
                let s1 = final(self).glui.uistate;
                let claimed = focus_claimed(s0.focus_widget, id, assume_focus);
                &&& claimed == Some(id) ==> {
                    &&& s1.focus_widget == focus_after_keys(
                        claimed,
                        s0.last_focusable_widget,
                        s0.key_input@,
                        *old(handler),
                    )
                    &&& s1.key_input@.len() == 0
                    &&& *final(handler) == handled_all(*old(handler), s0.key_input@)
                }
                &&& claimed != Some(id) ==> {
                    &&& s1.focus_widget == claimed
                    &&& s1.key_input@ == s0.key_input@
                    &&& *final(handler) == *old(handler)
                }
                &&& s1.last_focusable_widget == Some(id)
                &&& r == (s1.focus_widget == Some(id))
                &&& s1.hover_widget == s0.hover_widget
                &&& s1.active_widget == s0.active_widget
                &&& s1.text_input@ == s0.text_input@
            }),
            final(self).keeps_host_and_style(*old(self)),
            final(self).draw_list@ == old(self).draw_list@,
    {
        let ghost h0 = *handler;
        let ghost keys0 = self.glui.uistate.key_input@;
        let ghost last = self.glui.uistate.last_focusable_widget;
        if self.glui.uistate.focus_widget.is_none() || assume_focus {
            self.glui.uistate.focus_widget = Some(id);
        }
        let ghost claimed = self.glui.uistate.focus_widget;
        if self.glui.uistate.has_focus(id) {
            let none = Modifiers::none();
            let shift = Modifiers::shift_only();
            while self.glui.uistate.key_input.len() != 0
                invariant
                    focus_after_keys(
                        self.glui.uistate.focus_widget,
                        last,
                        self.glui.uistate.key_input@,
                        *handler,
                    ) == focus_after_keys(claimed, last, keys0, h0),
                    handled_all(*handler, self.glui.uistate.key_input@) == handled_all(h0, keys0),
                    self.glui.uistate.last_focusable_widget == last,
                    self.keeps_host_and_style(*old(self)),
                    self.draw_list@ == old(self).draw_list@,
                    self.glui.uistate.hover_widget == old(self).glui.uistate.hover_widget,
                    self.glui.uistate.active_widget == old(self).glui.uistate.active_widget,
                    self.glui.uistate.text_input@ == old(self).glui.uistate.text_input@,
                    none == Modifiers::none_spec(),
                    shift == Modifiers::shift_only_spec(),
                decreases self.glui.uistate.key_input@.len(),
            {
                let event = self.glui.uistate.key_input.pop_front().unwrap();
                if handler.handle_key(&event) {
                    if event.key == Key::Tab && event.state == ButtonState::Pressed {
                        if event.modifiers == none {
                            self.glui.uistate.focus_widget = None;
                        } else if event.modifiers == shift {
                            self.glui.uistate.focus_widget = self.glui.uistate.last_focusable_widget;
                        }
                    }
                }
            }
        }
        self.glui.uistate.last_focusable_widget = Some(id);
        self.glui.uistate.has_focus(id)
    }
}

/// A frame that declares the single clickable widget `id` over `region`:
/// whether it reports a click, and the active widget after the frame.
pub open spec fn one_clickable_frame(
    active: Option<Id>,
    pos: Point,
    button: ButtonState,
    id: Id,
    region: Rect,
) -> (bool, Option<Id>) {
    let hover = hover_after_click(None, pos, id, region);
    let act = active_after_click(active, pos, button, id, region);
    (click_completed(hover, act, button, id), active_after_frame(button, act))
}

/// A click completes only on the release: with the pointer kept inside the
/// region, the frame that sees the press and every frame that sees the button
/// held report no click, and the first frame that sees the release reports one.
pub proof fn lemma_click_completes_on_release(pos: Point, id: Id, region: Rect)
    requires
        region.contains_spec(pos),
        id.0 != crate::id::INVALID_ID,
    ensures
        one_clickable_frame(None, pos, ButtonState::Pressed, id, region) == (false, Some(id)),
        one_clickable_frame(Some(id), pos, ButtonState::Pressed, id, region) == (false, Some(id)),
        one_clickable_frame(Some(id), pos, ButtonState::Released, id, region) == (true, None::<Id>),
{
}

/// Activity after a frame that declares `first` over `r1`, then `second` over `r2`.
pub open spec fn two_clickables_active(
    active: Option<Id>,
    pos: Point,
    button: ButtonState,
    first: Id,
    r1: Rect,
    second: Id,
    r2: Rect,
) -> (Option<Id>, Option<Id>) {
    let a1 = active_after_click(active, pos, button, first, r1);
    let a2 = active_after_click(a1, pos, button, second, r2);
    (a2, active_after_frame(button, a2))
}

/// With the button held over two overlapping widgets, the first one declared
/// becomes active and stays so, frame after frame; the second never does.
pub proof fn lemma_first_declared_keeps_activity(
    active: Option<Id>,
    pos: Point,
    first: Id,
    r1: Rect,
    second: Id,
    r2: Rect,
)
    requires
        r1.contains_spec(pos),
        r2.contains_spec(pos),
        first != second,
        active.is_none() || active == Some(first),
    ensures
        two_clickables_active(active, pos, ButtonState::Pressed, first, r1, second, r2) == (
            Some(first),
            Some(first),
        ),
        two_clickables_active(active, pos, ButtonState::Pressed, first, r1, second, r2).0 != Some(
            second,
        ),
{
}

/// Tab without modifiers, handled with the default behaviour by the focused
/// widget, leaves no widget focused.
pub proof fn lemma_tab_drops_focus<H: KeyHandler>(
    focused: Id,
    last: Option<Id>,
    event: KeyEvent,
    h: H,
)
    requires
        event.key == Key::Tab,
        event.state == ButtonState::Pressed,
        event.modifiers == Modifiers::none_spec(),
        h.keeps_default(event),
    ensures
        focus_after_keys(Some(focused), last, seq![event], h) == None::<Id>,
{
    reveal_with_fuel(focus_after_keys, 2);
}

/// Shift+Tab, handled with the default behaviour by the focused widget, hands
/// the focus to the focusable widget declared just before it.
pub proof fn lemma_shift_tab_focuses_previous<H: KeyHandler>(
    focused: Id,
    previous: Id,
    event: KeyEvent,
    h: H,
)
    requires
        event.key == Key::Tab,
        event.state == ButtonState::Pressed,
        event.modifiers == Modifiers::shift_only_spec(),
        h.keeps_default(event),
    ensures
        focus_after_keys(Some(focused), Some(previous), seq![event], h) == Some(previous),
{
    reveal_with_fuel(focus_after_keys, 2);
}

} // verus!

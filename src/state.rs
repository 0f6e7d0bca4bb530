use std::collections::VecDeque;
use vstd::prelude::*;

use crate::geometry::Point;
use crate::id::{Id, INVALID_ID};

verus! {

/// State of a pointer button or a key.
#[derive(Copy, Clone, PartialEq, Eq, Structural, Debug)]
pub enum ButtonState {
    Pressed,
    Released,
}

impl ButtonState {
    pub fn is_pressed(&self) -> (r: bool)
        ensures
            r == (*self == ButtonState::Pressed),
    {
        match self {
            ButtonState::Pressed => true,
            ButtonState::Released => false,
        }
    }
}

/// The keys the engine and its widgets react to; any other key keeps the
/// host's numeric code.
#[derive(Copy, Clone, PartialEq, Eq, Structural, Debug)]
pub enum Key {
    Tab,
    Return,
    Left,
    Right,
    Other(u32),
}

/// Modifier keys held during a key event.
#[derive(Copy, Clone, PartialEq, Eq, Structural, Debug)]
pub struct Modifiers {
    pub shift: bool,
    pub ctrl: bool,
    pub alt: bool,
    pub logo: bool,
}

impl Modifiers {
    /// No modifier held.
    pub fn none() -> (r: Modifiers)
        ensures
            r == Modifiers::none_spec(),
    {
        Modifiers { shift: false, ctrl: false, alt: false, logo: false }
    }

    /// Shift alone held.
    pub fn shift_only() -> (r: Modifiers)
        ensures
            r == Modifiers::shift_only_spec(),
    {
        Modifiers { shift: true, ctrl: false, alt: false, logo: false }
    }

    pub open spec fn none_spec() -> Modifiers {
        Modifiers { shift: false, ctrl: false, alt: false, logo: false }
    }

    pub open spec fn shift_only_spec() -> Modifiers {
        Modifiers { shift: true, ctrl: false, alt: false, logo: false }
    }
}

/// A key press or release as delivered by the host.
#[derive(Copy, Clone, PartialEq, Eq, Structural, Debug)]
pub struct KeyEvent {
    pub key: Key,
    pub modifiers: Modifiers,
    pub state: ButtonState,
}

impl KeyEvent {
    /// Builds an event from raw host input; input that carries no resolvable
    /// key gives `None` and is dropped.
    pub fn from_input(key: Option<Key>, modifiers: Modifiers, state: ButtonState) -> (r: Option<
        KeyEvent,
    >)
        ensures
            r == (match key {
                Some(k) => Some(KeyEvent { key: k, modifiers, state }),
                None => None,
            }),
    {
        match key {
            Some(k) => Some(KeyEvent { key: k, modifiers, state }),
            None => None,
        }
    }
}

/// Interaction state that persists from one frame to the next.
pub struct GluiState {
    pub mouse_pos: Point,
    pub mouse_left: ButtonState,
    pub window_close: bool,
    /// Characters typed since the last frame, in order.
    pub text_input: Vec<char>,
    /// Key events received since the last frame, in order.
    pub key_input: VecDeque<KeyEvent>,
    /// The widget below the pointer in the current frame.
    pub hover_widget: Option<Id>,
    /// The widget on which the pointer button went down, if any.
    pub active_widget: Option<Id>,
    /// The widget that receives keyboard input.
    pub focus_widget: Option<Id>,
    /// The focusable widget declared most recently.
    pub last_focusable_widget: Option<Id>,
}

/// The value `active_widget` takes at the end of a frame.
pub open spec fn active_after_frame(mouse_left: ButtonState, active: Option<Id>) -> Option<Id> {
    if mouse_left == ButtonState::Pressed {
        if active.is_none() {
            Some(Id(INVALID_ID))
        } else {
            active
        }
    } else {
        None
    }
}

/// The value `focus_widget` takes at the end of a frame: key input left
/// unconsumed means the focused widget no longer exists.
pub open spec fn focus_after_frame(pending: Seq<KeyEvent>, focus: Option<Id>) -> Option<Id> {
    if pending.len() == 0 {
        focus
    } else {
        None
    }
}

impl GluiState {
    /// The fields only the host writes (pointer and window) agree.
    pub open spec fn same_host_fields(self, other: GluiState) -> bool {
        &&& self.mouse_pos == other.mouse_pos
        &&& self.mouse_left == other.mouse_left
        &&& self.window_close == other.window_close
    }

    pub fn new() -> (r: GluiState)
        ensures
            r.mouse_pos == (Point { x: 0, y: 0 }),
            r.mouse_left == ButtonState::Released,
            !r.window_close,
            r.text_input@.len() == 0,
            r.key_input@.len() == 0,
            r.hover_widget.is_none(),
            r.active_widget.is_none(),
            r.focus_widget.is_none(),
            r.last_focusable_widget.is_none(),
    {
        GluiState {
            mouse_pos: Point { x: 0, y: 0 },
            mouse_left: ButtonState::Released,
            window_close: false,
            text_input: Vec::new(),
            key_input: VecDeque::new(),
            hover_widget: None,
            active_widget: None,
            focus_widget: None,
            last_focusable_widget: None,
        }
    }

    /// Prepares the state for the declaration of a new frame.
    pub fn begin(&mut self)
        ensures
            final(self).hover_widget.is_none(),
            final(self).same_host_fields(*old(self)),
            final(self).text_input@ == old(self).text_input@,
            final(self).key_input@ == old(self).key_input@,
            final(self).active_widget == old(self).active_widget,
            final(self).focus_widget == old(self).focus_widget,
            final(self).last_focusable_widget == old(self).last_focusable_widget,
    {
        self.hover_widget = None;
    }

    /// Reconciles the state after every widget of a frame was declared.
    pub fn end(&mut self)
        ensures
            final(self).active_widget == active_after_frame(
                old(self).mouse_left,
                old(self).active_widget,
            ),
            final(self).focus_widget == focus_after_frame(
                old(self).key_input@,
                old(self).focus_widget,
            ),
            final(self).key_input@.len() == 0,
            final(self).text_input@.len() == 0,
            final(self).same_host_fields(*old(self)),
            final(self).hover_widget == old(self).hover_widget,
            final(self).last_focusable_widget == old(self).last_focusable_widget,
    {
        if self.mouse_left.is_pressed() {
            // Pressing over no widget pins activity to the invalid identifier,
            // so that moving onto a widget later cannot make it active.
            if self.active_widget.is_none() {
                self.active_widget = Some(Id::invalid());
            }
        } else {
            self.active_widget = None;
        }
        // Unconsumed key input means the focused widget is gone.
        if self.key_input.len() != 0 {
            self.focus_widget = None;
            self.key_input.clear();
        }
        self.text_input.clear();
    }

    pub fn is_hover(&self, widget: Id) -> (r: bool)
        ensures
            r == (self.hover_widget == Some(widget)),
    {
        match self.hover_widget {
            Some(w) => w == widget,
            None => false,
        }
    }

    pub fn is_active(&self, widget: Id) -> (r: bool)
        ensures
            r == (self.active_widget == Some(widget)),
    {
        match self.active_widget {
            Some(w) => w == widget,
            None => false,
        }
    }

    pub fn has_focus(&self, widget: Id) -> (r: bool)
        ensures
            r == (self.focus_widget == Some(widget)),
    {
        match self.focus_widget {
            Some(w) => w == widget,
            None => false,
        }
    }
}

/// A press over no widget pins activity to the invalid identifier at the end
/// of the frame, so that no real widget is active afterwards.
pub proof fn lemma_unclaimed_press_pins_invalid(active: Option<Id>, widget: Id)
    requires
        active.is_none(),
        widget.0 != INVALID_ID,
    ensures
        active_after_frame(ButtonState::Pressed, active) == Some(Id(INVALID_ID)),
        active_after_frame(ButtonState::Pressed, active) != Some(widget),
{
}

/// Key input that no focused widget consumed during a frame leaves no widget
/// with the focus.
pub proof fn lemma_unconsumed_input_drops_focus(pending: Seq<KeyEvent>, focus: Option<Id>, widget: Id)
    requires
        pending.len() > 0,
    ensures
        focus_after_frame(pending, focus) != Some(widget),
{
}

} // verus!

use vstd::prelude::*;

verus! {

/// An opaque colour given by its red, green and blue components.
#[derive(Copy, Clone, PartialEq, Eq, Structural, Debug)]
pub struct Color {
    pub r: u8,
    pub g: u8,
    pub b: u8,
}

impl Color {
    pub fn from_rgb(r: u8, g: u8, b: u8) -> (c: Color)
        ensures
            c == (Color { r, g, b }),
    {
        Color { r, g, b }
    }
}

/// Outline of a widget.
#[derive(Copy, Clone, PartialEq, Eq, Structural, Debug)]
pub struct BorderStyle {
    pub color: Color,
    /// Corner radius in logical pixels.
    pub radius: u32,
}

impl Default for BorderStyle {
    fn default() -> (r: BorderStyle)
        ensures
            r == (BorderStyle { color: Color { r: 0, g: 0, b: 0 }, radius: 3 }),
    {
        BorderStyle { color: Color { r: 0, g: 0, b: 0 }, radius: 3 }
    }
}

/// The flat set of colours and metrics that widgets are drawn with.
pub struct Style {
    /// Font size in logical pixels.
    pub font_size: u32,
    /// Name under which the rendering backend knows the font.
    pub font_name: String,
    pub foreground_color: Color,
    pub hint_color: Color,
    pub clickable_hover: Color,
    pub clickable_active: Color,
    pub clickable_normal: Color,
    pub widget_border: BorderStyle,
}

impl Default for Style {
    fn default() -> (r: Style)
        ensures
            r.font_size == 16,
            r.font_name@ == seq!['d', 'e', 'f', 'a', 'u', 'l', 't'],
            r.foreground_color == (Color { r: 0, g: 0, b: 0 }),
            r.hint_color == (Color { r: 128, g: 128, b: 128 }),
            r.clickable_active == (Color { r: 230, g: 230, b: 230 }),
            r.clickable_hover == (Color { r: 240, g: 240, b: 240 }),
            r.clickable_normal == (Color { r: 255, g: 255, b: 255 }),
            r.widget_border == (BorderStyle { color: Color { r: 0, g: 0, b: 0 }, radius: 3 }),
    {
        let name = "default";
        proof {
            reveal_strlit("default");
        }
        Style {
            font_size: 16,
            font_name: name.to_owned(),
            foreground_color: Color::from_rgb(0, 0, 0),
            hint_color: Color::from_rgb(128, 128, 128),
            clickable_active: Color::from_rgb(230, 230, 230),
            clickable_hover: Color::from_rgb(240, 240, 240),
            clickable_normal: Color::from_rgb(255, 255, 255),
            widget_border: BorderStyle::default(),
        }
    }
}

} // verus!

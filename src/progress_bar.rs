use vstd::prelude::*;

use crate::frame::{DrawCommand, GluiFrame};
use crate::geometry::Rect;
use crate::style::Color;

verus! {

/// Width of the filled part of a bar `width` pixels wide showing `progress`
/// on the range `[min, max]`: progress is clamped to the range, and an empty
/// range shows nothing.
pub open spec fn filled_width(progress: i32, min: i32, max: i32, width: i32) -> int {
    if max <= min {
        0
    } else {
        let clamped: int = if progress < min {
            min as int
        } else if progress > max {
            max as int
        } else {
            progress as int
        };
        (clamped - min) * width / (max - min)
    }
}

/// Colour of the filled part of a progress bar.
pub open spec fn progress_fill_spec() -> Color {
    Color { r: 128, g: 255, b: 128 }
}

proof fn lemma_fraction_bounds(num: int, den: int, width: int)
    requires
        0 <= num <= den,
        0 < den,
    ensures
        width >= 0 ==> 0 <= num * width / den <= width,
        width < 0 ==> width <= num * width / den <= 0,
{
    if width >= 0 {
        assert(0 <= num * width <= den * width) by (nonlinear_arith)
            requires
                0 <= num <= den,
                width >= 0,
        ;
        assert(num * width / den <= den * width / den) by (nonlinear_arith)
            requires
                num * width <= den * width,
                0 < den,
        ;
        assert(den * width / den == width) by (nonlinear_arith)
            requires
                0 < den,
        ;
        assert(0 <= num * width / den) by (nonlinear_arith)
            requires
                0 <= num * width,
                0 < den,
        ;
    } else {
        assert(den * width <= num * width <= 0) by (nonlinear_arith)
            requires
                0 <= num <= den,
                width < 0,
        ;
        assert(den * width / den <= num * width / den) by (nonlinear_arith)
            requires
                den * width <= num * width,
                0 < den,
        ;
        assert(den * width / den == width) by (nonlinear_arith)
            requires
                0 < den,
        ;
        assert(num * width / den <= 0) by (nonlinear_arith)
            requires
                num * width <= 0,
                0 < den,
        ;
    }
}

proof fn lemma_negated_div(m: int, d: int)
    requires
        m > 0,
        d > 0,
    ensures
        (-m) / d == if m % d == 0 { -(m / d) } else { -(m / d) - 1 },
{
    vstd::arithmetic::div_mod::lemma_fundamental_div_mod(m, d);
    let q = m / d;
    let r = m % d;
    assert(m == q * d + r) by (nonlinear_arith)
        requires
            m == d * q + r,
    ;
    if r == 0 {
        assert(-m == (-q) * d + 0) by (nonlinear_arith)
            requires
                m == q * d + r,
                r == 0,
        ;
        vstd::arithmetic::div_mod::lemma_fundamental_div_mod_converse(-m, d, -q, 0);
    } else {
        assert(-m == (-q - 1) * d + (d - r)) by (nonlinear_arith)
            requires
                m == q * d + r,
        ;
        vstd::arithmetic::div_mod::lemma_fundamental_div_mod_converse(-m, d, -q - 1, d - r);
    }
}

/// A horizontal bar that fills from the left as progress grows, with a centred
/// label.
pub struct ProgressBar {
    pub label: String,
    pub progress: i32,
    pub min_value: i32,
    pub max_value: i32,
    pub region: Rect,
}

impl ProgressBar {
    /// An unlabelled bar at 0 on the range 0 to 100.
    pub fn new() -> (r: ProgressBar)
        ensures
            r.label@.len() == 0,
            r.progress == 0,
            r.min_value == 0,
            r.max_value == 100,
            r.region == (Rect { x: 0, y: 0, w: 0, h: 0 }),
    {
        ProgressBar::with_label(String::new())
    }

    pub fn with_label(label: String) -> (r: ProgressBar)
        ensures
            r.label@ == label@,
            r.progress == 0,
            r.min_value == 0,
            r.max_value == 100,
            r.region == (Rect { x: 0, y: 0, w: 0, h: 0 }),
    {
        ProgressBar { label, progress: 0, min_value: 0, max_value: 100, region: Rect::zero() }
    }

    pub fn label(self, label: String) -> (r: ProgressBar)
        ensures
            r.label@ == label@,
            r.progress == self.progress,
            r.min_value == self.min_value,
            r.max_value == self.max_value,
            r.region == self.region,
    {
        ProgressBar { label, ..self }
    }

    /// Sets the range; the bounds may be given in either order.
    pub fn range(self, min: i32, max: i32) -> (r: ProgressBar)
        ensures
            r.label@ == self.label@,
            r.progress == self.progress,
            r.min_value == if min <= max { min } else { max },
            r.max_value == if min <= max { max } else { min },
            r.region == self.region,
    {
        let lo = if min <= max { min } else { max };
        let hi = if min <= max { max } else { min };
        ProgressBar { min_value: lo, max_value: hi, ..self }
    }

    pub fn progress(self, progress: i32) -> (r: ProgressBar)
        ensures
            r.label@ == self.label@,
            r.progress == progress,
            r.min_value == self.min_value,
            r.max_value == self.max_value,
            r.region == self.region,
    {
        ProgressBar { progress, ..self }
    }

    pub fn at(self, x: i32, y: i32) -> (r: ProgressBar)
        ensures
            r.label@ == self.label@,
            r.progress == self.progress,
            r.min_value == self.min_value,
            r.max_value == self.max_value,
            r.region == (Rect { x, y, ..self.region }),
    {
        let region = Rect { x, y, w: self.region.w, h: self.region.h };
        ProgressBar { region, ..self }
    }

    pub fn size(self, w: i32, h: i32) -> (r: ProgressBar)
        ensures
            r.label@ == self.label@,
            r.progress == self.progress,
            r.min_value == self.min_value,
            r.max_value == self.max_value,
            r.region == (Rect { w, h, ..self.region }),
    {
        let region = Rect { x: self.region.x, y: self.region.y, w, h };
        ProgressBar { region, ..self }
    }

    pub fn region(self, region: Rect) -> (r: ProgressBar)
        ensures
            r.label@ == self.label@,
            r.progress == self.progress,
            r.min_value == self.min_value,
            r.max_value == self.max_value,
            r.region == region,
    {
        ProgressBar { region, ..self }
    }

    /// Width in pixels of the filled part of the bar.
    pub fn filled(&self) -> (r: i32)
        ensures
            r == filled_width(self.progress, self.min_value, self.max_value, self.region.w),
    {
        if self.max_value <= self.min_value {
            return 0;
        }
        let clamped: i32 = if self.progress < self.min_value {
            self.min_value
        } else if self.progress > self.max_value {
            self.max_value
        } else {
            self.progress
        };
        let num: i64 = clamped as i64 - self.min_value as i64;
        let den: i64 = self.max_value as i64 - self.min_value as i64;
        proof {
            lemma_fraction_bounds(num as int, den as int, self.region.w as int);
        }
        let w: i64 = self.region.w as i64;
        assert(-0x1_0000_0000_0000_0000 <= num * w <= 0x1_0000_0000_0000_0000) by (nonlinear_arith)
            requires
                0 <= num <= 0x1_0000_0000,
                -0x8000_0000 <= w <= 0x7fff_ffff,
        ;
        let prod: i128 = num as i128 * w as i128;
        assert(prod == num * self.region.w);
        let q: i128 = if prod >= 0 {
            (prod as u128 / den as u128) as i128
        } else {
            let m: u128 = (-prod) as u128;
            let d: u128 = den as u128;
            let q1: u128 = m / d;
            let r1: u128 = m % d;
            proof {
                lemma_negated_div(m as int, d as int);
            }
            if r1 == 0 {
                -(q1 as i128)
            } else {
                -(q1 as i128) - 1
            }
        };
        q as i32
    }

    /// Draws the bar: the filled part, the outline and the label.
    pub fn reify(self, frame: &mut GluiFrame)
        ensures
            final(frame).glui == old(frame).glui,
            final(frame).redraw == old(frame).redraw,
            final(frame).draw_list@.len() == old(frame).draw_list@.len() + 3,
            final(frame).draw_list@.subrange(0, old(frame).draw_list@.len() as int)
                == old(frame).draw_list@,
            final(frame).draw_list@[old(frame).draw_list@.len() as int] == (DrawCommand::Panel {
                region: self.region,
                fill: Some(progress_fill_spec()),
                border: old(frame).glui.style.widget_border.color,
                radius: old(frame).glui.style.widget_border.radius,
                border_width: 0,
                clip_width: Some(
                    filled_width(self.progress, self.min_value, self.max_value, self.region.w) as i32,
                ),
            }),
    {
        let ghost dl0 = frame.draw_list@;
        let filled = self.filled();
        let border = frame.glui.style.widget_border;
        let foreground = frame.glui.style.foreground_color;
        frame.draw(
            DrawCommand::Panel {
                region: self.region,
                fill: Some(Color::from_rgb(128, 255, 128)),
                border: border.color,
                radius: border.radius,
                border_width: 0,
                clip_width: Some(filled),
            },
        );
        frame.draw(
            DrawCommand::Panel {
                region: self.region,
                fill: None,
                border: border.color,
                radius: border.radius,
                border_width: 1,
                clip_width: None,
            },
        );
        frame.draw(
            DrawCommand::Text {
                text: self.label,
                region: self.region,
                color: foreground,
                left_inset: None,
            },
        );
        assert(frame.draw_list@.subrange(0, dl0.len() as int) =~= dl0);
    }
}

} // verus!

use crate::geometry::{fits_i64, Vec2, vec2};
use vstd::prelude::*;

verus! {

/// Where an axis is drawn relative to the inner plot rectangle.
///
/// The x axis has index 0 and the y axis index 1.
#[derive(Clone, Copy, Debug, PartialEq, Eq, Structural)]
pub enum AxisPosition {
    /// In the margin strip on the low side: below the plot for x, left of it for y.
    OutsideLow,
    /// Inside the plot, at its low edge.
    Low,
    /// Inside the plot, at its high edge.
    High,
    /// In the margin strip on the high side: above the plot for x, right of it for y.
    OutsideHigh,
    /// Inside the plot, where the two axes cross.
    AtCross,
}

/// Half of `v`, rounded toward zero; exact when `v` is even.
pub open spec fn half(v: int) -> int {
    if v >= 0 {
        v / 2
    } else {
        -((-v) / 2)
    }
}

impl AxisPosition {
    /// The positions that are drawn in a margin strip outside the plot.
    pub open spec fn is_outside(self) -> bool {
        self is OutsideLow || self is OutsideHigh
    }

    /// The nudge given to a label of axis `axis_idx` at this position, for a
    /// base offset `axis_offset`: half of it, pointing away from the plot.
    pub open spec fn spec_label_shift(self, axis_idx: int, axis_offset: int) -> Vec2 {
        let shift = half(axis_offset);
        match self {
            AxisPosition::OutsideLow => if axis_idx == 0 {
                Vec2 { x: 0, y: shift as i64 }
            } else {
                Vec2 { x: (-shift) as i64, y: 0 }
            },
            AxisPosition::OutsideHigh => if axis_idx == 0 {
                Vec2 { x: 0, y: (-shift) as i64 }
            } else {
                Vec2 { x: shift as i64, y: 0 }
            },
            _ => Vec2 { x: 0, y: 0 },
        }
    }

    /// Whether space must be reserved outside the plot for this position.
    pub fn needs_outside_margin(&self) -> (r: bool)
        ensures
            r == self.is_outside(),
    {
        match self {
            AxisPosition::OutsideLow => true,
            AxisPosition::OutsideHigh => true,
            _ => false,
        }
    }

    /// Whether the labels of an axis at this position are drawn by the decorator.
    pub fn drawn_by_decorator(&self) -> (r: bool)
        ensures
            r == self.is_outside(),
    {
        match self {
            AxisPosition::OutsideLow => true,
            AxisPosition::OutsideHigh => true,
            _ => false,
        }
    }

    /// The shift that moves a label of axis `axis_idx` off its gridline, by
    /// half of `axis_offset`, away from the plot.
    pub fn label_shift(&self, axis_idx: usize, axis_offset: i64) -> (r: Vec2)
        ensures
            r == self.spec_label_shift(axis_idx as int, axis_offset as int),
    {
        let shift: i64 = axis_offset / 2;
        match self {
            AxisPosition::OutsideLow => {
                if axis_idx == 0 {
                    vec2(0, shift)
                } else {
                    vec2(-shift, 0)
                }
            },
            AxisPosition::OutsideHigh => {
                if axis_idx == 0 {
                    vec2(0, -shift)
                } else {
                    vec2(shift, 0)
                }
            },
            _ => vec2(0, 0),
        }
    }
}

/// Exactly the two outside positions need an outside margin and are drawn
/// by the decorator; `Low`, `High` and `AtCross` need neither.
pub proof fn lemma_outside_positions(p: AxisPosition)
    ensures
        (p == AxisPosition::OutsideLow || p == AxisPosition::OutsideHigh) ==> p.is_outside(),
        (p == AxisPosition::Low || p == AxisPosition::High || p == AxisPosition::AtCross)
            ==> !p.is_outside(),
{
}

/// For an outside position and an even offset, the label shift moves along
/// one coordinate only, by exactly half the offset; the other is zero.
pub proof fn lemma_label_shift_is_half(p: AxisPosition, axis_idx: int, axis_offset: int)
    requires
        p.is_outside(),
        0 <= axis_idx < 2,
        axis_offset % 2 == 0,
        fits_i64(axis_offset),
    ensures
        axis_idx == 0 ==> {
            let v = p.spec_label_shift(axis_idx, axis_offset);
            v.x == 0 && 2 * v.y == if p == AxisPosition::OutsideLow { axis_offset } else { -axis_offset }
        },
        axis_idx == 1 ==> {
            let v = p.spec_label_shift(axis_idx, axis_offset);
            v.y == 0 && 2 * v.x == if p == AxisPosition::OutsideHigh { axis_offset } else { -axis_offset }
        },
{
}

/// With a positive offset of at least one unit per half, labels of the x axis
/// move down when below the plot and up when above it, and labels of the y
/// axis move left when left of the plot and right when right of it.
pub proof fn lemma_label_shift_direction(axis_offset: int)
    requires
        2 <= axis_offset <= i64::MAX,
    ensures
        AxisPosition::OutsideLow.spec_label_shift(0, axis_offset).y > 0,
        AxisPosition::OutsideHigh.spec_label_shift(0, axis_offset).y < 0,
        AxisPosition::OutsideLow.spec_label_shift(1, axis_offset).x < 0,
        AxisPosition::OutsideHigh.spec_label_shift(1, axis_offset).x > 0,
{
}

} // verus!

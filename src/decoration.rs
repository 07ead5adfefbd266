use crate::axis::AxisPosition;
use crate::geometry::{fits_i64, Pos2, Rect, Vec2, UNITS_PER_POINT, vec2};
use crate::shapes::GridShape;
use epaint::emath::Align;
use epaint::{Color32, Stroke};
use vstd::prelude::*;

verus! {

/// The base distance between the end of a gridline and its label, before
/// [`AxisPosition::label_shift`] halves it: five points.
pub const GRID_LABEL_OFFSET: i64 = 5 * UNITS_PER_POINT;

/// Draws the labels of the axes that sit in the margin strip outside the plot.
pub struct Decorator {
    /// The whole allocated region, margins included, that the outside
    /// labels are drawn into.
    pub outside_rect: Rect,
    /// From the top-left corner of `outside_rect` to that of the inner plot.
    pub offset_to_inside: Vec2,
    /// The width reserved for an axis drawn outside the plot.
    pub axis_margin: i64,
}

/// How much space a plot takes once its outside margins are added, and where
/// the inner plot sits within it.
#[derive(Clone, Copy, Debug, PartialEq, Eq, Structural)]
pub struct PlotFootprint {
    /// The inner size plus the margins that the axes reserve.
    pub size_with_outside: Vec2,
    /// From the top-left corner of the whole footprint to that of the inner plot.
    pub offset_to_inside: Vec2,
}

/// Vertical alignment of a grid label of axis `axis`: under an x gridline the
/// text hangs from its top, beside a y gridline it is centred.
pub open spec fn grid_label_valign(axis: int) -> Align {
    if axis == 0 {
        Align::Min
    } else {
        Align::Center
    }
}

/// Horizontal alignment of a grid label of axis `axis`: centred under an x
/// gridline, right-aligned to the left of a y gridline.
pub open spec fn grid_label_halign(axis: int) -> Align {
    if axis == 0 {
        Align::Center
    } else {
        Align::Max
    }
}

/// The shift from the end of a gridline of axis `axis` to its label.
pub open spec fn grid_label_shift(axis_positions: [AxisPosition; 2], axis: int) -> Vec2 {
    axis_positions[axis].spec_label_shift(axis, GRID_LABEL_OFFSET as int)
}

/// The x margin is reserved by the y axis (index 1), the y margin by the x
/// axis (index 0): an axis drawn outside takes the space across from it.
pub open spec fn needs_margin(axis_positions: [AxisPosition; 2], dir: int) -> bool {
    axis_positions[1 - dir].is_outside()
}

/// The footprint of a plot of inner size `size` whose axes stand at
/// `axis_positions`, with `axis_margin` reserved for each outside axis.
pub open spec fn spec_plot_footprint(
    size: Vec2,
    axis_positions: [AxisPosition; 2],
    axis_margin: int,
) -> PlotFootprint {
    let x_margin = if needs_margin(axis_positions, 0) { axis_margin } else { 0 };
    let y_margin = if needs_margin(axis_positions, 1) { axis_margin } else { 0 };
    PlotFootprint {
        size_with_outside: Vec2 { x: (size.x + x_margin) as i64, y: (size.y + y_margin) as i64 },
        offset_to_inside: Vec2 {
            x: if axis_positions[1] == AxisPosition::OutsideLow { x_margin as i64 } else { 0 },
            y: if axis_positions[0] == AxisPosition::OutsideHigh { y_margin as i64 } else { 0 },
        },
    }
}

/// Whether the footprint of a plot of size `size` can be computed without overflow.
pub open spec fn footprint_fits(size: Vec2, axis_margin: int) -> bool {
    fits_i64(size.x + axis_margin) && fits_i64(size.y + axis_margin)
}

/// Computes the footprint of a plot: the inner size plus a margin across
/// from each axis drawn outside, and the offset of the inner plot within it.
pub fn plot_footprint(size: Vec2, axis_positions: &[AxisPosition; 2], axis_margin: i64) -> (r:
    PlotFootprint)
    requires
        footprint_fits(size, axis_margin as int),
    ensures
        r == spec_plot_footprint(size, *axis_positions, axis_margin as int),
{
    let need_x_margin = axis_positions[1].needs_outside_margin();
    let need_y_margin = axis_positions[0].needs_outside_margin();
    if need_x_margin || need_y_margin {
        let x_margin: i64 = if need_x_margin { axis_margin } else { 0 };
        let y_margin: i64 = if need_y_margin { axis_margin } else { 0 };
        let size_with_outside = size.add(vec2(x_margin, y_margin));
        let offset_to_inside = vec2(
            if axis_positions[1] == AxisPosition::OutsideLow { x_margin } else { 0 },
            if axis_positions[0] == AxisPosition::OutsideHigh { y_margin } else { 0 },
        );
        PlotFootprint { size_with_outside, offset_to_inside }
    } else {
        PlotFootprint { size_with_outside: size, offset_to_inside: vec2(0, 0) }
    }
}

/// The inner plot rectangle of a plot of size `size` laid out in `outside_rect`.
pub open spec fn spec_inner_rect(
    outside_rect: Rect,
    size: Vec2,
    axis_positions: [AxisPosition; 2],
    axis_margin: int,
) -> Rect {
    let offset = spec_plot_footprint(size, axis_positions, axis_margin).offset_to_inside;
    Rect::spec_from_min_size(outside_rect.min.spec_translate(offset), size)
}

/// Whether a plot of size `size` can be laid out in `outside_rect` without overflow.
pub open spec fn layout_fits(
    outside_rect: Rect,
    size: Vec2,
    axis_positions: [AxisPosition; 2],
    axis_margin: int,
) -> bool {
    let offset = spec_plot_footprint(size, axis_positions, axis_margin).offset_to_inside;
    &&& footprint_fits(size, axis_margin)
    &&& outside_rect.min.add_fits(offset)
    &&& outside_rect.min.spec_translate(offset).add_fits(size)
}

/// Lays out a plot of inner size `size` in `outside_rect`, the space that the
/// host layout allocated for the plot's footprint (see [`plot_footprint`]).
///
/// Returns the inner plot rectangle, placed at the footprint's offset from
/// the top-left corner of `outside_rect`, and the decorator that draws the
/// outside labels into `outside_rect`.
pub fn allocate_space_and_decorator_for_plot(
    outside_rect: Rect,
    size: Vec2,
    axis_positions: &[AxisPosition; 2],
    axis_margin: i64,
) -> (r: (Rect, Decorator))
    requires
        layout_fits(outside_rect, size, *axis_positions, axis_margin as int),
    ensures
        r.0 == spec_inner_rect(outside_rect, size, *axis_positions, axis_margin as int),
        r.1 == (Decorator {
            outside_rect,
            offset_to_inside: spec_plot_footprint(
                size,
                *axis_positions,
                axis_margin as int,
            ).offset_to_inside,
            axis_margin,
        }),
{
    let footprint = plot_footprint(size, axis_positions, axis_margin);
    let offset_to_inside = footprint.offset_to_inside;
    let rect = Rect::from_min_size(outside_rect.left_top().translate(offset_to_inside), size);
    (rect, Decorator { outside_rect, offset_to_inside, axis_margin })
}

impl Decorator {
    /// Draws the label `text` of a gridline of axis `axis` ending at
    /// `pos_in_gui`, if that axis stands outside the plot, and returns
    /// whether it did.
    ///
    /// A drawn label is shifted off the gridline, away from the plot, and two
    /// shapes are appended to `shapes_outer`: the text in `color`, then a
    /// segment in `line_stroke` from `pos_in_gui` to the label's anchor.
    pub fn add_axis_grid_label(
        &self,
        pos_in_gui: Pos2,
        text: String,
        axis_positions: &[AxisPosition; 2],
        color: Color32,
        line_stroke: Stroke,
        axis: usize,
        shapes_outer: &mut Vec<GridShape>,
    ) -> (r: bool)
        requires
            axis < 2,
            pos_in_gui.add_fits(grid_label_shift(*axis_positions, axis as int)),
        ensures
            r == axis_positions[axis as int].is_outside(),
            final(shapes_outer)@.len() == old(shapes_outer)@.len() + if r { 2int } else { 0int },
            !r ==> final(shapes_outer)@ == old(shapes_outer)@,
            r ==> {
                let text_pos = pos_in_gui.spec_translate(
                    grid_label_shift(*axis_positions, axis as int),
                );
                final(shapes_outer)@ == old(shapes_outer)@.push(
                    GridShape::Text {
                        pos: text_pos,
                        text,
                        halign: grid_label_halign(axis as int),
                        valign: grid_label_valign(axis as int),
                        color,
                    },
                ).push(GridShape::LineSegment { points: [pos_in_gui, text_pos], stroke: line_stroke })
            },
    {
        let axis_pos = axis_positions[axis];
        if !axis_pos.drawn_by_decorator() {
            return false;
        }
        let valign = if axis == 0 {
            Align::Min
        } else {
            Align::Center
        };
        let halign = if axis == 0 {
            Align::Center
        } else {
            Align::Max
        };
        let text_pos = pos_in_gui.translate(axis_pos.label_shift(axis, GRID_LABEL_OFFSET));
        shapes_outer.push(GridShape::Text { pos: text_pos, text, halign, valign, color });
        shapes_outer.push(GridShape::LineSegment { points: [pos_in_gui, text_pos], stroke: line_stroke });
        true
    }
}

/// Computing a plot's footprint twice from the same inputs gives the same
/// outer size and the same offset to the inner plot.
pub proof fn lemma_footprint_deterministic(
    size: Vec2,
    axis_positions: &[AxisPosition; 2],
    axis_margin: i64,
    r1: PlotFootprint,
    r2: PlotFootprint,
)
    requires
        call_ensures(plot_footprint, (size, axis_positions, axis_margin), r1),
        call_ensures(plot_footprint, (size, axis_positions, axis_margin), r2),
    ensures
        r1 == r2,
{
}

/// Laying out the same plot twice, wherever the host placed the space, gives
/// the same offset to the inner plot and the same inner rectangle relative
/// to the allocated space, of the requested size.
pub proof fn lemma_layout_deterministic(
    outside1: Rect,
    outside2: Rect,
    size: Vec2,
    axis_positions: &[AxisPosition; 2],
    axis_margin: i64,
    r1: (Rect, Decorator),
    r2: (Rect, Decorator),
)
    requires
        call_ensures(
            allocate_space_and_decorator_for_plot,
            (outside1, size, axis_positions, axis_margin),
            r1,
        ),
        call_ensures(
            allocate_space_and_decorator_for_plot,
            (outside2, size, axis_positions, axis_margin),
            r2,
        ),
        layout_fits(outside1, size, *axis_positions, axis_margin as int),
        layout_fits(outside2, size, *axis_positions, axis_margin as int),
    ensures
        r1.1.offset_to_inside == r2.1.offset_to_inside,
        r1.1.axis_margin == r2.1.axis_margin,
        r1.0.min.x - outside1.min.x == r2.0.min.x - outside2.min.x,
        r1.0.min.y - outside1.min.y == r2.0.min.y - outside2.min.y,
        r1.0.spec_size() == size,
        r2.0.spec_size() == size,
{
}

} // verus!

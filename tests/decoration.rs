use epaint::emath::Align;
use epaint::{Color32, Stroke};
use plot_decoration::axis::AxisPosition;
use plot_decoration::decoration::{
    allocate_space_and_decorator_for_plot, plot_footprint, Decorator, GRID_LABEL_OFFSET,
};
use plot_decoration::geometry::{pos2, vec2, Pos2, Rect, UNITS_PER_POINT};
use plot_decoration::shapes::GridShape;

const ALL: [AxisPosition; 5] = [
    AxisPosition::OutsideLow,
    AxisPosition::Low,
    AxisPosition::High,
    AxisPosition::OutsideHigh,
    AxisPosition::AtCross,
];

fn decorator_for(axis_positions: &[AxisPosition; 2]) -> Decorator {
    let size = vec2(200, 100);
    let footprint = plot_footprint(size, axis_positions, 10);
    let outside = Rect::from_min_size(pos2(0, 0), footprint.size_with_outside);
    allocate_space_and_decorator_for_plot(outside, size, axis_positions, 10).1
}

fn label(
    axis_positions: &[AxisPosition; 2],
    axis: usize,
    pos: Pos2,
    shapes: &mut Vec<GridShape>,
) -> bool {
    decorator_for(axis_positions).add_axis_grid_label(
        pos,
        "1.5".to_string(),
        axis_positions,
        Color32::RED,
        Stroke::new(2.0, Color32::BLUE),
        axis,
        shapes,
    )
}

#[test]
fn outside_positions_need_margin_and_decorator() {
    for p in ALL {
        let outside = p == AxisPosition::OutsideLow || p == AxisPosition::OutsideHigh;
        assert_eq!(p.needs_outside_margin(), outside);
        assert_eq!(p.drawn_by_decorator(), outside);
    }
    assert!(!AxisPosition::AtCross.needs_outside_margin());
    assert!(!AxisPosition::Low.drawn_by_decorator());
}

#[test]
fn label_shift_is_half_the_offset() {
    assert_eq!(AxisPosition::OutsideLow.label_shift(0, 10), vec2(0, 5));
    assert_eq!(AxisPosition::OutsideLow.label_shift(1, 10), vec2(-5, 0));
    assert_eq!(AxisPosition::OutsideHigh.label_shift(0, 10), vec2(0, -5));
    assert_eq!(AxisPosition::OutsideHigh.label_shift(1, 10), vec2(5, 0));
    assert_eq!(AxisPosition::OutsideLow.label_shift(0, 0), vec2(0, 0));
}

#[test]
fn label_shift_rounds_odd_offsets_toward_zero() {
    assert_eq!(AxisPosition::OutsideLow.label_shift(0, 7), vec2(0, 3));
    assert_eq!(AxisPosition::OutsideHigh.label_shift(1, -7), vec2(-3, 0));
}

#[test]
fn label_shift_of_base_offset_is_two_and_a_half_points() {
    let s = AxisPosition::OutsideHigh.label_shift(1, GRID_LABEL_OFFSET);
    assert_eq!(2 * s.x, 5 * UNITS_PER_POINT);
    assert_eq!(s.y, 0);
}

#[test]
fn label_shift_signs() {
    assert!(AxisPosition::OutsideLow.label_shift(0, 10).y > 0);
    assert!(AxisPosition::OutsideHigh.label_shift(0, 10).y < 0);
    assert!(AxisPosition::OutsideLow.label_shift(1, 10).x < 0);
    assert!(AxisPosition::OutsideHigh.label_shift(1, 10).x > 0);
}

#[test]
fn inside_positions_have_no_label_shift() {
    for p in [AxisPosition::Low, AxisPosition::High, AxisPosition::AtCross] {
        assert_eq!(p.label_shift(0, 10), vec2(0, 0));
        assert_eq!(p.label_shift(1, 10), vec2(0, 0));
    }
}

#[test]
fn footprint_with_x_above_and_y_left() {
    let f = plot_footprint(vec2(200, 100), &[AxisPosition::OutsideHigh, AxisPosition::OutsideLow], 10);
    assert_eq!(f.size_with_outside, vec2(210, 110));
    // The margin above the plot pushes the inner plot down as well as right.
    assert_eq!(f.offset_to_inside, vec2(10, 10));
}

#[test]
fn footprint_with_x_below_and_y_right() {
    let f = plot_footprint(vec2(200, 100), &[AxisPosition::OutsideLow, AxisPosition::OutsideHigh], 10);
    assert_eq!(f.size_with_outside, vec2(210, 110));
    assert_eq!(f.offset_to_inside, vec2(0, 0));
}

#[test]
fn footprint_with_one_outside_axis() {
    let f = plot_footprint(vec2(200, 100), &[AxisPosition::AtCross, AxisPosition::OutsideLow], 10);
    assert_eq!(f.size_with_outside, vec2(210, 100));
    assert_eq!(f.offset_to_inside, vec2(10, 0));
    let g = plot_footprint(vec2(200, 100), &[AxisPosition::OutsideHigh, AxisPosition::High], 10);
    assert_eq!(g.size_with_outside, vec2(200, 110));
    assert_eq!(g.offset_to_inside, vec2(0, 10));
}

#[test]
fn footprint_without_outside_axes() {
    let axis_positions = [AxisPosition::Low, AxisPosition::High];
    let f = plot_footprint(vec2(200, 100), &axis_positions, 10);
    assert_eq!(f.size_with_outside, vec2(200, 100));
    assert_eq!(f.offset_to_inside, vec2(0, 0));
    let mut shapes = Vec::new();
    assert!(!label(&axis_positions, 0, pos2(50, 100), &mut shapes));
    assert!(!label(&axis_positions, 1, pos2(0, 50), &mut shapes));
    assert!(shapes.is_empty());
}

#[test]
fn allocation_places_inner_rect_and_decorator() {
    let axis_positions = [AxisPosition::OutsideHigh, AxisPosition::OutsideLow];
    let outside = Rect::from_min_size(pos2(30, 40), vec2(210, 110));
    let (rect, decorator) = allocate_space_and_decorator_for_plot(outside, vec2(200, 100), &axis_positions, 10);
    assert_eq!(rect.min, pos2(40, 50));
    assert_eq!(rect.max, pos2(240, 150));
    assert_eq!(decorator.outside_rect, outside);
    assert_eq!(decorator.offset_to_inside, vec2(10, 10));
    assert_eq!(decorator.axis_margin, 10);
}

#[test]
fn allocation_is_repeatable() {
    let axis_positions = [AxisPosition::OutsideLow, AxisPosition::OutsideLow];
    let a = plot_footprint(vec2(300, 150), &axis_positions, 12);
    let b = plot_footprint(vec2(300, 150), &axis_positions, 12);
    assert_eq!(a, b);
    let (r1, d1) = allocate_space_and_decorator_for_plot(
        Rect::from_min_size(pos2(0, 0), a.size_with_outside), vec2(300, 150), &axis_positions, 12);
    let (r2, d2) = allocate_space_and_decorator_for_plot(
        Rect::from_min_size(pos2(5, 500), b.size_with_outside), vec2(300, 150), &axis_positions, 12);
    assert_eq!(d1.offset_to_inside, d2.offset_to_inside);
    assert_eq!((r1.min.x, r1.min.y), (r2.min.x - 5, r2.min.y - 500));
    assert_eq!((r1.max.x - r1.min.x, r1.max.y - r1.min.y), (300, 150));
}

#[test]
fn x_label_below_plot() {
    let axis_positions = [AxisPosition::OutsideLow, AxisPosition::Low];
    let mut shapes = Vec::new();
    let pos = pos2(1000, 2000);
    assert!(label(&axis_positions, 0, pos, &mut shapes));
    assert_eq!(shapes.len(), 2);
    let anchor = pos2(1000, 2000 + GRID_LABEL_OFFSET / 2);
    match &shapes[0] {
        GridShape::Text { pos, text, halign, valign, color } => {
            assert_eq!(*pos, anchor);
            assert_eq!(text, "1.5");
            assert_eq!(*halign, Align::Center);
            assert_eq!(*valign, Align::Min);
            assert_eq!(*color, Color32::RED);
        }
        other => panic!("expected text, got {:?}", other),
    }
    match &shapes[1] {
        GridShape::LineSegment { points, stroke } => {
            assert_eq!(*points, [pos, anchor]);
            assert_eq!(*stroke, Stroke::new(2.0, Color32::BLUE));
        }
        other => panic!("expected a segment, got {:?}", other),
    }
}

#[test]
fn y_label_right_of_plot() {
    let axis_positions = [AxisPosition::High, AxisPosition::OutsideHigh];
    let mut shapes = Vec::new();
    assert!(!label(&axis_positions, 0, pos2(0, 0), &mut shapes));
    assert!(shapes.is_empty());
    assert!(label(&axis_positions, 1, pos2(100, 200), &mut shapes));
    assert_eq!(shapes.len(), 2);
    let anchor = pos2(100 + GRID_LABEL_OFFSET / 2, 200);
    match &shapes[0] {
        GridShape::Text { pos, halign, valign, .. } => {
            assert_eq!(*pos, anchor);
            assert_eq!(*halign, Align::Max);
            assert_eq!(*valign, Align::Center);
        }
        other => panic!("expected text, got {:?}", other),
    }
    assert!(matches!(&shapes[1], GridShape::LineSegment { points, .. } if *points == [pos2(100, 200), anchor]));
}

#[test]
fn labels_append_to_existing_shapes() {
    let axis_positions = [AxisPosition::OutsideHigh, AxisPosition::OutsideLow];
    let mut shapes = Vec::new();
    assert!(label(&axis_positions, 0, pos2(10, 0), &mut shapes));
    assert!(label(&axis_positions, 1, pos2(0, 10), &mut shapes));
    assert_eq!(shapes.len(), 4);
    assert!(matches!(&shapes[0], GridShape::Text { pos, .. } if *pos == pos2(10, -GRID_LABEL_OFFSET / 2)));
    assert!(matches!(&shapes[2], GridShape::Text { pos, .. } if *pos == pos2(-GRID_LABEL_OFFSET / 2, 10)));
}

use crate::geometry::Pos2;
use epaint::emath::Align;
use epaint::{Color32, Stroke};
use vstd::prelude::*;

verus! {

/// Relies on `emath::Align`, re-exported by epaint: an enum of three
/// variants without data, `Min`, `Center` and `Max`. The variants are visible
/// to proofs, so contracts can say which alignment a label gets.
#[verifier::external_type_specification]
pub struct ExAlign(Align);

/// Relies on `epaint::Color32` only as a type: a label's colour is handed
/// through to the shape unread.
#[verifier::external_type_specification]
#[verifier::external_body]
pub struct ExColor32(Color32);

/// Relies on `epaint::Stroke` only as a type: the style of a label's
/// connecting segment is handed through to the shape unread.
#[verifier::external_type_specification]
#[verifier::external_body]
pub struct ExStroke(Stroke);

/// A shape that the decorator places in the margin strip outside the plot.
#[derive(Debug)]
pub enum GridShape {
    /// A label whose anchor is `pos`; `halign` and `valign` say which point
    /// of the shaped text sits at the anchor.
    Text { pos: Pos2, text: String, halign: Align, valign: Align, color: Color32 },
    /// A straight segment between two points.
    LineSegment { points: [Pos2; 2], stroke: Stroke },
}

} // verus!

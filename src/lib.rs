//! Layout of the axis decorations around a two-dimensional plot.
//!
//! Geometry is held as fixed-point integers: a coordinate counts
//! [`geometry::UNITS_PER_POINT`] units per logical point, so that halving a
//! whole number of points is exact.
pub mod axis;
pub mod decoration;
pub mod geometry;
pub mod shapes;

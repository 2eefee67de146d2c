//! What a frame is made of: a background and, for each star, a dot and the
//! trail it leaves. Coordinates are in steps, measured as the projection
//! gives them.
use vstd::prelude::*;

verus! {

/// The colours of the star field.
#[derive(Clone, Copy, Debug, PartialEq, Eq)]
pub enum Color {
    Black,
    White,
    WhiteSmoke,
}

/// A filled circle.
#[derive(Clone, Copy, Debug, PartialEq, Eq)]
pub struct Dot {
    pub x: i64,
    pub y: i64,
    pub radius: i64,
    pub color: Color,
}

/// A line segment from where a star was to where it is.
#[derive(Clone, Copy, Debug, PartialEq, Eq)]
pub struct Trail {
    pub start_x: i64,
    pub start_y: i64,
    pub end_x: i64,
    pub end_y: i64,
    pub color: Color,
}

/// The drawing of one star. A part is absent where the projection has no
/// value: the dot at depth zero, the trail where either end has none.
#[derive(Clone, Copy, Debug, PartialEq, Eq)]
pub struct StarShape {
    pub dot: Option<Dot>,
    pub trail: Option<Trail>,
}

/// One frame: the background, then the stars in the order they are kept.
#[derive(Debug)]
pub struct Scene {
    pub background: Color,
    pub shapes: Vec<StarShape>,
}

} // verus!

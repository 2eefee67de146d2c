//! A single star: where it is, how it comes nearer each tick, and how it is
//! seen on the window.
use crate::mapping::lemma_floor_div_bounds;
use crate::mapping::lemma_floor_div_same_fraction;
use crate::mapping::lemma_linear_map_endpoints;
use crate::mapping::lemma_linear_map_monotone;
use crate::mapping::linear_map;
use crate::mapping::map_range;
use crate::random::draw_in_range;
use crate::shape::Color;
use crate::shape::Dot;
use crate::shape::StarShape;
use crate::shape::Trail;
use crate::units::MAX_RADIUS;
use crate::units::NEAR;
use vstd::prelude::*;

verus! {

/// A star: its place across the window (`x`, `y`), its depth `z`, and the
/// depth it had one tick before (`pz`), all in steps.
#[derive(Clone, Copy, Debug)]
pub struct Star {
    x: i32,
    y: i32,
    z: i32,
    pz: i32,
}

/// A star as four numbers.
pub struct StarView {
    pub x: int,
    pub y: int,
    pub z: int,
    pub pz: int,
}

/// Where a coordinate at a depth is seen on a window of the given extent: the
/// fraction `coord / depth`, carried from `0..1` onto `0..extent`.
pub open spec fn project(coord: int, depth: int, extent: int) -> int {
    linear_map(coord, 0, depth, 0, extent)
}

/// The radius a star is drawn with: `MAX_RADIUS` at depth zero, falling in a
/// straight line to nothing at the depth of the window's width.
pub open spec fn radius(depth: int, width: int) -> int {
    linear_map(depth, 0, width, MAX_RADIUS as int, 0)
}

/// Whether `n1 / d1` and `n2 / d2` are the same fraction.
pub open spec fn same_fraction(n1: int, d1: int, n2: int, d2: int) -> bool {
    d1 != 0 && d2 != 0 && n1 * d2 == n2 * d1
}

/// Whether `shape` is the drawing of `star` on a window of the given size: a
/// white dot where the star is seen, with the radius of its depth, and a
/// trail from where it was seen one tick before; no dot at depth zero, and no
/// trail where the depth or the previous depth is zero.
pub open spec fn shows(shape: StarShape, star: StarView, width: int, height: int) -> bool {
    &&& shape.dot.is_some() <==> star.z != 0
    &&& shape.dot matches Some(dot) ==> {
        &&& dot.x == project(star.x, star.z, width)
        &&& dot.y == project(star.y, star.z, height)
        &&& dot.radius == radius(star.z, width)
        &&& dot.color == Color::White
    }
    &&& shape.trail.is_some() <==> star.z != 0 && star.pz != 0
    &&& shape.trail matches Some(trail) ==> {
        &&& trail.start_x == project(star.x, star.pz, width)
        &&& trail.start_y == project(star.y, star.pz, height)
        &&& trail.end_x == project(star.x, star.z, width)
        &&& trail.end_y == project(star.y, star.z, height)
        &&& trail.color == Color::WhiteSmoke
    }
}

impl StarView {
    /// Whether one tick at this speed brings the star nearer than `NEAR`.
    pub open spec fn recycles(self, move_speed: int) -> bool {
        self.z - move_speed < NEAR
    }

    /// The star one tick later. It comes nearer by `move_speed`; where that
    /// would bring it nearer than `NEAR`, it starts again at the fresh place,
    /// as deep as the window is wide. Its previous depth is its new depth
    /// plus the speed.
    pub open spec fn advanced(self, width: int, move_speed: int, fresh_x: int, fresh_y: int) -> StarView {
        let z = if self.recycles(move_speed) {
            width
        } else {
            self.z - move_speed
        };
        StarView {
            x: if self.recycles(move_speed) {
                fresh_x
            } else {
                self.x
            },
            y: if self.recycles(move_speed) {
                fresh_y
            } else {
                self.y
            },
            z,
            pz: z + move_speed,
        }
    }

    /// Whether the star one tick later can be held: its depth and its
    /// previous depth fit 32 bits.
    pub open spec fn can_advance(self, width: int, move_speed: int) -> bool {
        let next = self.advanced(width, move_speed, 0, 0);
        i32::MIN <= next.z <= i32::MAX && i32::MIN <= next.pz <= i32::MAX
    }

    /// Whether `self` is what one tick makes of `before`, whatever fresh
    /// place chance gave it: a place inside twice the window where the star
    /// started again.
    pub open spec fn follows(self, before: StarView, width: int, height: int, move_speed: int) -> bool {
        &&& self == before.advanced(width, move_speed, self.x, self.y)
        &&& before.recycles(move_speed) ==> -width <= self.x < width && -height <= self.y < height
    }
}

impl View for Star {
    type V = StarView;

    closed spec fn view(&self) -> StarView {
        StarView { x: self.x as int, y: self.y as int, z: self.z as int, pz: self.pz as int }
    }
}

/// One tick brings a star nearer by the speed, unless that would bring it
/// nearer than `NEAR`: then it starts again at the fresh place, exactly as
/// deep as the window is wide. Either way its previous depth is its new depth
/// plus the speed.
pub proof fn lemma_advance_step(star: StarView, width: int, move_speed: int, fresh_x: int, fresh_y: int)
    ensures
        ({
            let next = star.advanced(width, move_speed, fresh_x, fresh_y);
            &&& star.z - move_speed >= NEAR ==> next.z == star.z - move_speed && next.x == star.x
                && next.y == star.y
            &&& star.z - move_speed < NEAR ==> next.z == width && next.x == fresh_x && next.y
                == fresh_y
            &&& next.pz == next.z + move_speed
        }),
{
}

/// A star that travels forward on a window can always be moved, as long as
/// the window's width plus the speed fits 32 bits; and it never comes nearer
/// than the smaller of `NEAR` and the width.
pub proof fn lemma_forward_step_fits(star: Star, width: int, move_speed: int, fresh_x: int, fresh_y: int)
    requires
        0 <= move_speed,
        0 < width,
        width + move_speed <= i32::MAX,
    ensures
        star@.can_advance(width, move_speed),
        star@.advanced(width, move_speed, fresh_x, fresh_y).z >= NEAR || star@.advanced(
            width,
            move_speed,
            fresh_x,
            fresh_y,
        ).z == width,
{
}

/// What is seen of a coordinate depends on the fraction `coord / depth`
/// alone: two stars with the same fraction are seen at the same place on the
/// same window.
pub proof fn lemma_project_same_fraction(x1: int, z1: int, x2: int, z2: int, extent: int)
    requires
        same_fraction(x1, z1, x2, z2),
    ensures
        project(x1, z1, extent) == project(x2, z2, extent),
{
    lemma_floor_div_same_fraction(x1, z1, x2, z2, extent);
}

/// The fraction `x / z` does not mention the window, so a window of another
/// size leaves it as it is. Scaling a coordinate by `k` (doubling it, for
/// `k == 2`) leaves the fraction unchanged exactly where the depth is scaled
/// along with it or the coordinate is zero.
pub proof fn lemma_fraction_under_scaling(x: int, z: int, k: int, scaled_z: int)
    requires
        z != 0,
        scaled_z != 0,
    ensures
        same_fraction(k * x, scaled_z, x, z) <==> (x == 0 || scaled_z == k * z),
{
    assert((k * x) * z == x * scaled_z <==> (x == 0 || scaled_z == k * z)) by (nonlinear_arith)
        requires
            z != 0,
    ;
}

/// A star and its depth scaled by the same factor are seen at the same
/// place.
pub proof fn lemma_project_scale_invariant(x: int, z: int, k: int, extent: int)
    requires
        z != 0,
        k != 0,
    ensures
        project(k * x, k * z, extent) == project(x, z, extent),
{
    assert(k * z != 0) by (nonlinear_arith)
        requires
            z != 0,
            k != 0,
    ;
    lemma_fraction_under_scaling(x, z, k, k * z);
    lemma_project_same_fraction(k * x, k * z, x, z, extent);
}

/// The radius never grows with depth: it is `MAX_RADIUS` at depth zero,
/// nothing at the depth of the window's width, and in between for every depth
/// between them.
pub proof fn lemma_radius_falls(near: int, far: int, width: int)
    requires
        width > 0,
        near <= far,
    ensures
        radius(near, width) >= radius(far, width),
        radius(0, width) == MAX_RADIUS,
        radius(width, width) == 0,
        0 <= near && far <= width ==> 0 <= radius(far, width) && radius(near, width) <= MAX_RADIUS,
{
    lemma_linear_map_monotone(near, far, 0, width, MAX_RADIUS as int, 0);
    lemma_linear_map_endpoints(0, width, MAX_RADIUS as int, 0);
    if 0 <= near && far <= width {
        lemma_linear_map_monotone(far, width, 0, width, MAX_RADIUS as int, 0);
        lemma_linear_map_monotone(0, near, 0, width, MAX_RADIUS as int, 0);
    }
}

/// Where a coordinate at a depth is seen on a window of the given extent.
pub fn project_onto(coord: i32, depth: i32, extent: i32) -> (seen: i64)
    requires
        depth != 0,
    ensures
        seen == project(coord as int, depth as int, extent as int),
{
    proof {
        assert(-0x4000_0000_0000_0000 <= (coord - 0) * (extent - 0) <= 0x4000_0000_0000_0000)
            by (nonlinear_arith)
            requires
                -0x8000_0000 <= coord <= 0x7fff_ffff,
                -0x8000_0000 <= extent <= 0x7fff_ffff,
        ;
        lemma_floor_div_bounds((coord - 0) * (extent - 0), depth - 0);
    }
    map_range(coord as i64, 0, depth as i64, 0, extent as i64)
}

/// The radius a star at a depth is drawn with on a window of the given
/// width.
pub fn radius_at(depth: i32, width: i32) -> (r: i64)
    requires
        width > 0,
    ensures
        r == radius(depth as int, width as int),
{
    proof {
        assert(-0x4000_0000_0000_0000 <= (depth - 0) * (0 - MAX_RADIUS) <= 0x4000_0000_0000_0000)
            by (nonlinear_arith)
            requires
                -0x8000_0000 <= depth <= 0x7fff_ffff,
                MAX_RADIUS == 8192,
        ;
        lemma_floor_div_bounds((depth - 0) * (0 - MAX_RADIUS), width - 0);
    }
    map_range(depth as i64, 0, width as i64, MAX_RADIUS, 0)
}

impl Star {
    /// A star at `(x, y)` and depth `z` that has not moved yet: its previous
    /// depth is its depth.
    pub fn new(x: i32, y: i32, z: i32) -> (star: Star)
        ensures
            star@ == (StarView { x: x as int, y: y as int, z: z as int, pz: z as int }),
    {
        Star { x, y, z, pz: z }
    }

    pub fn x(&self) -> (x: i32)
        ensures
            x == self@.x,
    {
        self.x
    }

    pub fn y(&self) -> (y: i32)
        ensures
            y == self@.y,
    {
        self.y
    }

    pub fn z(&self) -> (z: i32)
        ensures
            z == self@.z,
    {
        self.z
    }

    pub fn pz(&self) -> (pz: i32)
        ensures
            pz == self@.pz,
    {
        self.pz
    }

    pub fn set_z(&mut self, z: i32)
        ensures
            final(self)@ == (StarView { z: z as int, ..old(self)@ }),
    {
        self.z = z;
    }

    pub fn set_x(&mut self, x: i32)
        ensures
            final(self)@ == (StarView { x: x as int, ..old(self)@ }),
    {
        self.x = x;
    }

    pub fn set_y(&mut self, y: i32)
        ensures
            final(self)@ == (StarView { y: y as int, ..old(self)@ }),
    {
        self.y = y;
    }

    pub fn set_pz(&mut self, pz: i32)
        ensures
            final(self)@ == (StarView { pz: pz as int, ..old(self)@ }),
    {
        self.pz = pz;
    }

    /// Whether one tick at this speed brings the star nearer than `NEAR`.
    pub fn recycles(&self, move_speed: i64) -> (r: bool)
        ensures
            r == self@.recycles(move_speed as int),
    {
        (self.z as i128) - (move_speed as i128) < NEAR as i128
    }

    /// Whether the star can be moved one tick on a window this wide.
    pub fn can_advance(&self, width: i32, move_speed: i64) -> (r: bool)
        ensures
            r == self@.can_advance(width as int, move_speed as int),
    {
        let z: i128 = if self.recycles(move_speed) {
            width as i128
        } else {
            (self.z as i128) - (move_speed as i128)
        };
        let pz: i128 = z + (move_speed as i128);
        i32::MIN as i128 <= z && z <= i32::MAX as i128 && i32::MIN as i128 <= pz && pz
            <= i32::MAX as i128
    }

    /// Moves the star one tick, with the fresh place given: the place it
    /// takes if it starts again, and not read otherwise.
    pub fn advance(&mut self, width: i32, move_speed: i64, fresh_x: i32, fresh_y: i32)
        requires
            old(self)@.can_advance(width as int, move_speed as int),
        ensures
            final(self)@ == old(self)@.advanced(
                width as int,
                move_speed as int,
                fresh_x as int,
                fresh_y as int,
            ),
    {
        if self.recycles(move_speed) {
            self.x = fresh_x;
            self.y = fresh_y;
            self.z = width;
        } else {
            self.z = ((self.z as i128) - (move_speed as i128)) as i32;
        }
        self.pz = ((self.z as i128) + (move_speed as i128)) as i32;
    }

    /// The drawing of the star on a window of the given size: a white dot
    /// where the star is seen, and a trail from where it was seen one tick
    /// before. At depth zero nothing is seen, so the star has neither; where
    /// only its previous depth is zero it has the dot alone.
    pub fn draw(&self, width: i32, height: i32) -> (shape: StarShape)
        requires
            width > 0,
        ensures
            shows(shape, self@, width as int, height as int),
    {
        if self.z == 0 {
            return StarShape { dot: None, trail: None };
        }
        let sx: i64 = project_onto(self.x, self.z, width);
        let sy: i64 = project_onto(self.y, self.z, height);
        let r: i64 = radius_at(self.z, width);
        let dot = Dot { x: sx, y: sy, radius: r, color: Color::White };
        if self.pz == 0 {
            return StarShape { dot: Some(dot), trail: None };
        }
        let px: i64 = project_onto(self.x, self.pz, width);
        let py: i64 = project_onto(self.y, self.pz, height);
        let trail = Trail { start_x: px, start_y: py, end_x: sx, end_y: sy, color: Color::WhiteSmoke };
        StarShape { dot: Some(dot), trail: Some(trail) }
    }

    /// Moves the star one tick on a window of the given size. A star that
    /// would come nearer than `NEAR` starts again at the depth `width`, at a
    /// place drawn by chance from `-width..width` and `-height..height`.
    pub fn update(&mut self, width: i32, height: i32, move_speed: i64)
        requires
            width > 0,
            height > 0,
            old(self)@.can_advance(width as int, move_speed as int),
        ensures
            final(self)@.follows(old(self)@, width as int, height as int, move_speed as int),
            final(self)@.z > 0,
    {
        let (fresh_x, fresh_y): (i32, i32) = if self.recycles(move_speed) {
            (draw_in_range(-width, width), draw_in_range(-height, height))
        } else {
            (self.x, self.y)
        };
        self.advance(width, move_speed, fresh_x, fresh_y);
    }
}

} // verus!

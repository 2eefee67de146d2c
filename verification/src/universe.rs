//! The universe: the stars of one window and the speed they travel at.
use crate::mapping::lemma_floor_div_bounds;
use crate::mapping::lemma_floor_div_exact;
use crate::mapping::lemma_linear_map_endpoints;
use crate::mapping::lemma_linear_map_monotone;
use crate::mapping::linear_map;
use crate::mapping::map_range;
use crate::random::draw_in_range;
use crate::shape::Color;
use crate::shape::Scene;
use crate::shape::StarShape;
use crate::star::shows;
use crate::star::Star;
use crate::star::StarView;
use crate::units::INITIAL_SPEED;
use crate::units::MAX_SPEED;
use crate::units::STAR_COUNT;
use nannou::window::Id;
use vstd::prelude::*;

verus! {

/// nannou's window identifier (`nannou::window::Id`). Trusted, not proved:
/// the type is taken as it is, and nothing is said of what a value holds.
#[verifier::external_type_specification]
#[verifier::external_body]
pub struct ExWindowId(nannou::window::Id);

/// Where the pointer is, in steps from the middle of the window.
#[derive(Clone, Copy, Debug, PartialEq, Eq)]
pub struct Point {
    pub x: i32,
    pub y: i32,
}

/// What happened in a window.
#[derive(Clone, Copy, Debug, PartialEq, Eq)]
pub enum WindowEvent {
    /// The pointer moved to a place.
    MouseMoved(Point),
    /// Anything else.
    Other,
}

/// What the application was told.
#[derive(Clone, Copy, Debug, PartialEq, Eq)]
pub enum Event {
    /// Something in a window, in its simple form where it has one.
    WindowEvent { simple: Option<WindowEvent> },
    /// Anything else.
    Other,
}

/// The stars of one window, in the order they are drawn, and the speed they
/// travel at, in steps each tick.
pub struct Universe {
    window_id: Id,
    stars: Vec<Star>,
    move_speed: i64,
}

/// A universe as plain values.
pub struct UniverseView {
    pub window_id: Id,
    pub stars: Seq<StarView>,
    pub move_speed: int,
}

/// The stars of a vector as plain values.
pub open spec fn star_views(stars: Seq<Star>) -> Seq<StarView> {
    stars.map_values(|star: Star| star@)
}

/// The speed for a pointer at `pointer_x` steps right of the middle of a
/// window `width` steps wide: the place half a width further right, carried
/// from `0..width` onto `0..MAX_SPEED`. It is stated in half steps, so that
/// half of an odd width loses nothing.
pub open spec fn speed_for_pointer(pointer_x: int, width: int) -> int {
    linear_map(2 * pointer_x + width, 0, 2 * width, 0, MAX_SPEED as int)
}

/// The speed for a pointer at `pointer_x` on a window of the given width.
pub fn speed_at(pointer_x: i32, width: i32) -> (speed: i64)
    requires
        width > 0,
    ensures
        speed == speed_for_pointer(pointer_x as int, width as int),
{
    let place: i64 = 2 * (pointer_x as i64) + (width as i64);
    let span: i64 = 2 * (width as i64);
    proof {
        assert(-0x4000_0000_0000_0000 <= (place - 0) * (MAX_SPEED - 0) <= 0x4000_0000_0000_0000)
            by (nonlinear_arith)
            requires
                -0x2_0000_0000 <= place <= 0x2_0000_0000,
                MAX_SPEED == 102400,
        ;
        lemma_floor_div_bounds((place - 0) * (MAX_SPEED - 0), span - 0);
    }
    map_range(place, 0, span, 0, MAX_SPEED)
}

/// Across the window the speed rises from nothing at the left edge, through
/// half of `MAX_SPEED` in the middle, to `MAX_SPEED` at the right edge, and it
/// never falls as the pointer moves right.
pub proof fn lemma_speed_across_window(left: int, right: int, width: int)
    requires
        width > 0,
        left <= right,
    ensures
        speed_for_pointer(0, width) * 2 == MAX_SPEED,
        2 * left == -width ==> speed_for_pointer(left, width) == 0,
        2 * right == width ==> speed_for_pointer(right, width) == MAX_SPEED,
        speed_for_pointer(left, width) <= speed_for_pointer(right, width),
{
    let full = MAX_SPEED as int;
    lemma_linear_map_endpoints(0, 2 * width, 0, full);
    lemma_linear_map_monotone(2 * left + width, 2 * right + width, 0, 2 * width, 0, full);
    assert((width - 0) * (full - 0) == (full / 2) * (2 * width - 0)) by (nonlinear_arith)
        requires
            full == 102400,
    ;
    lemma_floor_div_exact(full / 2, 2 * width);
}

impl UniverseView {
    /// Whether every star can be moved one tick on a window this wide.
    pub open spec fn can_update(self, width: int) -> bool {
        forall|i: int|
            0 <= i < self.stars.len() ==> (#[trigger] self.stars[i]).can_advance(width, self.move_speed)
    }
}

impl View for Universe {
    type V = UniverseView;

    closed spec fn view(&self) -> UniverseView {
        UniverseView {
            window_id: self.window_id,
            stars: star_views(self.stars@),
            move_speed: self.move_speed as int,
        }
    }
}

impl Universe {
    pub fn new(window_id: Id, stars: Vec<Star>, move_speed: i64) -> (universe: Universe)
        ensures
            universe@ == (UniverseView {
                window_id,
                stars: star_views(stars@),
                move_speed: move_speed as int,
            }),
    {
        Universe { window_id, stars, move_speed }
    }

    pub fn window_id(&self) -> (id: Id)
        ensures
            id == self@.window_id,
    {
        self.window_id
    }

    pub fn set_window_id(&mut self, window_id: Id)
        ensures
            final(self)@ == (UniverseView { window_id, ..old(self)@ }),
    {
        self.window_id = window_id;
    }

    pub fn stars(&self) -> (stars: &[Star])
        ensures
            star_views(stars@) == self@.stars,
    {
        self.stars.as_slice()
    }

    /// The stars, to change in place. What the caller leaves in the vector
    /// is what the universe holds afterwards.
    pub fn stars_mut(&mut self) -> (stars: &mut Vec<Star>)
        ensures
            star_views(stars@) == old(self)@.stars,
            final(self)@ == (UniverseView { stars: star_views(final(stars)@), ..old(self)@ }),
    {
        &mut self.stars
    }

    pub fn set_stars(&mut self, stars: Vec<Star>)
        ensures
            final(self)@ == (UniverseView { stars: star_views(stars@), ..old(self)@ }),
    {
        self.stars = stars;
    }

    pub fn move_speed(&self) -> (move_speed: i64)
        ensures
            move_speed == self@.move_speed,
    {
        self.move_speed
    }

    pub fn set_move_speed(&mut self, move_speed: i64)
        ensures
            final(self)@ == (UniverseView { move_speed: move_speed as int, ..old(self)@ }),
    {
        self.move_speed = move_speed;
    }

    /// Whether every star can be moved one tick on a window this wide.
    pub fn can_update(&self, width: i32) -> (r: bool)
        ensures
            r == self@.can_update(width as int),
    {
        let mut i: usize = 0;
        while i < self.stars.len()
            invariant
                i <= self.stars.len(),
                forall|j: int|
                    0 <= j < i ==> (#[trigger] self.stars@[j])@.can_advance(
                        width as int,
                        self.move_speed as int,
                    ),
            decreases self.stars.len() - i,
        {
            if !self.stars[i].can_advance(width, self.move_speed) {
                assert(!self@.stars[i as int].can_advance(width as int, self@.move_speed));
                return false;
            }
            i += 1;
        }
        assert forall|j: int| 0 <= j < self@.stars.len() implies (#[trigger] self@.stars[j]).can_advance(
            width as int,
            self@.move_speed,
        ) by {
            assert(self@.stars[j] == self.stars@[j]@);
        }
        true
    }

    /// Moves every star one tick on a window of the given size, at the
    /// universe's speed.
    pub fn update(&mut self, width: i32, height: i32)
        requires
            width > 0,
            height > 0,
            old(self)@.can_update(width as int),
        ensures
            final(self)@.window_id == old(self)@.window_id,
            final(self)@.move_speed == old(self)@.move_speed,
            final(self)@.stars.len() == old(self)@.stars.len(),
            forall|i: int|
                0 <= i < old(self)@.stars.len() ==> (#[trigger] final(self)@.stars[i]).follows(
                    old(self)@.stars[i],
                    width as int,
                    height as int,
                    old(self)@.move_speed,
                ),
            forall|i: int| 0 <= i < old(self)@.stars.len() ==> (#[trigger] final(self)@.stars[i]).z > 0,
    {
        let move_speed = self.move_speed;
        let ghost before = self.stars@;
        assert forall|j: int| 0 <= j < before.len() implies (#[trigger] before[j])@.can_advance(
            width as int,
            move_speed as int,
        ) by {
            assert(self@.stars[j].can_advance(width as int, self@.move_speed));
        }
        let mut i: usize = 0;
        while i < self.stars.len()
            invariant
                width > 0,
                height > 0,
                i <= self.stars.len(),
                self.stars.len() == before.len(),
                self.move_speed == move_speed,
                self.window_id == old(self).window_id,
                forall|j: int|
                    0 <= j < before.len() ==> (#[trigger] before[j])@.can_advance(
                        width as int,
                        move_speed as int,
                    ),
                forall|j: int| i <= j < before.len() ==> self.stars@[j] == before[j],
                forall|j: int|
                    0 <= j < i ==> (#[trigger] self.stars@[j])@.follows(
                        before[j]@,
                        width as int,
                        height as int,
                        move_speed as int,
                    ) && self.stars@[j]@.z > 0,
            decreases self.stars.len() - i,
        {
            let mut star = self.stars[i];
            assert(star == before[i as int]);
            star.update(width, height, move_speed);
            self.stars.set(i, star);
            i += 1;
        }
        assert forall|j: int| 0 <= j < old(self)@.stars.len() implies (#[trigger] self@.stars[j]).follows(
            old(self)@.stars[j],
            width as int,
            height as int,
            old(self)@.move_speed,
        ) && self@.stars[j].z > 0 by {
            assert(self@.stars[j] == self.stars@[j]@);
            assert(old(self)@.stars[j] == before[j]@);
        }
    }

    /// The frame for a window of the given size: a black background, then
    /// the drawing of every star, in the order the stars are kept.
    pub fn draw(&self, width: i32, height: i32) -> (scene: Scene)
        requires
            width > 0,
        ensures
            scene.background == Color::Black,
            scene.shapes@.len() == self@.stars.len(),
            forall|i: int|
                0 <= i < self@.stars.len() ==> shows(
                    #[trigger] scene.shapes@[i],
                    self@.stars[i],
                    width as int,
                    height as int,
                ),
    {
        let mut shapes: Vec<StarShape> = Vec::new();
        let mut i: usize = 0;
        while i < self.stars.len()
            invariant
                width > 0,
                i <= self.stars.len(),
                shapes@.len() == i,
                forall|j: int|
                    0 <= j < i ==> shows(
                        #[trigger] shapes@[j],
                        self.stars@[j]@,
                        width as int,
                        height as int,
                    ),
            decreases self.stars.len() - i,
        {
            let shape = self.stars[i].draw(width, height);
            shapes.push(shape);
            i += 1;
        }
        assert forall|j: int| 0 <= j < self@.stars.len() implies shows(
            #[trigger] shapes@[j],
            self@.stars[j],
            width as int,
            height as int,
        ) by {
            assert(self@.stars[j] == self.stars@[j]@);
        }
        Scene { background: Color::Black, shapes }
    }

    /// Takes an event in a window `width` steps wide. Where the pointer
    /// moved, the speed becomes the speed for its new place; every other
    /// event leaves the universe as it was.
    pub fn event(&mut self, width: i32, event: Event)
        requires
            width > 0,
        ensures
            final(self)@ == (UniverseView {
                move_speed: match event {
                    Event::WindowEvent { simple: Some(WindowEvent::MouseMoved(position)) } => speed_for_pointer(
                        position.x as int,
                        width as int,
                    ),
                    _ => old(self)@.move_speed,
                },
                ..old(self)@
            }),
    {
        if let Event::WindowEvent { simple: Some(window_event) } = event {
            if let WindowEvent::MouseMoved(position) = window_event {
                let speed = speed_at(position.x, width);
                self.set_move_speed(speed);
            }
        }
    }
}

/// Whether a star is one a new universe may hold on a window of the given
/// size: a place inside twice the window, a depth inside its width, and no
/// motion yet.
pub open spec fn newly_scattered(star: StarView, width: int, height: int) -> bool {
    &&& -width <= star.x < width
    &&& -height <= star.y < height
    &&& 0 <= star.z < width
    &&& star.pz == star.z
}

/// A new universe for a window of the given size: `STAR_COUNT` stars, each
/// at a place and a depth drawn by chance, travelling at `INITIAL_SPEED`.
pub fn model(window_id: Id, width: i32, height: i32) -> (universe: Universe)
    requires
        width > 0,
        height > 0,
    ensures
        universe@.window_id == window_id,
        universe@.move_speed == INITIAL_SPEED,
        universe@.stars.len() == STAR_COUNT,
        forall|i: int|
            0 <= i < universe@.stars.len() ==> newly_scattered(
                #[trigger] universe@.stars[i],
                width as int,
                height as int,
            ),
{
    let mut stars: Vec<Star> = Vec::new();
    let mut i: usize = 0;
    while i < STAR_COUNT
        invariant
            width > 0,
            height > 0,
            i <= STAR_COUNT,
            stars@.len() == i,
            forall|j: int|
                0 <= j < i ==> newly_scattered((#[trigger] stars@[j])@, width as int, height as int),
        decreases STAR_COUNT - i,
    {
        let x = draw_in_range(-width, width);
        let y = draw_in_range(-height, height);
        let z = draw_in_range(0, width);
        stars.push(Star::new(x, y, z));
        i += 1;
    }
    let universe = Universe::new(window_id, stars, INITIAL_SPEED);
    assert forall|j: int| 0 <= j < universe@.stars.len() implies newly_scattered(
        #[trigger] universe@.stars[j],
        width as int,
        height as int,
    ) by {
        assert(universe@.stars[j] == stars@[j]@);
    }
    universe
}

} // verus!

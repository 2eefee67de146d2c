use nannou::window::Id;
use universim::shape::Color;
use universim::star::Star;
use universim::units::INITIAL_SPEED;
use universim::units::MAX_SPEED;
use universim::units::NEAR;
use universim::units::STAR_COUNT;
use universim::units::UNIT;
use universim::universe::model;
use universim::universe::speed_at;
use universim::universe::Event;
use universim::universe::Point;
use universim::universe::Universe;
use universim::universe::WindowEvent;

fn moved_to(x: i32, y: i32) -> Event {
    Event::WindowEvent { simple: Some(WindowEvent::MouseMoved(Point { x, y })) }
}

#[test]
fn new_universe_holds_what_it_was_given() {
    let stars = vec![Star::new(1, 2, 3), Star::new(4, 5, 6)];
    let universe = Universe::new(Id::from(7u64), stars, 42);
    assert_eq!(universe.window_id(), Id::from(7u64));
    assert_eq!(universe.move_speed(), 42);
    assert_eq!(universe.stars().len(), 2);
    assert_eq!(universe.stars()[0].x(), 1);
    assert_eq!(universe.stars()[1].z(), 6);
    assert_eq!(universe.stars()[1].pz(), 6);
}

#[test]
fn universe_setters_change_one_part_each() {
    let mut universe = Universe::new(Id::from(7u64), vec![Star::new(1, 2, 3)], 42);
    universe.set_window_id(Id::from(8u64));
    assert_eq!(universe.window_id(), Id::from(8u64));
    assert_eq!(universe.move_speed(), 42);
    assert_eq!(universe.stars().len(), 1);
    universe.set_move_speed(-5);
    assert_eq!(universe.move_speed(), -5);
    assert_eq!(universe.window_id(), Id::from(8u64));
    universe.set_stars(vec![Star::new(9, 9, 9), Star::new(8, 8, 8), Star::new(7, 7, 7)]);
    assert_eq!(universe.stars().len(), 3);
    assert_eq!(universe.stars()[2].y(), 7);
    assert_eq!(universe.move_speed(), -5);
}

#[test]
fn stars_mut_changes_the_stars_in_place() {
    let mut universe = Universe::new(Id::from(7u64), vec![Star::new(1, 2, 3)], 42);
    universe.stars_mut().push(Star::new(4, 5, 6));
    universe.stars_mut()[0].set_x(100);
    assert_eq!(universe.stars().len(), 2);
    assert_eq!(universe.stars()[0].x(), 100);
    assert_eq!(universe.stars()[1].y(), 5);
    assert_eq!(universe.move_speed(), 42);
}

#[test]
fn speed_is_half_in_the_middle_and_full_at_the_right_edge() {
    for width in [1, 2, 3, 799, 800, 801, 800 * UNIT, i32::MAX] {
        assert_eq!(speed_at(0, width), MAX_SPEED / 2);
        assert_eq!(speed_at(0, width), 50 * UNIT as i64);
    }
    for width in [2, 800, 800 * UNIT, i32::MAX - 1] {
        assert_eq!(speed_at(-width / 2, width), 0);
        assert_eq!(speed_at(width / 2, width), MAX_SPEED);
        assert_eq!(speed_at(width / 2, width), 100 * UNIT as i64);
    }
}

#[test]
fn speed_follows_the_pointer_in_a_straight_line() {
    let width = 800 * UNIT;
    assert_eq!(speed_at(-200 * UNIT, width), 25 * UNIT as i64);
    assert_eq!(speed_at(200 * UNIT, width), 75 * UNIT as i64);
    assert_eq!(speed_at(1, 3), 85333);
    assert_eq!(speed_at(-1, 3), 17066);
    let mut last = speed_at(-width / 2, width);
    let mut x = -width / 2;
    while x <= width / 2 {
        let speed = speed_at(x, width);
        assert!(last <= speed);
        assert!(0 <= speed && speed <= MAX_SPEED);
        last = speed;
        x += 4099;
    }
}

#[test]
fn speed_goes_on_outside_the_window() {
    let width = 800 * UNIT;
    assert_eq!(speed_at(-width, width), -50 * UNIT as i64);
    assert_eq!(speed_at(width, width), 150 * UNIT as i64);
    assert_eq!(speed_at(i32::MAX, 1), (i32::MAX as i64) * MAX_SPEED + MAX_SPEED / 2);
    assert_eq!(speed_at(i32::MIN, 1), (i32::MIN as i64) * MAX_SPEED + MAX_SPEED / 2);
}

#[test]
fn pointer_movement_sets_the_speed() {
    let mut universe = Universe::new(Id::from(1u64), vec![Star::new(1, 2, 3)], INITIAL_SPEED);
    universe.event(800 * UNIT, moved_to(400 * UNIT, 17));
    assert_eq!(universe.move_speed(), MAX_SPEED);
    universe.event(800 * UNIT, moved_to(0, -17));
    assert_eq!(universe.move_speed(), MAX_SPEED / 2);
    universe.event(800 * UNIT, moved_to(-400 * UNIT, 0));
    assert_eq!(universe.move_speed(), 0);
    assert_eq!(universe.window_id(), Id::from(1u64));
    assert_eq!(universe.stars().len(), 1);
    assert_eq!(universe.stars()[0].z(), 3);
}

#[test]
fn other_events_leave_the_speed() {
    let mut universe = Universe::new(Id::from(1u64), Vec::new(), 1234);
    universe.event(800, Event::Other);
    assert_eq!(universe.move_speed(), 1234);
    universe.event(800, Event::WindowEvent { simple: None });
    assert_eq!(universe.move_speed(), 1234);
    universe.event(800, Event::WindowEvent { simple: Some(WindowEvent::Other) });
    assert_eq!(universe.move_speed(), 1234);
}

#[test]
fn update_moves_every_star() {
    let stars = vec![
        Star::new(1, 2, 100 * UNIT),
        Star::new(3, 4, 5 * UNIT),
        Star::new(5, 6, 11 * UNIT),
    ];
    let mut universe = Universe::new(Id::from(1u64), stars, INITIAL_SPEED);
    let width = 800 * UNIT;
    let height = 600 * UNIT;
    assert!(universe.can_update(width));
    universe.update(width, height);
    let stars = universe.stars();
    assert_eq!((stars[0].x(), stars[0].y(), stars[0].z(), stars[0].pz()), (1, 2, 90 * UNIT, 100 * UNIT));
    assert_eq!((stars[1].z(), stars[1].pz()), (800 * UNIT, 810 * UNIT));
    assert!(-width <= stars[1].x() && stars[1].x() < width);
    assert!(-height <= stars[1].y() && stars[1].y() < height);
    assert_eq!((stars[2].x(), stars[2].y(), stars[2].z(), stars[2].pz()), (5, 6, NEAR, 11 * UNIT));
    assert_eq!(universe.move_speed(), INITIAL_SPEED);
    assert_eq!(universe.window_id(), Id::from(1u64));
}

#[test]
fn update_of_no_stars_changes_nothing() {
    let mut universe = Universe::new(Id::from(1u64), Vec::new(), INITIAL_SPEED);
    assert!(universe.can_update(800));
    universe.update(800, 600);
    assert_eq!(universe.stars().len(), 0);
    assert_eq!(universe.move_speed(), INITIAL_SPEED);
}

#[test]
fn can_update_asks_every_star() {
    let stars = vec![Star::new(0, 0, 100), Star::new(0, 0, i32::MAX), Star::new(0, 0, 100)];
    let mut universe = Universe::new(Id::from(1u64), stars, -1);
    assert!(!universe.can_update(800));
    universe.set_move_speed(0);
    assert!(universe.can_update(800));
    universe.set_move_speed(1);
    assert!(universe.can_update(800));
    assert!(!universe.can_update(i32::MAX));
}

#[test]
fn stars_never_reach_the_viewer() {
    let mut universe = model(Id::from(3u64), 640 * UNIT, 480 * UNIT);
    universe.set_move_speed(MAX_SPEED);
    for _ in 0..50 {
        assert!(universe.can_update(640 * UNIT));
        universe.update(640 * UNIT, 480 * UNIT);
        for star in universe.stars() {
            assert!(star.z() >= NEAR);
            assert_eq!(star.pz() as i64, star.z() as i64 + MAX_SPEED);
        }
    }
}

#[test]
fn scene_has_a_black_background_and_every_star_in_order() {
    let stars = vec![Star::new(10, 20, 5), Star::new(3, 4, 0), Star::new(-10, -20, 10)];
    let universe = Universe::new(Id::from(1u64), stars, INITIAL_SPEED);
    let scene = universe.draw(800, 600);
    assert_eq!(scene.background, Color::Black);
    assert_eq!(scene.shapes.len(), 3);
    for (shape, star) in scene.shapes.iter().zip(universe.stars()) {
        assert_eq!(*shape, star.draw(800, 600));
    }
    assert_eq!(scene.shapes[0].dot.unwrap().x, 1600);
    assert_eq!(scene.shapes[1].dot, None);
    assert_eq!(scene.shapes[2].dot.unwrap().y, -1200);
}

#[test]
fn model_scatters_the_stars_over_the_window() {
    let width = 800 * UNIT;
    let height = 600 * UNIT;
    let universe = model(Id::from(9u64), width, height);
    assert_eq!(universe.window_id(), Id::from(9u64));
    assert_eq!(universe.move_speed(), INITIAL_SPEED);
    assert_eq!(universe.move_speed(), 10 * UNIT as i64);
    assert_eq!(universe.stars().len(), STAR_COUNT);
    assert_eq!(universe.stars().len(), 499);
    for star in universe.stars() {
        assert!(-width <= star.x() && star.x() < width);
        assert!(-height <= star.y() && star.y() < height);
        assert!(0 <= star.z() && star.z() < width);
        assert_eq!(star.pz(), star.z());
    }
}

#[test]
fn model_draws_each_star_anew() {
    let universe = model(Id::from(9u64), 800 * UNIT, 600 * UNIT);
    let first = &universe.stars()[0];
    assert!(universe.stars().iter().any(|star| star.x() != first.x()));
    assert!(universe.stars().iter().any(|star| star.y() != first.y()));
    assert!(universe.stars().iter().any(|star| star.z() != first.z()));
    assert!(universe.stars().iter().any(|star| star.x() != -800 * UNIT));
    assert!(universe.stars().iter().any(|star| star.z() != 0));
}

#[test]
fn model_on_the_smallest_window() {
    let universe = model(Id::from(9u64), 1, 1);
    for star in universe.stars() {
        assert!(star.x() == -1 || star.x() == 0);
        assert!(star.y() == -1 || star.y() == 0);
        assert_eq!(star.z(), 0);
    }
}

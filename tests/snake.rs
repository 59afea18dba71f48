use snake_game::geometry::{Quad, Vec2};
use snake_game::snake::Snake;
use snake_game::util::{Direction, SNAKE_SPEED_INC, STARTING_SNAKE_SPEED};

fn seg() -> Vec2 {
    Vec2::new(4_000, 4_000)
}

#[test]
fn new_snake_is_snapped_and_still() {
    let s = Snake::new(Vec2::new(9_000, -4_100), seg());
    assert_eq!(s.body, vec![Quad::new(Vec2::new(8_000, -4_000), seg())]);
    assert_eq!(s.position(), Vec2::new(9_000, -4_100));
    assert_eq!(s.direction, Direction::Idle);
    assert_eq!(s.speed, STARTING_SNAKE_SPEED);
    assert_eq!(s.score, 0);
    assert!(!s.visible);
}

#[test]
fn reversal_is_refused() {
    let mut s = Snake::new(Vec2::new(0, 0), seg());
    s.update_direction(Direction::Right);
    s.update_direction(Direction::Left);
    assert_eq!(s.direction, Direction::Right);
    s.update_direction(Direction::Up);
    assert_eq!(s.direction, Direction::Up);
    s.update_direction(Direction::Down);
    assert_eq!(s.direction, Direction::Up);
}

#[test]
fn direction_is_a_unit_step() {
    let mut s = Snake::new(Vec2::new(0, 0), seg());
    assert_eq!(s.direction(), (0, 0));
    s.update_direction(Direction::Down);
    assert_eq!(s.direction(), (0, -1));
    s.update_direction(Direction::Left);
    assert_eq!(s.direction(), (-1, 0));
}

#[test]
fn body_shifts_only_when_cell_changes() {
    let mut s = Snake::new(Vec2::new(0, 0), seg());
    s.update_direction(Direction::Right);
    s.grow_body();
    assert_eq!(s.body[1].position, Vec2::new(-4_000, 0));
    s.update_position(Vec2::new(1_000, 0));
    assert_eq!(s.body.len(), 2);
    assert_eq!(s.body[0].position, Vec2::new(0, 0));
    s.update_position(Vec2::new(4_000, 0));
    assert_eq!(
        s.body,
        vec![Quad::new(Vec2::new(4_000, 0), seg()), Quad::new(Vec2::new(0, 0), seg())]
    );
    assert_eq!(s.position(), Vec2::new(4_000, 0));
}

#[test]
fn grow_body_goes_against_heading() {
    let mut s = Snake::new(Vec2::new(8_000, 8_000), seg());
    s.update_direction(Direction::Up);
    s.grow_body();
    s.grow_body();
    assert_eq!(s.body.len(), 3);
    assert_eq!(s.body[1].position, Vec2::new(8_000, 4_000));
    assert_eq!(s.body[2].position, Vec2::new(8_000, 0));
}

#[test]
fn reset_restores_start() {
    let mut s = Snake::new(Vec2::new(20_000, 0), seg());
    s.update_direction(Direction::Left);
    s.eat_pellet();
    s.eat_pellet();
    s.reset();
    assert_eq!(s.score, 0);
    assert_eq!(s.speed, STARTING_SNAKE_SPEED);
    assert_eq!(s.direction, Direction::Idle);
    assert_eq!(s.position(), Vec2::new(0, 0));
    assert_eq!(s.body, vec![Quad::new(Vec2::new(0, 0), seg())]);
}

#[test]
fn reset_body_keeps_head() {
    let mut s = Snake::new(Vec2::new(4_000, 0), seg());
    s.update_direction(Direction::Right);
    s.grow_body();
    s.reset_body();
    assert_eq!(s.body, vec![Quad::new(Vec2::new(4_000, 0), seg())]);
}

#[test]
fn growth_tracks_meals_from_reset() {
    let mut s = Snake::new(Vec2::new(0, 0), seg());
    s.reset();
    s.update_direction(Direction::Right);
    for n in 1..=7u32 {
        s.eat_pellet();
        assert_eq!(s.score, n);
        assert_eq!(s.body.len(), n as usize + 1);
        assert_eq!(s.speed, STARTING_SNAKE_SPEED + SNAKE_SPEED_INC * n as i64);
    }
}

#[test]
fn touching_quad_does_not_intersect() {
    let s = Snake::new(Vec2::new(0, 0), seg());
    // The snake's box is -2000..2000; this quad spans 2000..6000.
    assert!(!s.intersects(&Quad::new(Vec2::new(4_000, 0), seg())));
    assert!(!s.intersects(&Quad::new(Vec2::new(0, -4_000), seg())));
}

#[test]
fn overlapping_quad_intersects() {
    let s = Snake::new(Vec2::new(0, 0), seg());
    assert!(s.intersects(&Quad::new(Vec2::new(3_999, 0), seg())));
    assert!(s.intersects(&Quad::new(Vec2::new(-3_999, 3_999), seg())));
    assert!(s.intersects(&Quad::new(Vec2::new(0, 0), seg())));
}

#[test]
fn intersects_uses_head_cell() {
    let mut s = Snake::new(Vec2::new(0, 0), seg());
    s.update_position(Vec2::new(3_600, 0));
    // Head cell is 1, box 2000..6000.
    assert!(s.intersects(&Quad::new(Vec2::new(7_999, 0), seg())));
    assert!(!s.intersects(&Quad::new(Vec2::new(8_000, 0), seg())));
}

#[test]
fn collides_compares_cells() {
    let mut s = Snake::new(Vec2::new(0, 0), seg());
    s.update_position(Vec2::new(7_000, 0));
    assert!(s.collides(&Quad::new(Vec2::new(4_000, 0), seg())));
    assert!(!s.collides(&Quad::new(Vec2::new(8_000, 0), seg())));
}

#[test]
fn collides_measures_quad_in_segments() {
    let s = Snake::new(Vec2::new(0, 0), seg());
    // A quad twice a segment wide, centred at 0.04: its centre is in cell 1.
    assert!(!s.collides(&Quad::new(Vec2::new(4_000, 0), Vec2::new(8_000, 8_000))));
    assert!(s.collides(&Quad::new(Vec2::new(1_000, -1_000), Vec2::new(8_000, 8_000))));
}

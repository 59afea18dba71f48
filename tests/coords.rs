use snake_game::coords::{screen_coordinates, snake_coordinates};
use snake_game::geometry::Vec2;

fn cell_size() -> Vec2 {
    Vec2::new(4_000, 4_000)
}

#[test]
fn origin_maps_to_origin_cell() {
    assert_eq!(snake_coordinates(cell_size(), Vec2::new(0, 0)), (0, 0));
}

#[test]
fn whole_cells_map_to_their_index() {
    assert_eq!(snake_coordinates(cell_size(), Vec2::new(8_000, -12_000)), (2, -3));
}

#[test]
fn positions_round_to_hundredths_first() {
    // 0.035 rounds to 0.04, one whole cell.
    assert_eq!(snake_coordinates(cell_size(), Vec2::new(3_500, 3_499)), (1, 0));
    // -0.005 rounds away from zero to -0.01, which truncates to cell 0.
    assert_eq!(snake_coordinates(cell_size(), Vec2::new(-500, -4_000)), (0, -1));
}

#[test]
fn far_positions_saturate() {
    let r = snake_coordinates(Vec2::new(1_000, 1_000), Vec2::new(i64::MAX, i64::MIN));
    assert_eq!(r, (i32::MAX, i32::MIN));
}

#[test]
fn screen_position_is_index_times_size() {
    assert_eq!(screen_coordinates(cell_size(), (3, -2)), Vec2::new(12_000, -8_000));
    assert_eq!(screen_coordinates(Vec2::new(1_000, 2_000), (0, 7)), Vec2::new(0, 14_000));
}

#[test]
fn grid_round_trip_on_sample_cells() {
    for size in [cell_size(), Vec2::new(1_000, 3_000), Vec2::new(10_000, 2_000)] {
        for cell in [(0, 0), (1, -1), (-25, 24), (123_456, -98_765), (i32::MAX, i32::MIN)] {
            let screen = screen_coordinates(size, cell);
            assert_eq!(snake_coordinates(size, screen), cell);
        }
    }
}

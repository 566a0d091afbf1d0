use snake_engine::chain::{Snake, GROWTH, INITIAL_LENGTH};
use snake_engine::geometry::{Direction, Keys, Position, CELL_SIZE};

fn column(from_y: i64, count: i64) -> Vec<Position> {
    (0..count).map(|i| Position::new(0, from_y + i * CELL_SIZE)).collect()
}

fn cells_of(s: &Snake) -> Vec<Position> {
    (0..s.len()).map(|i| s.cell(i).unwrap()).collect()
}

const NO_KEYS: Keys = Keys { left: false, right: false, up: false, down: false };

#[test]
fn unit_vectors_of_the_four_headings() {
    assert_eq!((Direction::North.to_x(), Direction::North.to_y()), (0, 1));
    assert_eq!((Direction::East.to_x(), Direction::East.to_y()), (1, 0));
    assert_eq!((Direction::West.to_x(), Direction::West.to_y()), (-1, 0));
    assert_eq!((Direction::South.to_x(), Direction::South.to_y()), (0, -1));
}

#[test]
fn reverse_points_the_other_way() {
    assert_eq!(Direction::North.reverse(), Direction::South);
    assert_eq!(Direction::South.reverse(), Direction::North);
    assert_eq!(Direction::East.reverse(), Direction::West);
    assert_eq!(Direction::West.reverse(), Direction::East);
}

#[test]
fn step_moves_one_cell() {
    let p = Position::new(5, 7);
    assert_eq!(p.step(Direction::East), Position::new(15, 7));
    assert_eq!(p.step(Direction::West), Position::new(-5, 7));
    assert_eq!(p.step(Direction::North), Position::new(5, 17));
    assert_eq!(p.step(Direction::South), Position::new(5, -3));
}

#[test]
fn steer_takes_a_side_turn() {
    let left = Keys { left: true, ..NO_KEYS };
    let right = Keys { right: true, ..NO_KEYS };
    let up = Keys { up: true, ..NO_KEYS };
    let down = Keys { down: true, ..NO_KEYS };
    assert_eq!(Direction::North.steer(left), Direction::West);
    assert_eq!(Direction::North.steer(right), Direction::East);
    assert_eq!(Direction::East.steer(up), Direction::North);
    assert_eq!(Direction::East.steer(down), Direction::South);
    assert_eq!(Direction::South.steer(NO_KEYS), Direction::South);
}

#[test]
fn steer_refuses_a_turn_straight_back() {
    let left = Keys { left: true, ..NO_KEYS };
    let right = Keys { right: true, ..NO_KEYS };
    let up = Keys { up: true, ..NO_KEYS };
    let down = Keys { down: true, ..NO_KEYS };
    assert_eq!(Direction::East.steer(left), Direction::East);
    assert_eq!(Direction::West.steer(right), Direction::West);
    assert_eq!(Direction::South.steer(up), Direction::South);
    assert_eq!(Direction::North.steer(down), Direction::North);
}

#[test]
fn steer_tries_the_keys_in_order() {
    let left_and_up = Keys { left: true, up: true, ..NO_KEYS };
    assert_eq!(Direction::North.steer(left_and_up), Direction::West);
    // Left is refused while heading east, so the next pressed key counts.
    assert_eq!(Direction::East.steer(left_and_up), Direction::North);
    let all = Keys { left: true, right: true, up: true, down: true };
    assert_eq!(Direction::East.steer(all), Direction::East);
    assert_eq!(Direction::West.steer(all), Direction::West);
    assert_eq!(Direction::South.steer(all), Direction::West);
}

#[test]
fn new_snake_is_one_segment_at_the_origin() {
    let s = Snake::new();
    assert_eq!(s.len(), 1);
    assert_eq!(s.head(), Position::new(0, 0));
    assert_eq!(s.desired_len(), 10);
    assert_eq!(INITIAL_LENGTH, 10);
    assert_eq!(s.direction(), Direction::North);
    assert_eq!(s.cell(0), Some(Position::new(0, 0)));
    assert_eq!(s.cell(1), None);
}

#[test]
fn no_snake_without_segments() {
    assert!(Snake::from_cells(&Vec::new(), 10, Direction::North).is_none());
    assert!(Snake::from_cells(&vec![Position::new(3, 4)], 10, Direction::North).is_some());
}

#[test]
fn from_cells_keeps_the_order() {
    let cells = vec![Position::new(0, 0), Position::new(10, 0), Position::new(10, 10)];
    let s = Snake::from_cells(&cells, 7, Direction::West).unwrap();
    assert_eq!(cells_of(&s), cells);
    assert_eq!(s.desired_len(), 7);
    assert_eq!(s.direction(), Direction::West);
}

#[test]
fn head_index_is_the_smaller_length_less_one() {
    let cells = column(0, 5);
    assert_eq!(Snake::from_cells(&cells, 10, Direction::North).unwrap().head_index(), 4);
    assert_eq!(Snake::from_cells(&cells, 5, Direction::North).unwrap().head_index(), 4);
    assert_eq!(Snake::from_cells(&cells, 3, Direction::North).unwrap().head_index(), 2);
    assert_eq!(Snake::from_cells(&cells, 1, Direction::North).unwrap().head_index(), 0);
}

#[test]
fn head_index_stops_at_zero() {
    let s = Snake::from_cells(&column(0, 3), 0, Direction::North).unwrap();
    assert_eq!(s.head_index(), 0);
    assert_eq!(s.head(), Position::new(0, 0));
}

#[test]
fn full_chain_moves_like_an_inchworm() {
    // Ten segments, head at the origin, heading north.
    let mut s = Snake::from_cells(&column(-90, 10), 10, Direction::North).unwrap();
    assert_eq!(s.head(), Position::new(0, 0));
    assert!(s.can_advance());
    s.advance();
    assert_eq!(s.head(), Position::new(0, 10));
    assert_eq!(s.len(), 10);
    assert_eq!(cells_of(&s), column(-80, 10));
    assert!(!s.covers(Position::new(0, -90)));
}

#[test]
fn full_chain_shifts_by_one_cell() {
    let cells = vec![Position::new(0, 0), Position::new(10, 0), Position::new(10, 10)];
    let mut s = Snake::from_cells(&cells, 3, Direction::East).unwrap();
    s.advance();
    assert_eq!(
        cells_of(&s),
        vec![Position::new(10, 0), Position::new(10, 10), Position::new(20, 10)]
    );
}

#[test]
fn short_chain_grows_by_one_and_keeps_its_segments() {
    let cells = vec![Position::new(0, 0), Position::new(10, 0)];
    let mut s = Snake::from_cells(&cells, 10, Direction::South).unwrap();
    s.advance();
    assert_eq!(s.len(), 3);
    assert_eq!(
        cells_of(&s),
        vec![Position::new(0, 0), Position::new(10, 0), Position::new(10, -10)]
    );
    assert_eq!(s.head_index(), 2);
}

#[test]
fn growth_after_a_meal_takes_ten_ticks() {
    let mut s = Snake::from_cells(&column(-90, 10), 10, Direction::North).unwrap();
    s.grow(1);
    assert_eq!(s.desired_len(), 20);
    for tick in 1..=10 {
        s.advance();
        assert_eq!(s.len(), 10 + tick);
        // The tail stays where it was.
        assert_eq!(s.cell(0), Some(Position::new(0, -90)));
        assert_eq!(s.head(), Position::new(0, 10 * tick as i64));
    }
    assert_eq!(s.len(), 20);
    s.advance();
    assert_eq!(s.len(), 20);
    assert_eq!(s.cell(0), Some(Position::new(0, -80)));
    assert_eq!(s.head(), Position::new(0, 110));
}

#[test]
fn many_meals_in_one_frame_grow_once() {
    let mut s = Snake::new();
    s.grow(0);
    assert_eq!(s.desired_len(), 10);
    s.grow(1);
    assert_eq!(s.desired_len(), 20);
    s.grow(7);
    assert_eq!(s.desired_len(), 30);
    assert_eq!(GROWTH, 10);
}

#[test]
fn steering_a_snake_changes_only_its_heading() {
    let mut s = Snake::from_cells(&column(0, 3), 10, Direction::North).unwrap();
    s.steer(Keys { right: true, ..NO_KEYS });
    assert_eq!(s.direction(), Direction::East);
    assert_eq!(cells_of(&s), column(0, 3));
    s.steer(Keys { left: true, ..NO_KEYS });
    assert_eq!(s.direction(), Direction::East);
    s.advance();
    assert_eq!(s.head(), Position::new(10, 20));
}

#[test]
fn a_single_segment_never_hits_itself() {
    assert!(!Snake::new().hits_self());
    let s = Snake::from_cells(&vec![Position::new(40, -20)], 0, Direction::West).unwrap();
    assert!(!s.hits_self());
}

#[test]
fn head_on_another_segment_is_a_hit() {
    let looped = vec![
        Position::new(0, 0),
        Position::new(10, 0),
        Position::new(10, 10),
        Position::new(0, 10),
        Position::new(0, 0),
    ];
    assert!(Snake::from_cells(&looped, 5, Direction::South).unwrap().hits_self());
    assert!(!Snake::from_cells(&column(0, 5), 5, Direction::North).unwrap().hits_self());
}

#[test]
fn self_hit_goes_by_the_head_index() {
    // With a desired length of two the head is the second segment; only the
    // fourth lies on it.
    let cells = vec![
        Position::new(0, 0),
        Position::new(10, 0),
        Position::new(20, 0),
        Position::new(10, 0),
    ];
    assert!(Snake::from_cells(&cells, 2, Direction::East).unwrap().hits_self());
    // With a desired length of three the head is the third, which is alone.
    assert!(!Snake::from_cells(&cells, 3, Direction::East).unwrap().hits_self());
}

#[test]
fn covers_finds_each_segment() {
    let s = Snake::from_cells(&column(0, 3), 10, Direction::North).unwrap();
    assert!(s.covers(Position::new(0, 0)));
    assert!(s.covers(Position::new(0, 20)));
    assert!(!s.covers(Position::new(0, 30)));
    assert!(!s.covers(Position::new(10, 0)));
}

#[test]
fn advance_is_barred_at_the_edge_of_the_numbers() {
    let far = vec![Position::new(i64::MAX - 5, i64::MIN + 5)];
    assert!(!Snake::from_cells(&far, 10, Direction::East).unwrap().can_advance());
    assert!(!Snake::from_cells(&far, 10, Direction::South).unwrap().can_advance());
    assert!(Snake::from_cells(&far, 10, Direction::West).unwrap().can_advance());
    assert!(Snake::from_cells(&far, 10, Direction::North).unwrap().can_advance());
    let edge = vec![Position::new(i64::MAX - 10, i64::MIN + 10)];
    assert!(Snake::from_cells(&edge, 10, Direction::East).unwrap().can_advance());
    assert!(Snake::from_cells(&edge, 10, Direction::South).unwrap().can_advance());
}

fn handles_of(s: &Snake) -> Vec<usize> {
    (0..s.len()).map(|i| s.handle(i).unwrap()).collect()
}

#[test]
fn a_full_chain_reuses_the_handle_of_its_tail() {
    let mut s = Snake::from_cells(&column(0, 3), 3, Direction::North).unwrap();
    assert_eq!(handles_of(&s), vec![0, 1, 2]);
    assert_eq!(s.allocated_count(), 3);
    s.advance();
    assert_eq!(handles_of(&s), vec![1, 2, 0]);
    assert_eq!(s.allocated_count(), 3);
    s.advance();
    assert_eq!(handles_of(&s), vec![2, 0, 1]);
    assert_eq!(s.allocated_count(), 3);
    assert_eq!(s.handle(3), None);
}

#[test]
fn a_growing_chain_gets_a_fresh_handle() {
    let mut s = Snake::new();
    assert_eq!(handles_of(&s), vec![0]);
    s.advance();
    s.advance();
    assert_eq!(handles_of(&s), vec![0, 1, 2]);
    assert_eq!(s.allocated_count(), 3);
}

#[test]
fn a_chain_longer_than_desired_moves_from_its_head_index() {
    // The head is the second segment, so the new segment lies ahead of it.
    let cells = vec![Position::new(0, 0), Position::new(10, 0), Position::new(20, 0)];
    let mut s = Snake::from_cells(&cells, 2, Direction::North).unwrap();
    s.advance();
    assert_eq!(
        cells_of(&s),
        vec![Position::new(10, 0), Position::new(20, 0), Position::new(10, 10)]
    );
}

#[test]
fn the_store_moves_only_the_recycled_part() {
    let mut s = Snake::from_cells(&column(0, 3), 3, Direction::East).unwrap();
    s.advance();
    assert_eq!(s.position(0), Some(Position::new(10, 20)));
    assert_eq!(s.position(1), Some(Position::new(0, 10)));
    assert_eq!(s.position(2), Some(Position::new(0, 20)));
    assert_eq!(s.position(3), None);
    s.grow(1);
    s.advance();
    assert_eq!(s.position(0), Some(Position::new(10, 20)));
    assert_eq!(s.position(1), Some(Position::new(0, 10)));
    assert_eq!(s.position(2), Some(Position::new(0, 20)));
    assert_eq!(s.position(3), Some(Position::new(20, 20)));
    assert_eq!(handles_of(&s), vec![1, 2, 0, 3]);
}

use snake_game::food::{count_free_cells, generate_food, nth_free_cell};
use snake_game::grid::{all_distinct, all_in_grid, contains_point, Direction, PixelRect, Point};

fn pt(x: i32, y: i32) -> Point {
    Point { x, y }
}

#[test]
fn opposite_pairs_up_with_down_and_left_with_right() {
    assert_eq!(Direction::Up.opposite(), Direction::Down);
    assert_eq!(Direction::Down.opposite(), Direction::Up);
    assert_eq!(Direction::Left.opposite(), Direction::Right);
    assert_eq!(Direction::Right.opposite(), Direction::Left);
}

#[test]
fn opposite_twice_is_the_direction_itself() {
    for d in [Direction::Up, Direction::Down, Direction::Left, Direction::Right] {
        assert_eq!(d.opposite().opposite(), d);
        assert_ne!(d.opposite(), d);
    }
}

#[test]
fn neighbor_moves_one_cell() {
    let p = pt(3, 7);
    assert_eq!(p.neighbor(Direction::Up), pt(3, 6));
    assert_eq!(p.neighbor(Direction::Down), pt(3, 8));
    assert_eq!(p.neighbor(Direction::Left), pt(2, 7));
    assert_eq!(p.neighbor(Direction::Right), pt(4, 7));
}

#[test]
fn neighbor_of_a_border_cell_may_leave_the_board() {
    assert_eq!(pt(0, 0).neighbor(Direction::Up), pt(0, -1));
    assert_eq!(pt(0, 0).neighbor(Direction::Left), pt(-1, 0));
}

#[test]
fn in_grid_takes_the_lower_bound_and_leaves_the_upper() {
    assert!(pt(0, 0).in_grid(5, 4));
    assert!(pt(4, 3).in_grid(5, 4));
    assert!(!pt(5, 3).in_grid(5, 4));
    assert!(!pt(4, 4).in_grid(5, 4));
    assert!(!pt(-1, 0).in_grid(5, 4));
    assert!(!pt(0, -1).in_grid(5, 4));
    assert!(!pt(0, 0).in_grid(0, 4));
    assert!(!pt(0, 0).in_grid(4, 0));
}

#[test]
fn contains_point_finds_each_point_and_no_other() {
    let points = vec![pt(1, 2), pt(3, 4), pt(5, 6)];
    assert!(contains_point(&points, pt(1, 2)));
    assert!(contains_point(&points, pt(3, 4)));
    assert!(contains_point(&points, pt(5, 6)));
    assert!(!contains_point(&points, pt(2, 1)));
    assert!(!contains_point(&points, pt(1, 4)));
    assert!(!contains_point(&Vec::new(), pt(0, 0)));
}

#[test]
fn all_in_grid_fails_on_one_point_outside() {
    assert!(all_in_grid(&Vec::new(), 3, 3));
    assert!(all_in_grid(&vec![pt(0, 0), pt(2, 2)], 3, 3));
    assert!(!all_in_grid(&vec![pt(0, 0), pt(3, 2)], 3, 3));
    assert!(!all_in_grid(&vec![pt(0, -1), pt(2, 2)], 3, 3));
}

#[test]
fn all_distinct_fails_on_a_repeated_point() {
    assert!(all_distinct(&Vec::new()));
    assert!(all_distinct(&vec![pt(0, 0)]));
    assert!(all_distinct(&vec![pt(0, 0), pt(0, 1), pt(1, 0)]));
    assert!(!all_distinct(&vec![pt(0, 0), pt(0, 1), pt(0, 0)]));
    assert!(!all_distinct(&vec![pt(0, 1), pt(1, 1), pt(1, 1)]));
}

#[test]
fn count_free_cells_is_the_board_less_the_snake() {
    assert_eq!(count_free_cells(&Vec::new(), 3, 3), 9);
    assert_eq!(count_free_cells(&vec![pt(0, 0), pt(1, 1)], 3, 3), 7);
    assert_eq!(count_free_cells(&vec![pt(10, 10)], 20, 20), 399);
    assert_eq!(count_free_cells(&vec![pt(0, 0)], 1, 1), 0);
    assert_eq!(count_free_cells(&Vec::new(), 4, 7), 28);
}

#[test]
fn count_free_cells_counts_a_covered_cell_once() {
    let snake = vec![pt(-1, 0), pt(0, 0), pt(0, 0), pt(2, 0), pt(0, 2)];
    assert_eq!(count_free_cells(&snake, 2, 2), 3);
}

#[test]
fn count_free_cells_of_a_board_without_cells_is_zero() {
    assert_eq!(count_free_cells(&Vec::new(), 0, 5), 0);
    assert_eq!(count_free_cells(&Vec::new(), 5, 0), 0);
    assert_eq!(count_free_cells(&Vec::new(), -3, 5), 0);
    assert_eq!(count_free_cells(&Vec::new(), 5, -3), 0);
}

#[test]
fn nth_free_cell_numbers_the_free_cells_row_by_row() {
    let snake = vec![pt(0, 0), pt(1, 1)];
    assert_eq!(nth_free_cell(&snake, 3, 3, 0), Some(pt(1, 0)));
    assert_eq!(nth_free_cell(&snake, 3, 3, 1), Some(pt(2, 0)));
    assert_eq!(nth_free_cell(&snake, 3, 3, 2), Some(pt(0, 1)));
    assert_eq!(nth_free_cell(&snake, 3, 3, 3), Some(pt(2, 1)));
    assert_eq!(nth_free_cell(&snake, 3, 3, 4), Some(pt(0, 2)));
    assert_eq!(nth_free_cell(&snake, 3, 3, 5), Some(pt(1, 2)));
    assert_eq!(nth_free_cell(&snake, 3, 3, 6), Some(pt(2, 2)));
}

#[test]
fn nth_free_cell_has_none_from_the_count_on() {
    let snake = vec![pt(0, 0), pt(1, 1)];
    assert_eq!(nth_free_cell(&snake, 3, 3, 7), None);
    assert_eq!(nth_free_cell(&snake, 3, 3, 8), None);
    assert_eq!(nth_free_cell(&snake, 3, 3, u64::MAX), None);
    assert_eq!(nth_free_cell(&vec![pt(0, 0)], 1, 1, 0), None);
    assert_eq!(nth_free_cell(&Vec::new(), 0, 0, 0), None);
}

#[test]
fn nth_free_cell_on_a_wide_board_uses_columns_for_x() {
    assert_eq!(nth_free_cell(&Vec::new(), 4, 2, 3), Some(pt(3, 0)));
    assert_eq!(nth_free_cell(&Vec::new(), 4, 2, 4), Some(pt(0, 1)));
    assert_eq!(nth_free_cell(&Vec::new(), 2, 4, 3), Some(pt(1, 1)));
}

#[test]
fn nth_free_cell_below_the_count_is_free_and_each_is_another() {
    let snake = vec![pt(2, 1), pt(1, 1), pt(1, 2), pt(3, 3)];
    let count = count_free_cells(&snake, 4, 4);
    assert_eq!(count, 12);
    let mut found: Vec<Point> = Vec::new();
    for n in 0..count {
        let p = nth_free_cell(&snake, 4, 4, n).unwrap();
        assert!(p.in_grid(4, 4));
        assert!(!contains_point(&snake, p));
        assert!(!contains_point(&found, p));
        found.push(p);
    }
    assert_eq!(found.len(), 12);
}

#[test]
fn generate_food_lands_on_the_board_and_off_the_snake() {
    let snake = vec![pt(2, 2), pt(2, 3), pt(3, 3), pt(4, 3)];
    for _ in 0..500 {
        let food = generate_food(&snake, 6, 5).unwrap();
        assert!(food.in_grid(6, 5));
        assert!(!contains_point(&snake, food));
    }
}

#[test]
fn generate_food_takes_the_one_cell_that_is_left() {
    let snake = vec![pt(0, 0), pt(1, 0), pt(1, 1)];
    for _ in 0..50 {
        assert_eq!(generate_food(&snake, 2, 2), Some(pt(0, 1)));
    }
}

#[test]
fn generate_food_reaches_every_free_cell() {
    let snake = vec![pt(0, 0)];
    let mut seen = [false; 4];
    for _ in 0..2000 {
        let food = generate_food(&snake, 2, 2).unwrap();
        seen[(food.y * 2 + food.x) as usize] = true;
    }
    assert_eq!(seen, [false, true, true, true]);
}

#[test]
fn generate_food_has_none_on_a_covered_board() {
    let snake = vec![pt(0, 0), pt(1, 0), pt(1, 1), pt(0, 1)];
    assert_eq!(generate_food(&snake, 2, 2), None);
    assert_eq!(generate_food(&vec![pt(0, 0)], 1, 1), None);
}

#[test]
fn generate_food_has_none_on_a_board_without_cells() {
    assert_eq!(generate_food(&Vec::new(), 0, 0), None);
    assert_eq!(generate_food(&Vec::new(), -1, 4), None);
}

#[test]
fn pixel_rect_scales_the_cell() {
    assert_eq!(pt(3, 7).pixel_rect(20), PixelRect { x: 60, y: 140, w: 20, h: 20 });
    assert_eq!(pt(0, 0).pixel_rect(20), PixelRect { x: 0, y: 0, w: 20, h: 20 });
    assert_eq!(pt(19, 19).pixel_rect(20), PixelRect { x: 380, y: 380, w: 20, h: 20 });
    assert_eq!(pt(2, 5).pixel_rect(8), PixelRect { x: 16, y: 40, w: 8, h: 8 });
}

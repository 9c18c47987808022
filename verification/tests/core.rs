use std::collections::VecDeque;

use snake_core::food::Food;
use snake_core::game::GameState;
use snake_core::grid::{Direction, GridPosition};
use snake_core::snake::Snake;

fn snake_with_body(cells: &[(i32, i32)], facing: Direction) -> Snake {
    let mut body: VecDeque<GridPosition> = VecDeque::new();
    for &(x, y) in cells {
        body.push_back(GridPosition::new(x, y));
    }
    Snake::new(body, facing)
}

fn body_of(snake: &Snake) -> Vec<(i32, i32)> {
    snake.pos.iter().map(|p| (p.x, p.y)).collect()
}

#[test]
fn opposite_truth_table() {
    assert!(Direction::opposite(Direction::Up, Direction::Down));
    assert!(Direction::opposite(Direction::Down, Direction::Up));
    assert!(Direction::opposite(Direction::Left, Direction::Right));
    assert!(Direction::opposite(Direction::Right, Direction::Left));
    assert!(!Direction::opposite(Direction::Up, Direction::Up));
    assert!(!Direction::opposite(Direction::Up, Direction::Left));
    assert!(!Direction::opposite(Direction::Up, Direction::Right));
    assert!(!Direction::opposite(Direction::Left, Direction::Up));
    assert!(!Direction::opposite(Direction::Left, Direction::Down));
    assert!(!Direction::opposite(Direction::Right, Direction::Right));
}

#[test]
fn grid_position_new_keeps_coordinates() {
    let p = GridPosition::new(-3, 17);
    assert_eq!(p.x, -3);
    assert_eq!(p.y, 17);
}

#[test]
fn turn_single_segment_reverses_freely() {
    let mut snake = snake_with_body(&[(5, 5)], Direction::Right);
    assert!(snake.point(Direction::Left));
    assert_eq!(snake.facing, Direction::Left);
}

#[test]
fn turn_single_segment_any_direction() {
    for dir in [Direction::Up, Direction::Down, Direction::Left, Direction::Right] {
        let mut snake = snake_with_body(&[(5, 5)], Direction::Right);
        assert!(snake.point(dir));
        assert_eq!(snake.facing, dir);
    }
}

#[test]
fn turn_rejects_reversal_with_body() {
    let mut snake = snake_with_body(&[(5, 5), (4, 5), (3, 5)], Direction::Right);
    assert!(!snake.point(Direction::Left));
    assert_eq!(snake.facing, Direction::Right);
}

#[test]
fn turn_accepts_non_reverse_with_body() {
    let mut snake = snake_with_body(&[(5, 5), (4, 5), (3, 5)], Direction::Right);
    assert!(snake.point(Direction::Up));
    assert_eq!(snake.facing, Direction::Up);
}

#[test]
fn advance_without_growth_keeps_length() {
    let mut snake = snake_with_body(&[(5, 5), (4, 5), (3, 5)], Direction::Right);
    snake.forward(1);
    assert_eq!(snake.pos.len(), 3);
    assert_eq!(snake.remaining_extensions, 0);
}

#[test]
fn advance_with_growth_extends_by_one() {
    let mut snake = snake_with_body(&[(5, 5), (4, 5), (3, 5)], Direction::Right);
    snake.extend(2);
    snake.forward(1);
    assert_eq!(snake.pos.len(), 4);
    assert_eq!(snake.remaining_extensions, 1);
}

#[test]
fn advance_shifts_whole_chain() {
    let mut snake = snake_with_body(&[(5, 5), (4, 5), (3, 5)], Direction::Right);
    snake.forward(1);
    assert_eq!(body_of(&snake), vec![(6, 5), (5, 5), (4, 5)]);
}

#[test]
fn advance_moves_head_one_unit_per_direction() {
    let cases = [
        (Direction::Up, (10, 9)),
        (Direction::Down, (10, 11)),
        (Direction::Left, (9, 10)),
        (Direction::Right, (11, 10)),
    ];
    for (dir, expected) in cases {
        let mut snake = snake_with_body(&[(10, 10)], dir);
        snake.forward(1);
        let head = snake.head();
        assert_eq!((head.x, head.y), expected);
        assert_eq!(snake.pos.len(), 1);
    }
}

#[test]
fn forward_covers_several_ticks() {
    let mut snake = snake_with_body(&[(10, 10)], Direction::Down);
    snake.forward(3);
    let head = snake.head();
    assert_eq!((head.x, head.y), (10, 13));
    assert_eq!(snake.pos.len(), 1);
}

#[test]
fn step_is_one_tick() {
    let mut snake = snake_with_body(&[(0, 0), (0, 1)], Direction::Up);
    snake.step();
    assert_eq!(body_of(&snake), vec![(0, -1), (0, 0)]);
}

#[test]
fn negative_extension_keeps_tail_and_sinks() {
    let mut snake = snake_with_body(&[(5, 5), (4, 5)], Direction::Right);
    snake.extend(-2);
    snake.forward(1);
    assert_eq!(snake.pos.len(), 3);
    assert_eq!(snake.remaining_extensions, -3);
}

#[test]
fn head_returns_front_cell() {
    let snake = snake_with_body(&[(7, 8), (6, 8)], Direction::Right);
    let head = snake.head();
    assert_eq!((head.x, head.y), (7, 8));
}

#[test]
fn food_new_keeps_fields() {
    let food = Food::new(GridPosition::new(3, 4), 9);
    assert_eq!((food.pos.x, food.pos.y), (3, 4));
    assert_eq!(food.power, 9);
}

#[test]
fn randomize_stays_within_grid() {
    for _ in 0..200 {
        let food = Food::randomize(1);
        assert!(food.pos.x >= 0 && food.pos.x < 20);
        assert!(food.pos.y >= 0 && food.pos.y < 20);
    }
}

#[test]
fn randomize_keeps_power() {
    let food = Food::randomize(7);
    assert_eq!(food.power, 7);
}

#[test]
fn eaten_grants_power_to_growth_debt() {
    let mut snake = snake_with_body(&[(1, 1)], Direction::Up);
    let food = Food::new(GridPosition::new(0, 0), 3);
    food.eaten(&mut snake);
    assert_eq!(snake.remaining_extensions, 3);
    assert_eq!(snake.pos.len(), 1);
}

#[test]
fn game_step_consumes_matching_food() {
    let mut game = GameState {
        player: snake_with_body(&[(10, 10)], Direction::Right),
        food: vec![
            Food::new(GridPosition::new(11, 10), 1),
            Food::new(GridPosition::new(0, 0), 5),
        ],
    };
    game.step();
    let head = game.player.head();
    assert_eq!((head.x, head.y), (11, 10));
    assert_eq!(game.player.pos.len(), 1);
    assert_eq!(game.player.remaining_extensions, 1);
    // the eaten food was replaced by a fresh random one of power 1
    assert_eq!(game.food[0].power, 1);
    assert!(game.food[0].pos.x >= 0 && game.food[0].pos.x < 20);
    assert!(game.food[0].pos.y >= 0 && game.food[0].pos.y < 20);
    // the other food stayed put
    assert_eq!((game.food[1].pos.x, game.food[1].pos.y), (0, 0));
    assert_eq!(game.food[1].power, 5);
}

#[test]
fn game_step_growth_lands_on_next_tick() {
    let mut game = GameState {
        player: snake_with_body(&[(10, 10)], Direction::Right),
        food: vec![Food::new(GridPosition::new(11, 10), 1)],
    };
    game.step();
    assert_eq!(game.player.pos.len(), 1);
    assert_eq!(game.player.remaining_extensions, 1);
    // park the food far away so the next tick eats nothing
    game.food[0] = Food::new(GridPosition::new(-5, -5), 1);
    game.step();
    let head = game.player.head();
    assert_eq!((head.x, head.y), (12, 10));
    assert_eq!(body_of(&game.player), vec![(12, 10), (11, 10)]);
    assert_eq!(game.player.remaining_extensions, 0);
}

#[test]
fn game_step_eats_coinciding_foods_together() {
    let mut game = GameState {
        player: snake_with_body(&[(10, 10)], Direction::Right),
        food: vec![
            Food::new(GridPosition::new(11, 10), 2),
            Food::new(GridPosition::new(11, 10), 3),
        ],
    };
    game.step();
    assert_eq!(game.player.remaining_extensions, 5);
    assert_eq!(game.food[0].power, 1);
    assert_eq!(game.food[1].power, 1);
}

#[test]
fn game_step_without_matching_food_changes_nothing_else() {
    let mut game = GameState {
        player: snake_with_body(&[(10, 10), (9, 10)], Direction::Right),
        food: vec![Food::new(GridPosition::new(0, 0), 4)],
    };
    game.step();
    assert_eq!(body_of(&game.player), vec![(11, 10), (10, 10)]);
    assert_eq!(game.player.remaining_extensions, 0);
    assert_eq!((game.food[0].pos.x, game.food[0].pos.y), (0, 0));
    assert_eq!(game.food[0].power, 4);
}

#[test]
fn segments_join_cell_centers() {
    let snake = snake_with_body(&[(1, 1), (1, 2)], Direction::Up);
    let segs = snake.segments();
    assert_eq!(segs.len(), 1);
    assert_eq!((segs[0].x1, segs[0].y1), (45, 45));
    assert_eq!((segs[0].x2, segs[0].y2), (45, 75));
}

#[test]
fn single_cell_snake_has_no_segments() {
    let snake = snake_with_body(&[(4, 4)], Direction::Up);
    assert_eq!(snake.segments().len(), 0);
}

#[test]
fn food_rect_is_inset_cell() {
    let food = Food::new(GridPosition::new(2, 3), 1);
    let (x, y, w, h) = food.rect();
    assert_eq!((x, y), (62, 92));
    assert_eq!((w, h), (26, 26));
}

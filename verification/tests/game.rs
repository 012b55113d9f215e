// All bounds and coordinates below are in grid cells: the library uses one
// unit system for both the boundary check of `advance` and the cell range of
// `relocate` (an 800 x 600 pixel window at 10 pixels per cell is the 80 x 60
// cell grid used here).

use snake::config::Window;
use snake::{CollisionFailure, Direction, Food, Game, Snake, SnakeBehaviour};

#[test]
fn advance_runs_right_keeping_length() {
    let window = Window::new(80, 60);
    let mut s = Snake { body: vec![(5, 0), (4, 0), (3, 0), (2, 0)], dir: Direction::Right };

    let expected_heads = [(6, 0), (7, 0), (8, 0), (9, 0)];
    for head in expected_heads {
        let r = s.advance(&window, false);
        assert_eq!(r, Ok(SnakeBehaviour::Move));
        assert_eq!(s.body[0], head);
        assert_eq!(s.body.len(), 4);
    }
    assert_eq!(s.body, vec![(9, 0), (8, 0), (7, 0), (6, 0)]);
}

#[test]
fn advance_left_from_origin_fails_unchanged() {
    let window = Window::new(80, 60);
    let mut s = Snake { body: vec![(0, 0), (1, 0)], dir: Direction::Left };

    let r = s.advance(&window, false);
    assert_eq!(r, Err(CollisionFailure));
    assert_eq!(s.body, vec![(0, 0), (1, 0)]);
    assert_eq!(s.dir, Direction::Left);
}

#[test]
fn advance_fails_on_each_wall() {
    let window = Window::new(80, 60);

    let mut left = Snake { body: vec![(0, 30)], dir: Direction::Left };
    assert_eq!(left.advance(&window, false), Err(CollisionFailure));
    assert_eq!(left.body, vec![(0, 30)]);

    let mut right = Snake { body: vec![(80, 30)], dir: Direction::Right };
    assert_eq!(right.advance(&window, false), Err(CollisionFailure));
    assert_eq!(right.body, vec![(80, 30)]);

    let mut up = Snake { body: vec![(40, 0)], dir: Direction::Up };
    assert_eq!(up.advance(&window, false), Err(CollisionFailure));
    assert_eq!(up.body, vec![(40, 0)]);

    let mut down = Snake { body: vec![(40, 60)], dir: Direction::Down };
    assert_eq!(down.advance(&window, false), Err(CollisionFailure));
    assert_eq!(down.body, vec![(40, 60)]);
}

#[test]
fn advance_allows_the_closed_boundary_cell() {
    // The boundary check keeps the head inside the closed box
    // [0, width] x [0, height]: a step from width - 1 to width succeeds,
    // the next step fails.
    let window = Window::new(80, 60);
    let mut s = Snake { body: vec![(79, 30)], dir: Direction::Right };

    assert_eq!(s.advance(&window, false), Ok(SnakeBehaviour::Move));
    assert_eq!(s.body, vec![(80, 30)]);
    assert_eq!(s.advance(&window, false), Err(CollisionFailure));
    assert_eq!(s.body, vec![(80, 30)]);
}

#[test]
fn advance_growing_keeps_the_tail() {
    let window = Window::new(80, 60);
    let mut s = Snake { body: vec![(5, 5), (4, 5)], dir: Direction::Down };

    let r = s.advance(&window, true);
    assert_eq!(r, Ok(SnakeBehaviour::Eat));
    assert_eq!(s.body, vec![(5, 6), (5, 5), (4, 5)]);
}

#[test]
fn set_direction_rejects_exact_reversal() {
    let mut s = Snake { body: vec![(5, 5)], dir: Direction::Right };

    s.set_direction(Direction::Left);
    assert_eq!(s.dir, Direction::Right);

    s.set_direction(Direction::Up);
    assert_eq!(s.dir, Direction::Up);

    s.set_direction(Direction::Down);
    assert_eq!(s.dir, Direction::Up);

    s.set_direction(Direction::Left);
    assert_eq!(s.dir, Direction::Left);
}

#[test]
fn set_direction_is_idempotent() {
    let mut s = Snake { body: vec![(5, 5)], dir: Direction::Right };

    s.set_direction(Direction::Up);
    let once = s.dir;
    s.set_direction(Direction::Up);
    assert_eq!(s.dir, once);

    s.set_direction(Direction::Left);
    let once = s.dir;
    s.set_direction(Direction::Left);
    assert_eq!(s.dir, once);
}

#[test]
fn is_eaten_exactly_on_the_head() {
    let food = Food { position: (10, 10) };

    let on_head = Snake { body: vec![(10, 10), (9, 10)], dir: Direction::Right };
    assert!(food.is_eaten(&on_head));

    let beside = Snake { body: vec![(11, 10), (10, 10)], dir: Direction::Right };
    assert!(!food.is_eaten(&beside));

    let below = Snake { body: vec![(10, 11), (10, 10)], dir: Direction::Right };
    assert!(!food.is_eaten(&below));

    let far = Snake { body: vec![(0, 0)], dir: Direction::Right };
    assert!(!food.is_eaten(&far));
}

#[test]
fn relocate_lands_inside_the_grid() {
    let window = Window::new(80, 60);
    let mut food = Food { position: (10, 10) };

    let snake = Snake { body: vec![(10, 10)], dir: Direction::Right };
    assert!(food.is_eaten(&snake));

    for _ in 0..200 {
        food.relocate(&window);
        assert!(food.position.0 >= 0 && food.position.0 < 80);
        assert!(food.position.1 >= 0 && food.position.1 < 60);
    }
}

#[test]
fn update_moves_when_food_is_elsewhere() {
    let mut game = Game {
        snake: Snake { body: vec![(5, 0), (4, 0)], dir: Direction::Right },
        food: Food { position: (10, 10) },
        window: Window::new(80, 60),
    };

    let r = game.update();
    assert_eq!(r, Ok(SnakeBehaviour::Move));
    assert_eq!(game.snake.body, vec![(6, 0), (5, 0)]);
    assert_eq!(game.food.position, (10, 10));
}

#[test]
fn update_eats_grows_and_relocates_food() {
    let mut game = Game {
        snake: Snake { body: vec![(10, 10), (9, 10)], dir: Direction::Right },
        food: Food { position: (10, 10) },
        window: Window::new(80, 60),
    };

    let r = game.update();
    assert_eq!(r, Ok(SnakeBehaviour::Eat));
    assert_eq!(game.snake.body, vec![(11, 10), (10, 10), (9, 10)]);
    assert!(game.food.position.0 >= 0 && game.food.position.0 < 80);
    assert!(game.food.position.1 >= 0 && game.food.position.1 < 60);
}

#[test]
fn update_surfaces_a_terminal_collision() {
    let mut game = Game {
        snake: Snake { body: vec![(0, 0), (1, 0)], dir: Direction::Left },
        food: Food { position: (10, 10) },
        window: Window::new(80, 60),
    };

    let r = game.update();
    assert_eq!(r, Err(CollisionFailure));
    assert_eq!(game.snake.body, vec![(0, 0), (1, 0)]);
    assert_eq!(game.snake.dir, Direction::Left);
}

#[test]
fn pressed_applies_the_anti_reversal_rule() {
    let mut game = Game {
        snake: Snake { body: vec![(5, 5)], dir: Direction::Right },
        food: Food { position: (10, 10) },
        window: Window::new(80, 60),
    };

    game.pressed(Direction::Left);
    assert_eq!(game.snake.dir, Direction::Right);

    game.pressed(Direction::Down);
    assert_eq!(game.snake.dir, Direction::Down);
    assert_eq!(game.snake.body, vec![(5, 5)]);
    assert_eq!(game.food.position, (10, 10));
}

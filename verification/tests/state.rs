use std::collections::VecDeque;

use cube_snake::cube::Direction;
use cube_snake::cube::Face;
use cube_snake::cube::Position;
use cube_snake::game::GameEvent;
use cube_snake::game::GameState;
use cube_snake::game::food_candidate;

fn front(u: i32, v: i32) -> Position {
    Position { face: Face::Front, u, v }
}

/// A game whose snake body, travel direction and food cell are set by hand.
fn game_with(grid_size: i32, body: Vec<Position>, dir: Direction, food: Position) -> GameState {
    let mut game = GameState::new(grid_size);
    game.snake.body = VecDeque::from(body);
    game.snake.direction = dir;
    game.snake.next_direction = dir;
    game.food = food;
    game
}

#[test]
fn test_new_game_initial_state() {
    let game = GameState::new(16);
    assert_eq!(game.snake.body.len(), 1);
    assert_eq!(game.snake.body[0], front(8, 8));
    assert_eq!(game.snake.direction, Direction::Up);
    assert_eq!(game.snake.next_direction, Direction::Up);
    assert_eq!(game.score, 0);
    assert_eq!(game.high_score, 0);
    assert_eq!(game.food_eaten_count, 0);
    assert!(!game.game_over);
    assert!(!game.is_prize);
    assert!(0 <= game.food.u && game.food.u < 16);
    assert!(0 <= game.food.v && game.food.v < 16);
    assert_ne!(game.food, front(8, 8));
}

#[test]
fn test_update_conserves_length() {
    let far_food = Position { face: Face::Back, u: 0, v: 0 };
    let mut game = game_with(16, vec![front(8, 8)], Direction::Up, far_food);
    let event = game.update();
    assert_eq!(event, GameEvent::Nothing);
    assert_eq!(game.snake.body.len(), 1);
    assert_eq!(game.snake.body[0], front(8, 9));
    assert_eq!(game.score, 0);
    assert_eq!(game.food, far_food);
    assert!(!game.game_over);
}

#[test]
fn test_eating_grows_by_one() {
    let mut game = game_with(16, vec![front(8, 8)], Direction::Up, front(8, 9));
    let event = game.update();
    assert_eq!(event, GameEvent::Eat);
    assert_eq!(game.snake.body.len(), 2);
    assert_eq!(game.snake.body[0], front(8, 9));
    assert_eq!(game.snake.body[1], front(8, 8));
    assert_eq!(game.score, 1);
    assert_eq!(game.high_score, 1);
    assert_eq!(game.food_eaten_count, 1);
    // The respawned food is off the body.
    assert!(!game.snake.body.contains(&game.food));
}

#[test]
fn test_prize_cadence_every_fifth_food() {
    let mut game = game_with(16, vec![front(8, 8)], Direction::Up, front(8, 9));
    let mut events = Vec::new();
    for k in 1..=5 {
        game.food = front(8, 8 + k);
        events.push(game.update());
    }
    assert_eq!(
        events,
        vec![GameEvent::Eat, GameEvent::Eat, GameEvent::Eat, GameEvent::Eat, GameEvent::EatPrize]
    );
    // 1 point for each plain food, 5 for the fifth (the prize).
    assert_eq!(game.score, 9);
    assert_eq!(game.high_score, 9);
    assert_eq!(game.food_eaten_count, 5);
}

#[test]
fn test_prize_flag_raised_after_fourth_food() {
    let mut game = game_with(16, vec![front(8, 8)], Direction::Up, front(8, 9));
    for k in 1..=4 {
        game.food = front(8, 8 + k);
        game.update();
    }
    // The next food spawned is the fifth eaten: it must be the prize.
    assert!(game.is_prize);
}

#[test]
fn test_tail_chase_is_legal() {
    // A 2x2 loop: the head moves onto the tail cell, which empties this tick.
    let body = vec![front(5, 5), front(6, 5), front(6, 4), front(5, 4)];
    let far_food = Position { face: Face::Back, u: 0, v: 0 };
    let mut game = game_with(16, body, Direction::Down, far_food);
    let event = game.update();
    assert_eq!(event, GameEvent::Nothing);
    assert!(!game.game_over);
    assert_eq!(game.snake.body.len(), 4);
    assert_eq!(game.snake.body[0], front(5, 4));
}

#[test]
fn test_self_collision_sets_game_over() {
    // The candidate head lands on a body cell that is not the tail.
    let body = vec![front(5, 5), front(5, 4), front(5, 3), front(6, 3)];
    let far_food = Position { face: Face::Back, u: 0, v: 0 };
    let mut game = game_with(16, body.clone(), Direction::Down, far_food);
    let event = game.update();
    assert_eq!(event, GameEvent::GameOver);
    assert!(game.game_over);
    assert_eq!(game.snake.body, VecDeque::from(body));
    assert_eq!(game.score, 0);
    assert_eq!(game.food, far_food);
}

#[test]
fn test_game_over_is_sticky() {
    let body = vec![front(5, 5), front(5, 4), front(5, 3), front(6, 3)];
    let far_food = Position { face: Face::Back, u: 0, v: 0 };
    let mut game = game_with(16, body, Direction::Down, far_food);
    assert_eq!(game.update(), GameEvent::GameOver);
    let body_after = game.snake.body.clone();
    let food_after = game.food;
    let score_after = game.score;
    for _ in 0..3 {
        assert_eq!(game.update(), GameEvent::Nothing);
        assert_eq!(game.snake.body, body_after);
        assert_eq!(game.food, food_after);
        assert_eq!(game.score, score_after);
        assert!(game.game_over);
    }
}

#[test]
fn test_crossing_redirects_travel() {
    // Crossing the seam at the top of the top face turns travel downward in
    // the back face's frame, and both direction fields must show it.
    let body = vec![Position { face: Face::Top, u: 5, v: 15 }];
    let far_food = Position { face: Face::Front, u: 0, v: 0 };
    let mut game = game_with(16, body, Direction::Up, far_food);
    let event = game.update();
    assert_eq!(event, GameEvent::Nothing);
    assert_eq!(game.snake.body[0], Position { face: Face::Back, u: 10, v: 15 });
    assert_eq!(game.snake.direction, Direction::Down);
    assert_eq!(game.snake.next_direction, Direction::Down);
}

#[test]
fn test_food_candidate_mapping() {
    let p = food_candidate(7, 20, 35, 16);
    assert_eq!(p, Position { face: Face::Back, u: 4, v: 3 });
    let q = food_candidate(0, 0, 0, 16);
    assert_eq!(q, front(0, 0));
}

#[test]
fn test_spawn_food_takes_the_single_free_cell() {
    // Grid of one cell per face; five of the six cells are occupied.
    let body = vec![
        Position { face: Face::Front, u: 0, v: 0 },
        Position { face: Face::Back, u: 0, v: 0 },
        Position { face: Face::Left, u: 0, v: 0 },
        Position { face: Face::Right, u: 0, v: 0 },
        Position { face: Face::Top, u: 0, v: 0 },
    ];
    let mut game = game_with(1, body, Direction::Up, Position { face: Face::Front, u: 0, v: 0 });
    game.spawn_food();
    assert_eq!(game.food, Position { face: Face::Bottom, u: 0, v: 0 });
    assert!(!game.is_prize);
}

#[test]
fn test_spawn_food_leaves_full_board_unchanged() {
    let body = vec![
        Position { face: Face::Front, u: 0, v: 0 },
        Position { face: Face::Back, u: 0, v: 0 },
        Position { face: Face::Left, u: 0, v: 0 },
        Position { face: Face::Right, u: 0, v: 0 },
        Position { face: Face::Top, u: 0, v: 0 },
        Position { face: Face::Bottom, u: 0, v: 0 },
    ];
    let old_food = Position { face: Face::Left, u: 0, v: 0 };
    let mut game = game_with(1, body, Direction::Up, old_food);
    game.spawn_food();
    assert_eq!(game.food, old_food);
    assert!(!game.is_prize);
}

use std::collections::VecDeque;

use snaek::consts::{
    FOOD_SIZE, MAX_TICK_MICROS, MICROS_PER_INPUT_UPDATE, SCREEN_SIZE, SNAKE_START_HEIGHT,
    SNAKE_WIDTH, SPEED, TURN_MARGIN, WALL_MARGIN,
};
use snaek::placement::{first_clear, is_clear, scan_clear};
use snaek::{
    Coords, Direction, Food, GameData, GameState, InputQueue, Line, Rect, Segment, Snake, Turn,
};

fn total_len(s: &Snake) -> i64 {
    s.body
        .iter()
        .map(|seg| match seg {
            Segment::Line(l) => l.size(),
            Segment::Turn(t) => t.progress,
        })
        .sum()
}

fn game_with_food_far_away() -> GameData {
    let mut g = GameData::new();
    g.food = Food::at(Coords::new(1_000_000, 1_000_000));
    g
}

#[test]
fn debounce_interval_matches_speed() {
    let travel = SNAKE_WIDTH + TURN_MARGIN;
    assert!(MICROS_PER_INPUT_UPDATE as i64 * SPEED >= travel);
    assert!((MICROS_PER_INPUT_UPDATE as i64 - 1) * SPEED < travel);
    assert!(MAX_TICK_MICROS as i64 * SPEED < SNAKE_START_HEIGHT);
}

#[test]
fn new_snake_is_one_line_pointing_down() {
    let s = Snake::new(4_000_000, 4_000_000);
    assert_eq!(s.dir, Direction::Down);
    assert_eq!(s.body.len(), 1);
    assert_eq!(
        s.body[0],
        Segment::Line(Line {
            beg: Coords::new(4_000_000, 4_000_000 - SNAKE_START_HEIGHT / 2),
            end: Coords::new(4_000_000, 4_000_000 + SNAKE_START_HEIGHT / 2),
            dir: Direction::Down,
        })
    );
    assert_eq!(total_len(&s), SNAKE_START_HEIGHT);
}

#[test]
fn straight_moves_translate_a_single_line() {
    let mut s = Snake::new(4_000_000, 4_000_000);
    let dt: i64 = 16_000;
    for _ in 0..100 {
        s.do_move(SPEED * dt);
    }
    assert_eq!(s.dir, Direction::Down);
    assert_eq!(s.body.len(), 1);
    let shift = SPEED * dt * 100;
    assert_eq!(
        s.body[0],
        Segment::Line(Line {
            beg: Coords::new(4_000_000, 4_000_000 - SNAKE_START_HEIGHT / 2 + shift),
            end: Coords::new(4_000_000, 4_000_000 + SNAKE_START_HEIGHT / 2 + shift),
            dir: Direction::Down,
        })
    );
    assert_eq!(total_len(&s), SNAKE_START_HEIGHT);
}

#[test]
fn turning_puts_a_growing_turn_in_front() {
    let mut g = game_with_food_far_away();
    g.press_start();
    g.press_direction(Direction::Left);
    g.update_input(MICROS_PER_INPUT_UPDATE);
    assert_eq!(g.snake.dir, Direction::Left);
    g.update_snake(10_000);
    assert_eq!(g.snake.body.len(), 2);
    match g.snake.body[0] {
        Segment::Turn(t) => {
            assert_eq!(t.in_dir, Direction::Down);
            assert_eq!(t.out_dir, Direction::Left);
            assert!(t.progress > 0 && t.progress < SNAKE_WIDTH);
            assert_eq!(t.progress, 10_000 * SPEED);
            assert_eq!(t.pos, Coords::new(SCREEN_SIZE / 2, SCREEN_SIZE / 2 + SNAKE_START_HEIGHT / 2));
        }
        other => panic!("expected a turn, got {:?}", other),
    }
    assert_eq!(total_len(&g.snake), SNAKE_START_HEIGHT);
}

#[test]
fn long_move_completes_the_turn_and_adds_a_line() {
    let mut s = Snake::new(4_000_000, 4_000_000);
    s.dir = Direction::Right;
    s.do_move(SNAKE_WIDTH + 50_000);
    assert_eq!(s.body.len(), 3);
    match (s.body[0], s.body[1]) {
        (Segment::Line(l), Segment::Turn(t)) => {
            assert_eq!(l.dir, Direction::Right);
            assert_eq!(l.size(), 50_000);
            assert_eq!(l.beg, t.end());
            assert_eq!(t.progress, SNAKE_WIDTH);
            assert!(!t.is_growing);
        }
        other => panic!("unexpected front {:?}", other),
    }
    assert_eq!(total_len(&s), SNAKE_START_HEIGHT);
}

#[test]
fn shrinking_can_use_up_several_segments() {
    let tail = Line { beg: Coords::new(0, 0), end: Coords::new(0, 10_000), dir: Direction::Down };
    let mut turn = Turn::new(Coords::new(0, 10_000), Direction::Down, Direction::Right);
    turn.grow(SNAKE_WIDTH);
    let head = Line {
        beg: turn.end(),
        end: turn.end().add(Coords::new(1_000_000, 0)),
        dir: Direction::Right,
    };
    let mut body = VecDeque::new();
    body.push_back(Segment::Line(head));
    body.push_back(Segment::Turn(turn));
    body.push_back(Segment::Line(tail));
    let mut s = Snake { body, dir: Direction::Right };
    let before = total_len(&s);
    s.do_move(250_000);
    assert_eq!(total_len(&s), before);
    assert_eq!(s.body.len(), 1);
    match s.body[0] {
        Segment::Line(l) => assert_eq!(l.size(), 1_210_000),
        other => panic!("unexpected {:?}", other),
    }
}

#[test]
fn grow_without_shrink_adds_length() {
    let mut s = Snake::new(4_000_000, 4_000_000);
    s.grow(FOOD_SIZE);
    assert_eq!(total_len(&s), SNAKE_START_HEIGHT + FOOD_SIZE);
}

#[test]
fn collide_checks_every_segment() {
    let s = Snake::new(4_000_000, 4_000_000);
    assert!(s.collide(&Rect::new(4_000_000 - 50_000, 4_000_000, 100_000, 100_000)));
    assert!(!s.collide(&Rect::new(1_000_000, 1_000_000, 100_000, 100_000)));
}

#[test]
fn head_at_the_field_edge_does_not_hit_the_wall() {
    let line = Line {
        beg: Coords::new(SCREEN_SIZE - 1_000_000, 4_000_000),
        end: Coords::new(SCREEN_SIZE, 4_000_000),
        dir: Direction::Right,
    };
    let mut body = VecDeque::new();
    body.push_back(Segment::Line(line));
    let s = Snake { body, dir: Direction::Right };
    assert!(!s.wall_collide());
}

#[test]
fn head_just_within_the_wall_margin_does_not_hit_the_wall() {
    let line = Line {
        beg: Coords::new(2_000_000, 4_000_000),
        end: Coords::new(-WALL_MARGIN, 4_000_000),
        dir: Direction::Left,
    };
    let mut body = VecDeque::new();
    body.push_back(Segment::Line(line));
    let s = Snake { body, dir: Direction::Left };
    assert!(!s.wall_collide());
}

#[test]
fn head_beyond_the_wall_margin_hits_the_wall() {
    for (end, dir) in [
        (Coords::new(SCREEN_SIZE + WALL_MARGIN + 1, 4_000_000), Direction::Right),
        (Coords::new(-WALL_MARGIN - 1, 4_000_000), Direction::Left),
        (Coords::new(4_000_000, -WALL_MARGIN - 1), Direction::Up),
        (Coords::new(4_000_000, SCREEN_SIZE + WALL_MARGIN + 1), Direction::Down),
    ] {
        let beg = Coords::new(4_000_000, 4_000_000);
        let mut body = VecDeque::new();
        body.push_back(Segment::Line(Line { beg, end, dir }));
        let s = Snake { body, dir };
        assert!(s.wall_collide());
    }
}

#[test]
fn head_running_into_the_body_collides() {
    // turn right, up and left: the head comes back onto the body
    let mut s = Snake::new(4_000_000, 4_000_000);
    s.dir = Direction::Right;
    s.do_move(SNAKE_WIDTH);
    assert!(!s.self_collide());
    s.dir = Direction::Up;
    s.do_move(SNAKE_WIDTH);
    assert!(!s.self_collide());
    s.dir = Direction::Left;
    s.do_move(SNAKE_WIDTH);
    assert!(!s.self_collide());
    s.do_move(100_000);
    assert_eq!(s.body.len(), 5);
    assert!(s.self_collide());
    assert_eq!(total_len(&s), SNAKE_START_HEIGHT);
    let fresh = Snake::new(4_000_000, 4_000_000);
    assert!(!fresh.self_collide());
}

#[test]
fn duplicate_inputs_are_suppressed() {
    let mut q = InputQueue::new();
    q.push(Direction::Left);
    q.push(Direction::Left);
    assert_eq!(q.inputs.len(), 1);
    assert_eq!(q.update(1_000, Direction::Up), None);
    assert_eq!(q.inputs.len(), 1);
    assert_eq!(q.timer, 1_000);
    q.push(Direction::Right);
    q.push(Direction::Left);
    assert_eq!(q.inputs.len(), 3);
}

#[test]
fn reversal_is_discarded_once_the_interval_elapses() {
    let mut q = InputQueue::new();
    q.push(Direction::Down);
    q.push(Direction::Left);
    assert_eq!(q.update(MICROS_PER_INPUT_UPDATE - 1, Direction::Up), None);
    assert_eq!(q.inputs.len(), 2);
    assert_eq!(q.update(1, Direction::Up), Some(Direction::Left));
    assert_eq!(q.inputs.len(), 0);
    assert_eq!(q.timer, 0);
}

#[test]
fn input_update_keeps_entries_after_the_chosen_one() {
    let mut q = InputQueue::new();
    q.push(Direction::Up);
    q.push(Direction::Right);
    q.push(Direction::Up);
    assert_eq!(q.update(MICROS_PER_INPUT_UPDATE, Direction::Up), Some(Direction::Right));
    assert_eq!(q.inputs.len(), 1);
    assert_eq!(q.inputs[0], Direction::Up);
}

#[test]
fn input_update_without_a_turn_clears_the_queue() {
    let mut q = InputQueue::new();
    q.push(Direction::Down);
    q.push(Direction::Up);
    assert_eq!(q.update(MICROS_PER_INPUT_UPDATE + 5, Direction::Up), None);
    assert_eq!(q.inputs.len(), 0);
    assert_eq!(q.timer, MICROS_PER_INPUT_UPDATE + 5);
    q.clear();
    assert_eq!(q.timer, MICROS_PER_INPUT_UPDATE + 5);
}

#[test]
fn input_timer_saturates() {
    let mut q = InputQueue::new();
    q.update(u64::MAX - 1, Direction::Up);
    q.update(10, Direction::Up);
    assert_eq!(q.timer, u64::MAX);
}

#[test]
fn random_food_lies_in_the_field() {
    for _ in 0..200 {
        let f = Food::random();
        assert_eq!(f.bbox.w, FOOD_SIZE);
        assert_eq!(f.bbox.h, FOOD_SIZE);
        let cx = f.bbox.x + FOOD_SIZE / 2;
        let cy = f.bbox.y + FOOD_SIZE / 2;
        assert!(FOOD_SIZE <= cx && cx < SCREEN_SIZE - FOOD_SIZE);
        assert!(FOOD_SIZE <= cy && cy < SCREEN_SIZE - FOOD_SIZE);
    }
}

#[test]
fn food_at_a_point_is_centred_there() {
    let f = Food::at(Coords::new(500_000, 600_000));
    assert_eq!(f.bbox, Rect::new(400_000, 500_000, FOOD_SIZE, FOOD_SIZE));
}

#[test]
fn new_game_waits_with_food_clear_of_the_snake() {
    let g = GameData::new();
    assert_eq!(g.state, GameState::PreGame);
    assert_eq!(g.score, 0);
    assert_eq!(g.inputs.inputs.len(), 0);
    assert!(!g.snake.collide(&g.food.bbox));
    assert_eq!(g.snake.body.len(), 1);
}

#[test]
fn nothing_moves_before_the_start() {
    let mut g = game_with_food_far_away();
    let before = g.snake.body.clone();
    g.update(1_000_000);
    assert_eq!(g.snake.body, before);
    assert_eq!(g.state, GameState::PreGame);
}

#[test]
fn start_key_starts_and_clears_input() {
    let mut g = game_with_food_far_away();
    g.press_direction(Direction::Left);
    g.press_direction(Direction::Left);
    assert_eq!(g.inputs.inputs.len(), 1);
    g.press_start();
    assert_eq!(g.state, GameState::Game);
    assert_eq!(g.inputs.inputs.len(), 0);
    g.press_start();
    assert_eq!(g.state, GameState::Game);
}

#[test]
fn running_game_moves_the_snake_down() {
    let mut g = game_with_food_far_away();
    g.press_start();
    g.update(16_000);
    match g.snake.body[0] {
        Segment::Line(l) => {
            assert_eq!(l.end, Coords::new(SCREEN_SIZE / 2, SCREEN_SIZE / 2 + SNAKE_START_HEIGHT / 2 + 16_000 * SPEED));
        }
        other => panic!("unexpected {:?}", other),
    }
    assert_eq!(total_len(&g.snake), SNAKE_START_HEIGHT);
}

#[test]
fn long_frame_is_cut_into_steps() {
    let mut g = game_with_food_far_away();
    g.press_start();
    g.update(MAX_TICK_MICROS + 100_000);
    match g.snake.body[0] {
        Segment::Line(l) => {
            let moved = (MAX_TICK_MICROS as i64 + 100_000) * SPEED;
            assert_eq!(l.end, Coords::new(SCREEN_SIZE / 2, SCREEN_SIZE / 2 + SNAKE_START_HEIGHT / 2 + moved));
        }
        other => panic!("unexpected {:?}", other),
    }
}

#[test]
fn eating_grows_the_snake_and_moves_the_food() {
    let mut g = game_with_food_far_away();
    g.press_start();
    g.food = Food::at(Coords::new(SCREEN_SIZE / 2, SCREEN_SIZE / 2));
    assert!(g.snake.collide(&g.food.bbox));
    g.update(16_000);
    assert_eq!(g.score, 1);
    assert_eq!(g.state, GameState::Game);
    assert!(!g.snake.collide(&g.food.bbox));
    assert_eq!(total_len(&g.snake), SNAKE_START_HEIGHT + FOOD_SIZE);
}

#[test]
fn hitting_the_wall_resets_the_game() {
    let mut g = game_with_food_far_away();
    g.press_start();
    g.score = 3;
    g.press_direction(Direction::Right);
    let mut steps = 0;
    while g.state == GameState::Game {
        g.update(16_000);
        steps += 1;
        assert!(steps < 10_000);
    }
    assert_eq!(g.state, GameState::PreGame);
    assert_eq!(g.score, 0);
    assert_eq!(g.snake.body.len(), 1);
    assert_eq!(g.snake.dir, Direction::Down);
    assert_eq!(g.inputs.inputs.len(), 0);
}

#[test]
fn score_saturates() {
    let mut g = game_with_food_far_away();
    g.inc_score();
    assert_eq!(g.score, 1);
    g.score = u32::MAX;
    g.inc_score();
    assert_eq!(g.score, u32::MAX);
}

#[test]
fn relocated_food_is_clear_of_the_snake() {
    let mut g = game_with_food_far_away();
    g.food = Food::at(Coords::new(SCREEN_SIZE / 2, SCREEN_SIZE / 2));
    assert!(g.relocate_food());
    assert!(!g.snake.collide(&g.food.bbox));
    let kept = Food::at(Coords::new(1_000_000, 1_000_000));
    g.food = Food::at(Coords::new(1_000_000, 1_000_000));
    assert!(g.relocate_food());
    assert_eq!(g.food.bbox, kept.bbox);
}

#[test]
fn first_clear_takes_the_first_place_away_from_the_snake() {
    let s = Snake::new(4_000_000, 4_000_000);
    let on_snake = Coords::new(4_000_000, 4_000_000);
    let away = Coords::new(1_000_000, 1_000_000);
    let also_away = Coords::new(2_000_000, 1_000_000);
    assert!(!is_clear(&s, on_snake));
    assert!(is_clear(&s, away));
    assert_eq!(first_clear(&s, &vec![on_snake, away, also_away]), Some(1));
    assert_eq!(first_clear(&s, &vec![also_away, away]), Some(0));
    assert_eq!(first_clear(&s, &vec![on_snake, on_snake]), None);
    assert_eq!(first_clear(&s, &vec![]), None);
}

#[test]
fn scan_clear_searches_the_field_in_order() {
    let s = Snake::new(4_000_000, 4_000_000);
    assert_eq!(scan_clear(&s), Some(Coords::new(FOOD_SIZE, FOOD_SIZE)));
    // a snake lying over the first places of the first row
    let line = Line {
        beg: Coords::new(0, FOOD_SIZE),
        end: Coords::new(1_000_000, FOOD_SIZE),
        dir: Direction::Right,
    };
    let mut body = VecDeque::new();
    body.push_back(Segment::Line(line));
    let t = Snake { body, dir: Direction::Right };
    let c = scan_clear(&t).unwrap();
    assert_eq!(c.y, FOOD_SIZE);
    assert!(c.x > 1_000_000);
    assert!(is_clear(&t, c));
    assert!(!is_clear(&t, Coords::new(c.x - FOOD_SIZE, FOOD_SIZE)));
}

#[test]
fn food_of_a_reset_is_clear_and_in_the_field() {
    let mut g = game_with_food_far_away();
    g.press_start();
    g.reset();
    assert!(!g.snake.collide(&g.food.bbox));
    let cx = g.food.bbox.x + FOOD_SIZE / 2;
    let cy = g.food.bbox.y + FOOD_SIZE / 2;
    assert!(FOOD_SIZE <= cx && cx < SCREEN_SIZE - FOOD_SIZE);
    assert!(FOOD_SIZE <= cy && cy < SCREEN_SIZE - FOOD_SIZE);
    assert_eq!(g.state, GameState::PreGame);
}

use snake_game::{Direction, Food, Game, Key, SetupError, SnakePiece};

fn standard_game(food: Food) -> Game {
    Game::new(30, 20, 20, SnakePiece(15, 10), Direction::DOWN, food).unwrap()
}

#[test]
fn new_game_starts_from_nothing() {
    let g = standard_game(Food::new(1, 1));
    assert_eq!(g.cols(), 30);
    assert_eq!(g.rows(), 20);
    assert_eq!(g.square_width(), 20);
    assert_eq!(g.score(), 0);
    assert!(!g.just_eaten());
    assert!(!g.is_over());
    assert_eq!(g.snake().cells(), vec![SnakePiece(15, 10)]);
    assert_eq!(g.snake().heading(), Direction::DOWN);
    assert_eq!(g.snake().width(), 20);
    assert_eq!(g.food().cell(), SnakePiece(1, 1));
}

#[test]
fn setup_refuses_a_start_off_the_grid() {
    let cases = [(30, 20, 30, 10), (30, 20, 15, 20), (0, 20, 0, 0), (30, 0, 0, 0), (0, 0, 0, 0)];
    for (cols, rows, x, y) in cases {
        let made = Game::new(cols, rows, 20, SnakePiece(x, y), Direction::DOWN, Food::new(1, 1));
        assert_eq!(made.err(), Some(SetupError::StartOutside));
    }
    // A start off the grid is reported even when the food is off it too.
    let made = Game::new(1, 1, 20, SnakePiece(1, 1), Direction::DOWN, Food::new(1, 1));
    assert_eq!(made.err(), Some(SetupError::StartOutside));
}

#[test]
fn setup_refuses_food_off_the_grid() {
    let cases = [(30, 15), (1, 20), (30, 20)];
    for (x, y) in cases {
        let made = Game::new(30, 20, 20, SnakePiece(15, 10), Direction::DOWN, Food::new(x, y));
        assert_eq!(made.err(), Some(SetupError::FoodOutside));
    }
    // On a single cell the usual food cell (1,1) does not exist.
    let made = Game::new(1, 1, 20, SnakePiece(0, 0), Direction::DOWN, Food::new(1, 1));
    assert_eq!(made.err(), Some(SetupError::FoodOutside));
}

#[test]
fn setup_refuses_food_under_the_snake() {
    let made = Game::new(30, 20, 20, SnakePiece(15, 10), Direction::DOWN, Food::new(15, 10));
    assert_eq!(made.err(), Some(SetupError::FoodOnSnake));
    // On a 2 by 2 or 3 by 3 grid the middle cell is the usual food cell.
    for n in [2, 3] {
        let made = Game::new(n, n, 20, SnakePiece(n / 2, n / 2), Direction::DOWN, Food::new(1, 1));
        assert_eq!(made.err(), Some(SetupError::FoodOnSnake));
    }
}

#[test]
fn setup_accepts_the_smallest_playable_grid() {
    let g = Game::new(2, 1, 20, SnakePiece(0, 0), Direction::RIGHT, Food::new(1, 0)).unwrap();
    assert_eq!(g.snake().cells(), vec![SnakePiece(0, 0)]);
    assert_eq!(g.food().cell(), SnakePiece(1, 0));
}

#[test]
fn end_to_end_run_into_the_bottom_wall() {
    let mut g = standard_game(Food::new(1, 1));
    for k in 1..=9u32 {
        assert!(g.update());
        assert_eq!(g.snake().cells(), vec![SnakePiece(15, 10 + k)]);
        assert!(!g.just_eaten());
        assert_eq!(g.score(), 0);
        assert_eq!(g.food().cell(), SnakePiece(1, 1));
    }
    assert_eq!(g.snake().head(), SnakePiece(15, 19));
    assert!(!g.is_over());
    assert!(!g.update());
    assert!(g.is_over());
    assert_eq!(g.score(), 0);
    assert_eq!(g.snake().cells(), vec![SnakePiece(15, 19)]);
}

#[test]
fn end_to_end_meal_then_growth() {
    let mut g = standard_game(Food::new(15, 11));
    assert!(g.update());
    assert!(g.just_eaten());
    assert_eq!(g.score(), 0);
    assert_eq!(g.snake().cells(), vec![SnakePiece(15, 11)]);
    let moved_to = g.food().cell();
    assert!(moved_to.0 < 30 && moved_to.1 < 20);
    assert_ne!(moved_to, SnakePiece(15, 11));

    assert!(g.update());
    assert_eq!(g.score(), 1);
    assert_eq!(g.snake().cells(), vec![SnakePiece(15, 12), SnakePiece(15, 11)]);
    assert_eq!(g.just_eaten(), moved_to == SnakePiece(15, 12));
}

#[test]
fn a_tick_without_a_meal_keeps_score_and_length() {
    let mut g = standard_game(Food::new(1, 1));
    assert!(g.update());
    assert_eq!(g.score(), 0);
    assert_eq!(g.snake().len(), 1);
    assert!(!g.just_eaten());
}

#[test]
fn score_counts_each_meal_once() {
    // One row: the food can only ever be ahead of or behind the snake.
    let mut g = Game::new(40, 1, 20, SnakePiece(0, 0), Direction::RIGHT, Food::new(1, 0)).unwrap();
    let mut last_score = 0;
    let mut meals = 0;
    let mut ticks = 0;
    while g.update() {
        ticks += 1;
        assert!(g.score() >= last_score);
        assert!(g.score() <= last_score + 1);
        last_score = g.score();
        assert_eq!(g.snake().len() as u64, g.score() + 1);
        if g.just_eaten() {
            meals += 1;
        }
        let at = g.food().cell();
        assert!(at.0 < 40 && at.1 == 0);
        if g.snake().len() < 40 {
            assert!(!g.snake().is_collide(at.0, at.1));
        }
    }
    assert_eq!(ticks, 39);
    assert!(meals >= 1);
    assert!(g.score() <= meals);
    assert!(g.score() + 1 >= meals);
    assert!(g.is_over());
}

#[test]
fn the_only_free_cell_gets_the_food() {
    let mut g = Game::new(2, 1, 20, SnakePiece(0, 0), Direction::RIGHT, Food::new(1, 0)).unwrap();
    assert!(g.update());
    assert!(g.just_eaten());
    assert_eq!(g.snake().cells(), vec![SnakePiece(1, 0)]);
    assert_eq!(g.food().cell(), SnakePiece(0, 0));
    assert!(!g.update());
    assert!(g.is_over());
    assert!(g.just_eaten());
    assert_eq!(g.score(), 0);
}

#[test]
fn filling_the_grid_ends_the_game() {
    // On a 2 by 2 grid the snake goes round and round; wherever the food
    // lands, it lies on the way.
    let mut g = Game::new(2, 2, 20, SnakePiece(0, 0), Direction::RIGHT, Food::new(1, 0)).unwrap();
    let mut ticks = 0;
    loop {
        let key = match g.snake().head() {
            SnakePiece(0, 0) => Key::Right,
            SnakePiece(1, 0) => Key::Down,
            SnakePiece(1, 1) => Key::Left,
            _ => Key::Up,
        };
        g.pressed(key);
        if !g.update() {
            break;
        }
        ticks += 1;
        assert!(ticks < 100);
        assert_eq!(g.snake().len() as u64, g.score() + 1);
        let at = g.food().cell();
        assert!(at.0 < 2 && at.1 < 2);
        if g.snake().len() < 4 {
            assert!(!g.snake().is_collide(at.0, at.1));
        } else {
            // Nowhere left to put the food: it stays under the head.
            assert!(g.just_eaten());
            assert_eq!(at, g.snake().head());
        }
    }
    assert!(g.is_over());
    assert_eq!(g.snake().len(), 4);
    assert_eq!(g.score(), 3);
    assert!(g.just_eaten());
}

/// A small generator of numbers, the same on every run.
fn next_number(seed: &mut u64) -> u64 {
    *seed = seed.wrapping_mul(6364136223846793005).wrapping_add(1442695040888963407);
    *seed >> 33
}

/// The cell next to `from` towards `d`, if the grid has one.
fn neighbour(from: SnakePiece, d: Direction, cols: u32, rows: u32) -> Option<SnakePiece> {
    let (x, y) = (from.0 as i64, from.1 as i64);
    let (tx, ty) = match d {
        Direction::UP => (x, y - 1),
        Direction::DOWN => (x, y + 1),
        Direction::LEFT => (x - 1, y),
        Direction::RIGHT => (x + 1, y),
    };
    if tx < 0 || ty < 0 || tx >= cols as i64 || ty >= rows as i64 {
        None
    } else {
        Some(SnakePiece(tx as u32, ty as u32))
    }
}

/// A key press: now and then any key at all, mostly an arrow that keeps the
/// snake off the walls.
fn next_key(seed: &mut u64, head: SnakePiece, heading: Direction, cols: u32, rows: u32) -> Key {
    let arrows = [Key::Up, Key::Down, Key::Left, Key::Right, Key::Other];
    if next_number(seed) % 16 == 0 {
        return arrows[(next_number(seed) % 5) as usize];
    }
    let safe: Vec<Key> = arrows
        .iter()
        .copied()
        .filter(|k| match k.direction() {
            Some(d) => d != heading.opposite() && neighbour(head, d, cols, rows).is_some(),
            None => false,
        })
        .collect();
    safe[(next_number(seed) % safe.len() as u64) as usize]
}

/// What the rules say a move does to the body, worked out by hand: the new
/// body and whether the snake lives.
fn expected_move(
    body: &[SnakePiece],
    heading: Direction,
    grow: bool,
    cols: u32,
    rows: u32,
) -> (Vec<SnakePiece>, bool) {
    let target = match neighbour(body[0], heading, cols, rows) {
        Some(cell) => cell,
        None => return (body.to_vec(), false),
    };
    let mut kept = body.to_vec();
    if !grow {
        kept.pop();
    }
    if kept.contains(&target) {
        return (kept, false);
    }
    kept.insert(0, target);
    (kept, true)
}

#[test]
fn random_play_follows_the_rules() {
    let (cols, rows) = (4u32, 4u32);
    let mut seed = 2024u64;
    let mut deaths_by_wall = 0;
    let mut deaths_by_body = 0;
    let mut tails_lost_in_death = 0;
    let mut meals = 0;
    for _ in 0..300 {
        let mut g =
            Game::new(cols, rows, 20, SnakePiece(2, 2), Direction::DOWN, Food::new(1, 1)).unwrap();
        for _ in 0..2000 {
            let heading = g.snake().heading();
            let key = next_key(&mut seed, g.snake().head(), heading, cols, rows);
            g.pressed(key);
            let want_heading = match key.direction() {
                Some(d) if d != heading.opposite() => d,
                _ => heading,
            };
            assert_eq!(g.snake().heading(), want_heading);

            let body = g.snake().cells();
            let food = g.food().cell();
            let pending = g.just_eaten();
            let score = g.score();
            let (want_body, want_alive) = expected_move(&body, want_heading, pending, cols, rows);

            let alive = g.update();
            assert_eq!(alive, want_alive);
            assert_eq!(g.snake().cells(), want_body);
            assert_eq!(g.is_over(), !alive);
            if !alive {
                assert_eq!(g.score(), score);
                assert_eq!(g.just_eaten(), pending);
                assert_eq!(g.food().cell(), food);
                if neighbour(body[0], want_heading, cols, rows).is_none() {
                    deaths_by_wall += 1;
                } else {
                    deaths_by_body += 1;
                }
                if want_body.len() < body.len() {
                    tails_lost_in_death += 1;
                }
                break;
            }
            assert_eq!(g.score(), if pending { score + 1 } else { score });
            assert_eq!(g.snake().len() as u64, g.score() + 1);
            let eaten = want_body[0] == food;
            assert_eq!(g.just_eaten(), eaten);
            let at = g.food().cell();
            if eaten {
                meals += 1;
                assert!(at.0 < cols && at.1 < rows);
                assert!(!want_body.contains(&at));
            } else {
                assert_eq!(at, food);
            }
        }
        assert!(g.is_over());
    }
    assert!(deaths_by_wall > 0);
    assert!(deaths_by_body > 0);
    assert!(tails_lost_in_death > 0);
    assert!(meals > 0);
}

#[test]
fn a_finished_game_stays_finished() {
    let mut g = Game::new(5, 5, 20, SnakePiece(0, 2), Direction::LEFT, Food::new(1, 1)).unwrap();
    assert!(!g.update());
    assert!(g.is_over());
    for _ in 0..3 {
        assert!(!g.update());
        assert!(g.is_over());
        assert_eq!(g.score(), 0);
        assert_eq!(g.snake().cells(), vec![SnakePiece(0, 2)]);
        assert_eq!(g.food().cell(), SnakePiece(1, 1));
        assert!(!g.just_eaten());
    }
}

#[test]
fn arrow_keys_turn_the_snake() {
    let mut g = standard_game(Food::new(1, 1));
    g.pressed(Key::Left);
    assert_eq!(g.snake().heading(), Direction::LEFT);
    g.pressed(Key::Up);
    assert_eq!(g.snake().heading(), Direction::UP);
    g.pressed(Key::Right);
    assert_eq!(g.snake().heading(), Direction::RIGHT);
    g.pressed(Key::Down);
    assert_eq!(g.snake().heading(), Direction::DOWN);
    assert_eq!(g.snake().cells(), vec![SnakePiece(15, 10)]);
}

#[test]
fn a_key_that_reverses_is_ignored() {
    let mut g = standard_game(Food::new(1, 1));
    g.pressed(Key::Up);
    assert_eq!(g.snake().heading(), Direction::DOWN);
    g.pressed(Key::Right);
    g.pressed(Key::Left);
    assert_eq!(g.snake().heading(), Direction::RIGHT);
    g.pressed(Key::Up);
    g.pressed(Key::Down);
    assert_eq!(g.snake().heading(), Direction::UP);
    g.pressed(Key::Left);
    g.pressed(Key::Right);
    assert_eq!(g.snake().heading(), Direction::LEFT);
}

#[test]
fn other_keys_do_nothing() {
    let mut g = standard_game(Food::new(1, 1));
    g.pressed(Key::Other);
    assert_eq!(g.snake().heading(), Direction::DOWN);
    assert_eq!(Key::Other.direction(), None);
    assert_eq!(Key::Up.direction(), Some(Direction::UP));
    assert_eq!(Key::Down.direction(), Some(Direction::DOWN));
    assert_eq!(Key::Left.direction(), Some(Direction::LEFT));
    assert_eq!(Key::Right.direction(), Some(Direction::RIGHT));
}

#[test]
fn keys_do_nothing_once_the_game_is_over() {
    let mut g = Game::new(5, 5, 20, SnakePiece(0, 2), Direction::LEFT, Food::new(1, 1)).unwrap();
    assert!(!g.update());
    g.pressed(Key::Up);
    assert_eq!(g.snake().heading(), Direction::LEFT);
    g.pressed(Key::Down);
    assert_eq!(g.snake().heading(), Direction::LEFT);
}

#[test]
fn a_turn_takes_effect_on_the_next_tick() {
    let mut g = standard_game(Food::new(1, 1));
    g.pressed(Key::Left);
    assert!(g.update());
    assert_eq!(g.snake().cells(), vec![SnakePiece(14, 10)]);
}

use snake_game::direction::Direction;
use snake_game::game::{
    Game, Key, Outcome, Phase, GRID_HEIGHT, GRID_WIDTH, INITIAL_LENGTH, KEY_DOWN, KEY_LEFT,
    KEY_RIGHT, KEY_UP, SPEED,
};
use snake_game::symbol::Symbol;

const ALL: [Direction; 4] = [Direction::Left, Direction::Down, Direction::Up, Direction::Right];

fn body(game: &Game) -> Vec<(i32, i32)> {
    let snake = game.snake();
    (0..snake.len()).map(|i| snake.segment(i)).collect()
}

fn interior(pos: (i32, i32)) -> bool {
    1 <= pos.0 && pos.0 < GRID_WIDTH - 1 && 1 <= pos.1 && pos.1 < GRID_HEIGHT - 1
}

fn assert_ring_is_wall(game: &Game) {
    for y in 0..GRID_HEIGHT {
        for x in 0..GRID_WIDTH {
            if x == 0 || y == 0 || x == GRID_WIDTH - 1 || y == GRID_HEIGHT - 1 {
                assert_eq!(game.grid().symbol((x, y)), Symbol::Border);
            }
        }
    }
}

/// A running session with the food out of the way of the tests' paths.
fn running() -> Game {
    let mut game = Game::new();
    game.start_at((5, 5));
    game
}

#[test]
fn new_game_is_idle_on_an_empty_field() {
    let game = Game::new();
    assert_eq!((GRID_WIDTH, GRID_HEIGHT, INITIAL_LENGTH, SPEED), (40, 30, 3, 2));
    assert_eq!(game.phase(), Phase::Idle);
    assert_eq!(game.food(), None);
    assert_eq!(game.speed(), 2);
    assert_eq!(game.grid().width(), 40);
    assert_eq!(game.grid().height(), 30);
    assert_eq!(body(&game), vec![(20, 15), (20, 15), (20, 15)]);
    assert_eq!(game.snake().direction(), Direction::Up);
    for y in 0..30 {
        for x in 0..40 {
            assert_eq!(game.grid().symbol((x, y)), Symbol::Empty);
        }
    }
}

#[test]
fn start_at_places_food_and_draws_the_border() {
    let game = running();
    assert_eq!(game.phase(), Phase::Running);
    assert_eq!(game.food(), Some((5, 5)));
    assert_eq!(game.grid().symbol((5, 5)), Symbol::Food);
    assert_eq!(game.grid().colour((5, 5)), 1);
    assert_ring_is_wall(&game);
    assert_eq!(game.grid().symbol((20, 15)), Symbol::Empty);
}

#[test]
fn start_draws_food_inside_the_border() {
    let mut game = Game::new();
    game.start();
    assert_eq!(game.phase(), Phase::Running);
    let food = game.food().unwrap();
    assert!(interior(food));
    assert_eq!(game.grid().symbol(food), Symbol::Food);
    assert_ring_is_wall(&game);
}

#[test]
fn place_food_draws_varied_cells_inside_the_border() {
    let mut game = Game::new();
    let mut seen = Vec::new();
    for _ in 0..200 {
        game.place_food();
        let food = game.food().unwrap();
        assert!(interior(food));
        assert_eq!(game.grid().symbol(food), Symbol::Food);
        assert_eq!(game.grid().colour(food), 1);
        if !seen.contains(&food) {
            seen.push(food);
        }
    }
    assert!(seen.len() > 1);
    assert!(seen.iter().any(|p| p.0 != 1));
    assert!(seen.iter().any(|p| p.1 != 1));
}

#[test]
fn place_food_at_overwrites_the_cell_and_keeps_older_food_on_the_grid() {
    let mut game = running();
    game.place_food_at((7, 9));
    assert_eq!(game.food(), Some((7, 9)));
    assert_eq!(game.grid().symbol((7, 9)), Symbol::Food);
    assert_eq!(game.grid().symbol((5, 5)), Symbol::Food);
}

#[test]
fn get_input_decodes_arrows_mirrored() {
    let game = Game::new();
    assert_eq!(game.get_input(Some(Key::Code(260))), Some(Direction::Right));
    assert_eq!(game.get_input(Some(Key::Code(258))), Some(Direction::Down));
    assert_eq!(game.get_input(Some(Key::Code(259))), Some(Direction::Up));
    assert_eq!(game.get_input(Some(Key::Code(261))), Some(Direction::Left));
    assert_eq!((KEY_DOWN, KEY_UP, KEY_LEFT, KEY_RIGHT), (258, 259, 260, 261));
}

#[test]
fn get_input_decodes_letters_like_arrows() {
    let game = Game::new();
    assert_eq!(game.get_input(Some(Key::Char('h'))), Some(Direction::Right));
    assert_eq!(game.get_input(Some(Key::Char('j'))), Some(Direction::Down));
    assert_eq!(game.get_input(Some(Key::Char('k'))), Some(Direction::Up));
    assert_eq!(game.get_input(Some(Key::Char('l'))), Some(Direction::Left));
}

#[test]
fn get_input_maps_other_keys_to_the_current_heading() {
    let mut game = running();
    assert_eq!(game.get_input(Some(Key::Code(0))), Some(Direction::Up));
    assert_eq!(game.get_input(Some(Key::Char('x'))), Some(Direction::Up));
    assert_eq!(game.get_input(Some(Key::Char('H'))), Some(Direction::Up));
    game.tick(Some(Direction::Left));
    assert_eq!(game.get_input(Some(Key::Code(262))), Some(Direction::Left));
    assert_eq!(game.get_input(Some(Key::Char(' '))), Some(Direction::Left));
}

#[test]
fn get_input_without_a_key_asks_for_nothing() {
    let game = Game::new();
    assert_eq!(game.get_input(None), None);
}

#[test]
fn resolve_direction_rejects_only_the_reversal() {
    let mut game = running();
    let mut current = Direction::Up;
    for next in [Direction::Left, Direction::Down, Direction::Right, Direction::Up] {
        assert_eq!(game.snake().direction(), current);
        for requested in ALL {
            let expected = if requested == current.opposite() { current } else { requested };
            assert_eq!(game.resolve_direction(Some(requested)), expected);
        }
        assert_eq!(game.resolve_direction(Some(current.opposite())), current);
        assert_eq!(game.resolve_direction(None), current);
        assert_eq!(game.tick(Some(next)), Outcome::Moved);
        current = next;
    }
}

#[test]
fn first_tick_up_moves_the_head_up_and_cuts_the_tail() {
    let mut game = running();
    let outcome = game.tick(Some(Direction::Up));
    assert_eq!(outcome, Outcome::Moved);
    assert_eq!(game.phase(), Phase::Running);
    assert_eq!(game.snake().direction(), Direction::Up);
    assert_eq!(body(&game), vec![(20, 14), (20, 15), (20, 15)]);
    assert_eq!(game.snake().len(), 3);
    assert_eq!(game.snake().length(), 3);
    assert!(game.snake().dirty_nodes().is_empty());
    assert_eq!(game.grid().symbol((20, 14)), Symbol::Head);
    assert_eq!(game.grid().colour((20, 14)), 1);
    // The old head's joint was recorded first and the tail's cell, the same
    // one while the body is coiled up, last: the later entry stays.
    assert_eq!(game.grid().symbol((20, 15)), Symbol::Empty);
    assert_eq!(game.grid().colour((20, 15)), 0);
}

#[test]
fn tick_without_input_keeps_the_heading() {
    let mut game = running();
    assert_eq!(game.tick(Some(Direction::Left)), Outcome::Moved);
    assert_eq!(game.tick(None), Outcome::Moved);
    assert_eq!(game.snake().direction(), Direction::Left);
    assert_eq!(body(&game), vec![(22, 15), (21, 15), (20, 15)]);
}

#[test]
fn tick_asked_to_reverse_keeps_the_heading() {
    let mut game = running();
    assert_eq!(game.tick(Some(Direction::Down)), Outcome::Moved);
    assert_eq!(game.snake().direction(), Direction::Up);
    assert_eq!(game.snake().segment(0), (20, 14));
}

#[test]
fn tick_unfolds_the_snake_and_draws_its_body() {
    let mut game = running();
    game.tick(Some(Direction::Up));
    game.tick(Some(Direction::Up));
    game.tick(Some(Direction::Up));
    game.tick(Some(Direction::Right));
    assert_eq!(body(&game), vec![(19, 12), (20, 12), (20, 13)]);
    assert_eq!(game.grid().symbol((19, 12)), Symbol::HeadR);
    assert_eq!(game.grid().symbol((20, 12)), Symbol::BodyLR);
    assert_eq!(game.grid().symbol((20, 13)), Symbol::BodyV);
    assert_eq!(game.grid().symbol((20, 14)), Symbol::Empty);
    assert_eq!(game.grid().colour((20, 12)), 1);
}

#[test]
fn tick_into_the_border_ends_the_session_and_leaves_the_body_alone() {
    let mut game = running();
    for step in 1..20 {
        assert_eq!(game.tick(Some(Direction::Right)), Outcome::Moved);
        assert_eq!(game.snake().segment(0), (20 - step, 15));
        assert_eq!(game.snake().len(), 3);
    }
    assert_eq!(body(&game), vec![(1, 15), (2, 15), (3, 15)]);
    assert_eq!(game.snake().direction(), Direction::Right);
    let outcome = game.tick(None);
    assert_eq!(outcome, Outcome::Collided);
    assert_eq!(game.phase(), Phase::GameOver);
    // The head was pushed onto the wall; the tail was not cut.
    assert_eq!(body(&game), vec![(0, 15), (1, 15), (2, 15), (3, 15)]);
    assert_eq!(game.snake().length(), 3);
    // The grid was not touched: the two recorded changes stay pending.
    assert_eq!(game.grid().symbol((0, 15)), Symbol::Border);
    assert_eq!(game.grid().symbol((1, 15)), Symbol::HeadR);
    assert_eq!(
        game.snake().dirty_nodes(),
        &vec![((1, 15), Symbol::BodyH, 1), ((0, 15), Symbol::HeadR, 1)]
    );
    assert_ring_is_wall(&game);
}

#[test]
fn tick_into_the_body_ends_the_session() {
    let mut game = running();
    game.place_food_at((20, 14));
    game.place_food_at((20, 13));
    assert_eq!(game.tick(Some(Direction::Up)), Outcome::Ate);
    game.place_food_at((5, 5));
    // The first food was eaten; the second lies ahead.
    game.place_food_at((20, 13));
    assert_eq!(game.tick(Some(Direction::Up)), Outcome::Ate);
    assert_eq!(game.snake().len(), 5);
    assert_eq!(game.tick(Some(Direction::Left)), Outcome::Moved);
    assert_eq!(game.tick(Some(Direction::Down)), Outcome::Moved);
    assert_eq!(body(&game), vec![(21, 14), (21, 13), (20, 13), (20, 14), (20, 15)]);
    assert_eq!(game.grid().symbol((20, 14)), Symbol::BodyV);
    let outcome = game.tick(Some(Direction::Right));
    assert_eq!(outcome, Outcome::Collided);
    assert_eq!(game.phase(), Phase::GameOver);
    assert_eq!(game.snake().len(), 6);
    assert_eq!(game.snake().segment(0), (20, 14));
    assert_eq!(game.grid().symbol((20, 14)), Symbol::BodyV);
}

#[test]
fn tick_onto_food_grows_the_snake_and_places_new_food() {
    let mut game = Game::new();
    game.start_at((20, 14));
    let outcome = game.tick(Some(Direction::Up));
    assert_eq!(outcome, Outcome::Ate);
    assert_eq!(game.phase(), Phase::Running);
    assert_eq!(game.snake().length(), 4);
    assert_eq!(game.snake().len(), 4);
    assert_eq!(body(&game), vec![(20, 14), (20, 15), (20, 15), (20, 15)]);
    assert!(game.snake().dirty_nodes().is_empty());
    let food = game.food().unwrap();
    assert!(interior(food));
    // The snake's cells are written after the food: where the new food was
    // drawn under the old or the new head, the snake covers it.
    if food == (20, 14) {
        assert_eq!(game.grid().symbol(food), Symbol::Head);
    } else if food == (20, 15) {
        assert_eq!(game.grid().symbol(food), Symbol::BodyV);
    } else {
        assert_eq!(game.grid().symbol(food), Symbol::Food);
        assert_eq!(game.grid().symbol((20, 14)), Symbol::Head);
        assert_eq!(game.grid().symbol((20, 15)), Symbol::BodyV);
    }
    assert_ring_is_wall(&game);
}

#[test]
fn ticks_keep_the_wall_whatever_the_snake_does() {
    let mut game = Game::new();
    game.start();
    let turns = [Direction::Left, Direction::Up, Direction::Right, Direction::Down];
    let mut played = 0;
    'session: for round in 0..200 {
        for _ in 0..(1 + round % 5) {
            let before = game.snake().len();
            let outcome = game.tick(Some(turns[round % 4]));
            played += 1;
            assert_ring_is_wall(&game);
            match outcome {
                Outcome::Moved => assert_eq!(game.snake().len(), before),
                Outcome::Ate => assert_eq!(game.snake().len(), before + 1),
                Outcome::Collided => {
                    assert_eq!(game.snake().len(), before + 1);
                    assert_eq!(game.phase(), Phase::GameOver);
                    break 'session;
                }
            }
            assert!(interior(game.snake().segment(0)));
            assert!(interior(game.food().unwrap()));
        }
    }
    assert!(played > 0);
}

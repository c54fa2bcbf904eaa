use snake_game::{
    contains, Draw, Duple, Food, Game, Heading, KeyEvent, Message, Player, BOARD_HEIGHT,
    BOARD_WIDTH, TRAIL_CAPACITY,
};

fn food_cells(game: &Game) -> Vec<Duple> {
    let mut cells = Vec::new();
    for x in 0..BOARD_WIDTH {
        for y in 0..BOARD_HEIGHT {
            if game.food().occupied(y, x) {
                cells.push(Duple::new(x, y));
            }
        }
    }
    cells
}

fn game_at(x: usize, y: usize, heading: Option<Heading>, target: usize) -> Game {
    let mut player = Player::place(x as u64, y as u64);
    if let Some(heading) = heading {
        player.set_heading(heading);
    }
    Game::from_parts(player, Food::new(target))
}

fn play(game: &mut Game) -> Vec<Draw> {
    assert!(game.ready());
    game.tick()
}

fn snapshot(game: &Game) -> (Duple, Option<Heading>, usize, usize, i64, bool, Vec<Duple>, usize) {
    (
        game.player().position(),
        game.player().heading(),
        game.player().segments_alive(),
        game.score(),
        game.tick_count(),
        game.is_running(),
        food_cells(game),
        game.food().total_spawned(),
    )
}

fn first_steps(game: &mut Game, steps: usize) -> Vec<(Duple, Option<Heading>, usize, usize, i64, bool, Vec<Duple>, usize)> {
    let keys = [Heading::Right, Heading::Down, Heading::Left, Heading::Down];
    let mut trace = vec![snapshot(game)];
    for step in 0..steps {
        if step % 5 == 0 {
            game.key(KeyEvent::Arrow(keys[(step / 5) % keys.len()]));
        }
        play(game);
        trace.push(snapshot(game));
    }
    trace
}

#[test]
fn a_new_game_is_running_with_nothing_played() {
    let game = Game::new();
    assert_eq!(game.score(), 0);
    assert_eq!(game.tick_count(), 0);
    assert!(game.is_running());
    assert!(game.ready());
    assert!(contains(game.player().position()));
    assert_eq!(game.player().heading(), None);
    assert_eq!(game.player().segments_alive(), 1);
    assert!(!game.player().has_moved());
    assert!(!game.player().at_edge());
    assert_eq!(game.food().live_count(), 0);
    assert_eq!(game.food().total_spawned(), 0);
    assert_eq!(game.food().target_count(), 1);
}

#[test]
fn the_first_tick_spawns_one_item_in_the_interior() {
    let mut game = Game::new();
    play(&mut game);
    let cells = food_cells(&game);
    let head = game.player().position();
    assert_eq!(game.tick_count(), 1);
    assert!(game.is_running());
    assert_eq!(game.food().total_spawned(), 1);
    assert_eq!(game.score() + cells.len(), 1);
    assert_eq!(game.player().segments_alive(), game.score() + 1);
    for cell in cells {
        assert!(0 < cell.x && cell.x < BOARD_WIDTH - 1 && 0 < cell.y && cell.y < BOARD_HEIGHT - 1);
        assert!(cell != head);
    }
}

#[test]
fn three_ticks_move_the_player_one_cell_right() {
    let mut game = game_at(40, 12, None, 0);
    game.key(KeyEvent::Arrow(Heading::Right));
    for tick in 1..=3 {
        play(&mut game);
        assert_eq!(game.player().position(), Duple::new(41, 12));
        assert_eq!(game.tick_count(), tick);
        assert_eq!(game.score(), 0);
        assert!(game.is_running());
    }
    play(&mut game);
    assert_eq!(game.player().position(), Duple::new(42, 12));
    assert_eq!(game.score(), 0);
    assert!(game.is_running());
}

#[test]
fn three_ticks_of_a_new_game_move_one_cell_or_meet_the_edge() {
    let mut game = Game::new();
    let start = game.player().position();
    game.key(KeyEvent::Arrow(Heading::Right));
    for _ in 0..3 {
        if game.is_running() {
            play(&mut game);
        }
    }
    match Heading::Right.step_from(start) {
        Some(next) => {
            assert_eq!(game.player().position(), next);
            assert!(game.is_running());
            assert!(!game.player().at_edge());
            assert_eq!(game.tick_count(), 3);
        }
        None => {
            assert_eq!(game.player().position(), start);
            assert!(!game.is_running());
            assert!(game.player().at_edge());
        }
    }
}

#[test]
fn a_player_without_a_heading_stays_and_the_game_runs() {
    let mut game = game_at(0, 0, None, 1);
    for _ in 0..9 {
        play(&mut game);
    }
    assert_eq!(game.player().position(), Duple::new(0, 0));
    assert!(game.is_running());
    assert_eq!(game.tick_count(), 9);
    assert_eq!(game.score(), 0);
    assert_eq!(game.food().live_count(), 1);
}

#[test]
fn meeting_the_edge_ends_the_run() {
    let mut player = Player::place(0, 7);
    player.set_heading(Heading::Left);
    player.advance();
    assert!(player.at_edge());
    let mut game = Game::from_parts(player, Food::new(0));
    assert!(game.is_running());
    play(&mut game);
    assert!(!game.is_running());
    assert_eq!(game.player().position(), Duple::new(0, 7));
    assert_eq!(game.tick_count(), 1);
    assert_eq!(game.score(), 0);
}

#[test]
fn heading_left_from_column_one_ends_the_run_on_the_second_move() {
    let mut game = game_at(1, 7, Some(Heading::Left), 0);
    play(&mut game);
    assert_eq!(game.player().position(), Duple::new(0, 7));
    assert!(!game.player().at_edge());
    assert!(game.is_running());
    play(&mut game);
    play(&mut game);
    assert!(game.is_running());
    play(&mut game);
    assert!(game.player().at_edge());
    assert!(!game.is_running());
    assert_eq!(game.player().position(), Duple::new(0, 7));
    assert_eq!(game.tick_count(), 4);
}

#[test]
fn eating_scores_grows_and_clears_the_cell() {
    let mut player = Player::place(5, 5);
    player.set_heading(Heading::Right);
    let mut food = Food::new(0);
    assert!(food.place(Duple::new(6, 5)));
    let mut game = Game::from_parts(player, food);
    assert_eq!(game.score(), 0);
    assert_eq!(game.player().segments_alive(), 1);
    play(&mut game);
    assert_eq!(game.player().position(), Duple::new(6, 5));
    assert_eq!(game.score(), 1);
    assert_eq!(game.player().segments_alive(), 2);
    assert!(!game.food().occupied(5, 6));
    assert_eq!(game.food().live_count(), 0);
    assert_eq!(game.food().total_spawned(), 1);
    assert!(game.is_running());
}

#[test]
fn turn_plays_on_the_food_as_it_lies() {
    let mut player = Player::place(5, 5);
    player.set_heading(Heading::Down);
    let mut food = Food::new(3);
    assert!(food.place(Duple::new(5, 6)));
    assert!(food.place(Duple::new(5, 7)));
    let mut game = Game::from_parts(player, food);
    game.turn();
    assert_eq!(game.player().position(), Duple::new(5, 6));
    assert_eq!(game.score(), 1);
    assert_eq!(food_cells(&game), vec![Duple::new(5, 7)]);
    assert_eq!(game.tick_count(), 1);
    game.turn();
    game.turn();
    assert_eq!(game.player().position(), Duple::new(5, 6));
    assert_eq!(game.score(), 1);
    game.turn();
    assert_eq!(game.player().position(), Duple::new(5, 7));
    assert_eq!(game.score(), 2);
    assert_eq!(game.player().segments_alive(), 3);
    assert!(food_cells(&game).is_empty());
    assert_eq!(game.food().total_spawned(), 2);
}

#[test]
fn food_under_the_head_is_eaten_without_a_move() {
    let player = Player::place(5, 5);
    let mut food = Food::new(0);
    assert!(food.place(Duple::new(5, 5)));
    let mut game = Game::from_parts(player, food);
    play(&mut game);
    assert_eq!(game.score(), 1);
    assert_eq!(game.player().segments_alive(), 2);
    assert_eq!(game.player().position(), Duple::new(5, 5));
    assert!(game.is_running());
}

#[test]
fn running_into_the_body_ends_the_run() {
    let mut player = Player::place(10, 10);
    for _ in 0..4 {
        player.eat();
    }
    for heading in [Heading::Right, Heading::Down, Heading::Left, Heading::Up] {
        player.set_heading(heading);
        player.advance();
    }
    player.set_heading(Heading::Right);
    let mut game = Game::from_parts(player, Food::new(0));
    assert_eq!(game.score(), 4);
    play(&mut game);
    assert_eq!(game.player().position(), Duple::new(11, 10));
    assert!(game.player().check_collision_self());
    assert!(!game.player().at_edge());
    assert!(!game.is_running());
}

#[test]
fn a_game_that_is_over_ignores_ticks() {
    let mut game = game_at(79, 3, Some(Heading::Right), 1);
    play(&mut game);
    assert!(!game.is_running());
    let over = snapshot(&game);
    for _ in 0..5 {
        assert!(game.ready());
        let frame = game.tick();
        assert_eq!(frame, vec![Message::Restart.draw()]);
        assert_eq!(snapshot(&game), over);
    }
    game.turn();
    assert_eq!(snapshot(&game), over);
}

#[test]
fn arrows_steer_the_player_whatever_the_state() {
    let mut game = game_at(10, 10, None, 0);
    game.key(KeyEvent::Arrow(Heading::Up));
    assert_eq!(game.player().heading(), Some(Heading::Up));
    assert!(game.player().has_moved());
    assert_eq!(game.player().position(), Duple::new(10, 10));
    game.key(KeyEvent::Arrow(Heading::Down));
    assert_eq!(game.player().heading(), Some(Heading::Up));
    game.key(KeyEvent::Arrow(Heading::Left));
    assert_eq!(game.player().heading(), Some(Heading::Left));
    assert_eq!(game.tick_count(), 0);
}

#[test]
fn other_keys_change_nothing() {
    let mut game = game_at(10, 10, Some(Heading::Up), 0);
    play(&mut game);
    let before = snapshot(&game);
    game.key(KeyEvent::Other);
    game.key(KeyEvent::Unicode('x'));
    game.key(KeyEvent::Unicode('R'));
    game.key(KeyEvent::Unicode('r'));
    assert_eq!(snapshot(&game), before);
}

#[test]
fn r_restarts_a_game_that_is_over() {
    let mut game = game_at(79, 3, Some(Heading::Right), 1);
    play(&mut game);
    assert!(!game.is_running());
    game.key(KeyEvent::Unicode('x'));
    assert!(!game.is_running());
    game.key(KeyEvent::Unicode('r'));
    assert!(game.is_running());
    assert_eq!(game.score(), 0);
    assert_eq!(game.tick_count(), 0);
    assert_eq!(snapshot(&game), snapshot(&Game::new()));
}

#[test]
fn reset_restores_a_new_game() {
    let mut game = Game::new();
    game.key(KeyEvent::Arrow(Heading::Down));
    for _ in 0..12 {
        if game.is_running() {
            play(&mut game);
        }
    }
    game.reset();
    assert_eq!(game.score(), 0);
    assert_eq!(game.tick_count(), 0);
    assert!(game.is_running());
    assert_eq!(game.player().heading(), None);
    assert_eq!(game.player().segments_alive(), 1);
    assert!(!game.player().has_moved());
    assert!(!game.player().at_edge());
    assert_eq!(game.food().live_count(), 0);
    assert_eq!(game.food().total_spawned(), 0);
    assert_eq!(snapshot(&game), snapshot(&Game::new()));
}

#[test]
fn reset_reproduces_the_first_steps() {
    let mut game = Game::new();
    let first = first_steps(&mut game, 40);
    game.reset();
    let second = first_steps(&mut game, 40);
    assert_eq!(first, second);
    let mut other = Game::new();
    assert_eq!(first_steps(&mut other, 40), first);
    assert_eq!(first.len(), 41);
}

#[test]
fn a_full_trail_leaves_the_game_unready() {
    let mut player = Player::place(10, 10);
    for _ in 1..TRAIL_CAPACITY {
        player.eat();
    }
    let game = Game::from_parts(player, Food::new(1));
    assert_eq!(game.score(), TRAIL_CAPACITY - 1);
    assert!(game.is_running());
    assert!(!game.ready());
}

#[test]
fn from_parts_scores_the_segments_gained() {
    let mut player = Player::place(10, 10);
    player.eat();
    player.eat();
    let game = Game::from_parts(player, Food::new(1));
    assert_eq!(game.score(), 2);
    assert_eq!(game.tick_count(), 0);
    assert!(game.is_running());
    assert!(game.ready());
}

#[test]
fn a_tick_spawns_where_an_item_is_missing() {
    let mut game = game_at(0, 0, None, 1);
    for tick in 1..=3 {
        play(&mut game);
        assert_eq!(game.food().live_count(), 1);
        assert_eq!(game.food().total_spawned(), 1);
        assert_eq!(game.tick_count(), tick);
    }
    let cell = food_cells(&game)[0];
    let mut eaten = Food::new(1);
    assert!(eaten.place(cell));
    assert!(eaten.consume(cell));
    let mut again = Game::from_parts(Player::place(0, 0), eaten);
    play(&mut again);
    assert_eq!(again.food().live_count(), 1);
    assert_eq!(again.food().total_spawned(), 2);
}

#[test]
fn a_player_at_the_edge_that_has_moved_ends_the_run_on_any_tick() {
    let mut player = Player::place(79, 3);
    player.right();
    assert!(player.at_edge() && player.has_moved());
    let mut game = Game::from_parts(player, Food::new(1));
    assert!(game.is_running());
    play(&mut game);
    assert!(!game.is_running());
    assert_eq!(game.tick_count(), 1);
}

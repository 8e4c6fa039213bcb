use snake::constants::{EASY_MODE_FIXED_TIMESTEP_MS, HALF_EXTENT, HARD_MODE_FIXED_TIMESTEP_MS, NORMAL_MODE_FIXED_TIMESTEP_MS};
use snake::data::{AppState, Difficulty, Direction, Food, InGameState, MenuButtonAction, PauseStateRes, Snake, SnakeLength, SnakeNode, SnakeType};
use snake::food::{create_food_bundle, first_free_cell, is_listed};
use snake::game::{is_not_pause_state, setup_snake_and_food, Game};
use snake::interaction::{button_click_system, change_direction_key_event, game_state_key_event, menu_key_action, requested_direction};
use snake::schedule::{difficulty_timestep_ms, FixedTimestep};
use snake::update::{should_eat_food, snake_move, tick};

fn node(snake_type: SnakeType, x: i32, y: i32) -> SnakeNode {
    SnakeNode { snake_type, x, y }
}

fn cells(game: &Game) -> Vec<(i32, i32)> {
    game.snake.nodes.iter().map(|n| (n.x, n.y)).collect()
}

/// A running round with the given snake (head first) and food.
fn playing(nodes: Vec<SnakeNode>, food: Option<Food>) -> Game {
    let mut game = Game::new();
    let len = nodes.len();
    game.snake = Snake { nodes };
    game.food = food;
    game.score = SnakeLength(len - 1);
    game.app_state = AppState::InGame;
    game.game_state = InGameState::Playing;
    game
}

fn started(level: MenuButtonAction) -> Game {
    let mut game = Game::new();
    assert!(!button_click_system(&mut game, level));
    game
}

fn assert_distinct(game: &Game) {
    let c = cells(game);
    for i in 0..c.len() {
        for j in (i + 1)..c.len() {
            assert_ne!(c[i], c[j]);
        }
    }
}

fn assert_chain(game: &Game) {
    let c = cells(game);
    for i in 1..c.len() {
        let d = (c[i].0 - c[i - 1].0).abs() + (c[i].1 - c[i - 1].1).abs();
        assert_eq!(d, 1);
    }
}

#[test]
fn pause_state_combines_both_flags() {
    assert!(!PauseStateRes::new(false, false).is_pause_state());
    assert!(PauseStateRes::new(true, false).is_pause_state());
    assert!(PauseStateRes::new(false, true).is_pause_state());
    assert!(PauseStateRes::new(true, true).is_pause_state());
    assert!(is_not_pause_state(&PauseStateRes::new(false, false)));
    assert!(!is_not_pause_state(&PauseStateRes::new(false, true)));
}

#[test]
fn move_of_three_segments_to_the_right() {
    let mut game = playing(
        vec![
            node(SnakeType::Head(Direction::Right), 2, 0),
            node(SnakeType::Body, 1, 0),
            node(SnakeType::Body, 0, 0),
        ],
        Some(Food { x: -5, y: 5 }),
    );
    tick(&mut game);
    assert_eq!(cells(&game), vec![(3, 0), (2, 0), (1, 0)]);
    assert_eq!(game.snake.nodes[0].snake_type, SnakeType::Head(Direction::Right));
    assert_eq!(game.snake.nodes[1].snake_type, SnakeType::Body);
    assert_eq!(game.snake.nodes[2].snake_type, SnakeType::Body);
    assert_eq!(game.score, SnakeLength(2));
    assert_eq!(game.game_state, InGameState::Playing);
    assert_eq!(game.food, Some(Food { x: -5, y: 5 }));
}

#[test]
fn eating_food_just_ahead() {
    let mut game = playing(
        vec![node(SnakeType::Head(Direction::Right), 2, 0), node(SnakeType::Body, 1, 0)],
        Some(Food { x: 3, y: 0 }),
    );
    tick(&mut game);
    assert_eq!(cells(&game), vec![(3, 0), (2, 0), (1, 0)]);
    assert_eq!(game.snake.nodes[0].snake_type, SnakeType::Head(Direction::Right));
    assert_eq!(game.snake.nodes[1].snake_type, SnakeType::Body);
    assert_eq!(game.score, SnakeLength(2));
    assert_eq!(game.game_state, InGameState::Playing);
    let food = game.food.expect("food is placed again");
    assert!(!cells(&game).contains(&(food.x, food.y)));
    assert!(food.x.abs() <= HALF_EXTENT && food.y.abs() <= HALF_EXTENT);
}

#[test]
fn should_eat_food_grows_without_moving() {
    let mut game = playing(vec![node(SnakeType::Head(Direction::Up), 0, 0)], Some(Food { x: 0, y: 1 }));
    assert!(should_eat_food(&mut game));
    assert_eq!(cells(&game), vec![(0, 1), (0, 0)]);
    assert_eq!(game.snake.nodes[0].snake_type, SnakeType::Head(Direction::Up));
    assert_eq!(game.snake.nodes[1].snake_type, SnakeType::Body);
    assert_eq!(game.score, SnakeLength(1));
    game.food = Some(Food { x: -6, y: -6 });
    snake_move(&mut game);
    assert_eq!(cells(&game), vec![(0, 2), (0, 1)]);
    assert_eq!(game.score, SnakeLength(1));
}

#[test]
fn food_elsewhere_is_not_eaten() {
    let mut game = playing(vec![node(SnakeType::Head(Direction::Up), 0, 0)], Some(Food { x: 1, y: 1 }));
    assert!(!should_eat_food(&mut game));
    assert_eq!(cells(&game), vec![(0, 0)]);
    snake_move(&mut game);
    assert_eq!(cells(&game), vec![(0, 1)]);
    assert_eq!(game.score, SnakeLength(0));
}

#[test]
fn reversal_is_refused() {
    let mut game = playing(
        vec![
            node(SnakeType::Head(Direction::Right), 2, 0),
            node(SnakeType::Body, 1, 0),
            node(SnakeType::Body, 0, 0),
        ],
        None,
    );
    change_direction_key_event(&mut game, true, false, false, false);
    assert_eq!(game.snake.nodes[0].snake_type, SnakeType::Head(Direction::Right));
    change_direction_key_event(&mut game, false, false, true, false);
    assert_eq!(game.snake.nodes[0].snake_type, SnakeType::Head(Direction::Up));
    assert_eq!(cells(&game), vec![(2, 0), (1, 0), (0, 0)]);
}

#[test]
fn a_lone_head_takes_any_direction() {
    let mut game = playing(vec![node(SnakeType::Unknown, -1, 0)], None);
    tick(&mut game);
    assert_eq!(cells(&game), vec![(-1, 0)]);
    change_direction_key_event(&mut game, false, true, false, false);
    assert_eq!(game.snake.nodes[0].snake_type, SnakeType::Head(Direction::Right));
    change_direction_key_event(&mut game, true, false, false, false);
    assert_eq!(game.snake.nodes[0].snake_type, SnakeType::Head(Direction::Left));
}

#[test]
fn direction_keys_are_ignored_when_paused_or_over() {
    let mut game = playing(vec![node(SnakeType::Head(Direction::Up), 0, 0)], None);
    game.pause.lose_focus_pause = true;
    change_direction_key_event(&mut game, true, false, false, false);
    assert_eq!(game.snake.nodes[0].snake_type, SnakeType::Head(Direction::Up));
    game.pause.lose_focus_pause = false;
    game.game_state = InGameState::GameOver;
    change_direction_key_event(&mut game, true, false, false, false);
    assert_eq!(game.snake.nodes[0].snake_type, SnakeType::Head(Direction::Up));
}

#[test]
fn later_keys_override_earlier_ones() {
    assert_eq!(requested_direction(false, false, false, false), None);
    assert_eq!(requested_direction(true, false, false, false), Some(Direction::Left));
    assert_eq!(requested_direction(true, true, false, false), Some(Direction::Right));
    assert_eq!(requested_direction(true, true, true, false), Some(Direction::Up));
    assert_eq!(requested_direction(true, true, true, true), Some(Direction::Down));
    assert_eq!(requested_direction(true, false, true, false), Some(Direction::Up));
}

#[test]
fn boundary_crossing_ends_the_round_on_that_tick() {
    let mut game = playing(vec![node(SnakeType::Head(Direction::Right), HALF_EXTENT - 1, 0)], None);
    tick(&mut game);
    assert_eq!(cells(&game), vec![(HALF_EXTENT, 0)]);
    assert_eq!(game.game_state, InGameState::Playing);
    tick(&mut game);
    assert_eq!(cells(&game), vec![(HALF_EXTENT + 1, 0)]);
    assert_eq!(game.game_state, InGameState::GameOver);
    tick(&mut game);
    assert_eq!(cells(&game), vec![(HALF_EXTENT + 1, 0)]);
}

#[test]
fn boundary_on_the_vertical_axis() {
    let mut game = playing(vec![node(SnakeType::Head(Direction::Down), 3, -HALF_EXTENT)], None);
    tick(&mut game);
    assert_eq!(cells(&game), vec![(3, -HALF_EXTENT - 1)]);
    assert_eq!(game.game_state, InGameState::GameOver);
}

#[test]
fn running_into_the_body_ends_the_round() {
    let mut game = playing(
        vec![
            node(SnakeType::Head(Direction::Down), 1, 1),
            node(SnakeType::Body, 0, 1),
            node(SnakeType::Body, 0, 0),
            node(SnakeType::Body, 1, 0),
            node(SnakeType::Body, 2, 0),
        ],
        None,
    );
    tick(&mut game);
    assert_eq!(cells(&game), vec![(1, 0), (1, 1), (0, 1), (0, 0), (1, 0)]);
    assert_eq!(game.game_state, InGameState::GameOver);
}

#[test]
fn following_the_tail_is_no_collision() {
    let mut game = playing(
        vec![
            node(SnakeType::Head(Direction::Down), 1, 1),
            node(SnakeType::Body, 0, 1),
            node(SnakeType::Body, 0, 0),
            node(SnakeType::Body, 1, 0),
        ],
        None,
    );
    tick(&mut game);
    assert_eq!(cells(&game), vec![(1, 0), (1, 1), (0, 1), (0, 0)]);
    assert_eq!(game.game_state, InGameState::Playing);
}

#[test]
fn pause_suspends_ticks() {
    let mut game = playing(vec![node(SnakeType::Head(Direction::Up), 0, 0)], None);
    game_state_key_event(&mut game, true);
    assert!(game.pause.user_click_pause);
    tick(&mut game);
    assert_eq!(cells(&game), vec![(0, 0)]);
    game_state_key_event(&mut game, false);
    assert!(game.pause.user_click_pause);
    game_state_key_event(&mut game, true);
    assert!(!game.pause.user_click_pause);
    tick(&mut game);
    assert_eq!(cells(&game), vec![(0, 1)]);
}

#[test]
fn pause_key_only_during_play() {
    let mut game = Game::new();
    game_state_key_event(&mut game, true);
    assert!(!game.pause.user_click_pause);
}

#[test]
fn restart_after_collision() {
    let mut game = started(MenuButtonAction::StartGameLevel1);
    assert_eq!(game.clock.timestep_ms, EASY_MODE_FIXED_TIMESTEP_MS);
    game.food = Some(Food { x: 5, y: 5 });
    let mut ticks = 0;
    while game.game_state == InGameState::Playing {
        tick(&mut game);
        ticks += 1;
        assert_distinct(&game);
    }
    assert_eq!(ticks, HALF_EXTENT + 1);
    assert_eq!(cells(&game), vec![(0, -HALF_EXTENT - 1)]);
    assert_eq!(menu_key_action(&game, false, true, false, false), Some(MenuButtonAction::StartGameLevel2));
    assert!(!button_click_system(&mut game, MenuButtonAction::StartGameLevel2));
    assert_eq!(game.app_state, AppState::InGame);
    assert_eq!(game.game_state, InGameState::Playing);
    assert_eq!(cells(&game), vec![(0, 0)]);
    assert_eq!(game.score, SnakeLength(0));
    assert!(game.food.is_some());
    assert_ne!(game.food, Some(Food { x: 0, y: 0 }));
    assert_eq!(game.clock.timestep_ms, NORMAL_MODE_FIXED_TIMESTEP_MS);
    assert!(!game.pause.is_pause_state());
}

#[test]
fn start_is_ignored_during_play() {
    let mut game = started(MenuButtonAction::StartGameLevel3);
    assert_eq!(game.clock.timestep_ms, HARD_MODE_FIXED_TIMESTEP_MS);
    game.food = Some(Food { x: 5, y: 5 });
    tick(&mut game);
    assert_eq!(cells(&game), vec![(0, -1)]);
    assert!(!button_click_system(&mut game, MenuButtonAction::StartGameLevel1));
    assert_eq!(cells(&game), vec![(0, -1)]);
    assert_eq!(game.clock.timestep_ms, HARD_MODE_FIXED_TIMESTEP_MS);
    assert_eq!(menu_key_action(&game, true, false, false, true), None);
}

#[test]
fn quit_is_reported() {
    let mut game = Game::new();
    assert!(button_click_system(&mut game, MenuButtonAction::Quit));
    assert_eq!(game.app_state, AppState::MainMenu);
    assert_eq!(menu_key_action(&game, false, false, false, true), Some(MenuButtonAction::Quit));
    assert_eq!(menu_key_action(&game, true, true, false, true), Some(MenuButtonAction::StartGameLevel1));
    assert_eq!(menu_key_action(&game, false, false, true, true), Some(MenuButtonAction::StartGameLevel3));
    assert_eq!(menu_key_action(&game, false, false, false, false), None);
}

#[test]
fn new_game_shows_the_menu() {
    let game = Game::new();
    assert_eq!(game.app_state, AppState::MainMenu);
    assert_eq!(game.game_state, InGameState::Preparing);
    assert_eq!(game.food, None);
    assert_eq!(game.score, SnakeLength(0));
    assert_eq!(game.clock.timestep_ms, NORMAL_MODE_FIXED_TIMESTEP_MS);
}

#[test]
fn setup_places_food_off_the_snake() {
    for _ in 0..20 {
        let (snake, food) = setup_snake_and_food();
        assert_eq!(snake.nodes, vec![node(SnakeType::Head(Direction::Down), 0, 0)]);
        let food = food.unwrap();
        assert_ne!((food.x, food.y), (0, 0));
        assert!(food.x.abs() <= HALF_EXTENT && food.y.abs() <= HALF_EXTENT);
    }
}

fn all_cells_but(free: &[(i32, i32)]) -> Vec<(i32, i32)> {
    let mut v = Vec::new();
    for x in -HALF_EXTENT..=HALF_EXTENT {
        for y in -HALF_EXTENT..=HALF_EXTENT {
            if !free.contains(&(x, y)) {
                v.push((x, y));
            }
        }
    }
    v
}

#[test]
fn food_finds_the_last_free_cell() {
    let taken = all_cells_but(&[(4, -7)]);
    assert_eq!(create_food_bundle(&taken), Some(Food { x: 4, y: -7 }));
    assert_eq!(first_free_cell(&taken), Some(Food { x: 4, y: -7 }));
}

#[test]
fn full_field_gives_no_food() {
    let taken = all_cells_but(&[]);
    assert_eq!(taken.len(), 289);
    assert_eq!(create_food_bundle(&taken), None);
    assert_eq!(first_free_cell(&taken), None);
}

#[test]
fn first_free_cell_scans_from_the_corner() {
    assert_eq!(first_free_cell(&vec![]), Some(Food { x: -HALF_EXTENT, y: -HALF_EXTENT }));
    assert_eq!(
        first_free_cell(&vec![(-HALF_EXTENT, -HALF_EXTENT)]),
        Some(Food { x: -HALF_EXTENT, y: -HALF_EXTENT + 1 })
    );
}

#[test]
fn food_is_drawn_at_random() {
    let mut seen = Vec::new();
    for _ in 0..40 {
        let f = create_food_bundle(&vec![]).unwrap();
        assert!(f.x.abs() <= HALF_EXTENT && f.y.abs() <= HALF_EXTENT);
        if !seen.contains(&(f.x, f.y)) {
            seen.push((f.x, f.y));
        }
    }
    assert!(seen.len() > 1);
}

#[test]
fn listed_cells() {
    let v = vec![(1, 2), (3, 4)];
    assert!(is_listed(&v, 3, 4));
    assert!(!is_listed(&v, 4, 3));
    assert!(!is_listed(&vec![], 0, 0));
}

#[test]
fn fixed_timestep_counts_whole_intervals() {
    let mut clock = FixedTimestep::new(600);
    assert_eq!(clock.advance(599), 0);
    assert_eq!(clock.overstep_ms, 599);
    assert_eq!(clock.advance(1), 1);
    assert_eq!(clock.overstep_ms, 0);
    assert_eq!(clock.advance(1900), 3);
    assert_eq!(clock.overstep_ms, 100);
    let total = u64::MAX as u128 + 100;
    assert_eq!(clock.advance(u64::MAX) as u128, total / 600);
    assert_eq!(clock.overstep_ms as u128, total % 600);
    let mut one = FixedTimestep::new(1);
    assert_eq!(one.advance(u64::MAX), u64::MAX);
    assert_eq!(one.overstep_ms, 0);
}

#[test]
fn difficulty_presets() {
    assert_eq!(difficulty_timestep_ms(Difficulty::Easy), 1000);
    assert_eq!(difficulty_timestep_ms(Difficulty::Normal), 600);
    assert_eq!(difficulty_timestep_ms(Difficulty::Hard), 300);
}

#[test]
fn a_long_run_keeps_the_chain() {
    let mut game = playing(vec![node(SnakeType::Head(Direction::Right), 0, 0)], Some(Food { x: 1, y: 0 }));
    let turns = [false, false, true, false, false, true, false, true, true, false, false, true];
    for (i, turn) in turns.iter().enumerate() {
        if *turn {
            let up = i % 2 == 0;
            change_direction_key_event(&mut game, false, false, up, !up);
        }
        let before = game.snake.nodes.len();
        let ate = game.food.map(|f| {
            let h = game.snake.nodes[0];
            match h.snake_type {
                SnakeType::Head(Direction::Right) => (f.x, f.y) == (h.x + 1, h.y),
                SnakeType::Head(Direction::Left) => (f.x, f.y) == (h.x - 1, h.y),
                SnakeType::Head(Direction::Up) => (f.x, f.y) == (h.x, h.y + 1),
                SnakeType::Head(Direction::Down) => (f.x, f.y) == (h.x, h.y - 1),
                _ => false,
            }
        }) == Some(true);
        tick(&mut game);
        assert_chain(&game);
        if game.game_state == InGameState::Playing {
            assert_distinct(&game);
        }
        assert_eq!(game.snake.nodes.len(), before + usize::from(ate));
        assert_eq!(game.score.0 + 1, game.snake.nodes.len());
        if let Some(f) = game.food {
            assert!(!cells(&game).contains(&(f.x, f.y)));
        }
    }
}

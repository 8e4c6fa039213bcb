use vstd::prelude::*;

use crate::constants::HALF_EXTENT;
use crate::data::{AppState, Difficulty, Direction, InGameState, MenuButtonAction, SnakeNode, SnakeType, opposite, step};
use crate::game::Game;
use crate::snake::{occupies, turn_blocked, turned};

verus! {

/// The direction asked for by the held keys: when several are held, the
/// last in the order left, right, up, down wins.
pub open spec fn requested(left: bool, right: bool, up: bool, down: bool) -> Option<Direction> {
    if down {
        Some(Direction::Down)
    } else if up {
        Some(Direction::Up)
    } else if right {
        Some(Direction::Right)
    } else if left {
        Some(Direction::Left)
    } else {
        None
    }
}

/// Reads the held direction keys, checking left, right, up and down in turn;
/// a later held key overrides an earlier one.
pub fn requested_direction(left: bool, right: bool, up: bool, down: bool) -> (r: Option<Direction>)
    ensures
        r == requested(left, right, up, down),
{
    let mut direction: Option<Direction> = None;
    if left {
        direction = Some(Direction::Left);
    }
    if right {
        direction = Some(Direction::Right);
    }
    if up {
        direction = Some(Direction::Up);
    }
    if down {
        direction = Some(Direction::Down);
    }
    direction
}

/// Applies the held direction keys to the head: ignored while paused or when
/// no round is being played, and refused when it would turn the head
/// straight back onto the second segment. Only the head's role can change.
pub fn change_direction_key_event(game: &mut Game, left: bool, right: bool, up: bool, down: bool)
    requires
        old(game).wf(),
    ensures
        final(game).wf(),
        ({
            let req = requested(left, right, up, down);
            let o = old(game).snake.nodes@;
            if old(game).pause.paused() || old(game).game_state != InGameState::Playing || req is None
                || turn_blocked(o, req->0) {
                *final(game) == *old(game)
            } else {
                final(game).snake.nodes@ == turned(o, req->0) && final(game).food == old(game).food
                    && final(game).score == old(game).score && final(game).app_state == old(game).app_state
                    && final(game).game_state == old(game).game_state && final(game).pause == old(game).pause
                    && final(game).clock == old(game).clock
            }
        }),
{
    if game.pause.is_pause_state() || game.game_state != InGameState::Playing {
        return;
    }
    let d = match requested_direction(left, right, up, down) {
        Some(d) => d,
        None => {
            return;
        },
    };
    let ghost o = game.snake.nodes@;
    game.snake.change_direction(d);
    proof {
        let n = game.snake.nodes@;
        assert forall|c: (int, int)| occupies(n, c) <==> occupies(o, c) by {
            if occupies(n, c) {
                let i = choose|i: int| 0 <= i < n.len() && #[trigger] n[i].cell() == c;
                assert(o[i].cell() == c);
            }
            if occupies(o, c) {
                let i = choose|i: int| 0 <= i < o.len() && #[trigger] o[i].cell() == c;
                assert(n[i].cell() == c);
            }
        }
        if game.playing() {
            assert forall|i: int, j: int| 0 <= i < j < n.len() implies #[trigger] n[i].cell() != #[trigger] n[j].cell() by {
                assert(n[i].cell() == o[i].cell() && n[j].cell() == o[j].cell());
            }
            assert forall|i: int| 0 <= i < n.len() implies crate::data::within(#[trigger] n[i].cell(), HALF_EXTENT as int) by {
                assert(n[i].cell() == o[i].cell());
            }
        }
    }
}

/// A request to reverse the head's last move is always refused: when the
/// head has just moved one cell in direction `t` away from the second
/// segment, turning to the opposite of `t` is blocked, so the direction
/// stays as it was.
pub proof fn lemma_reverse_request_refused(s: Seq<SnakeNode>, t: Direction)
    requires
        s.len() >= 2,
        s[0].snake_type == SnakeType::Head(t),
        s[0].cell() == step(s[1].cell(), t),
    ensures
        turn_blocked(s, opposite(t)),
{
    crate::data::lemma_step_adjacent(s[1].cell(), t);
}

/// The space key toggles the player's pause, only while a round is played.
pub fn game_state_key_event(game: &mut Game, space_just_pressed: bool)
    requires
        old(game).wf(),
    ensures
        final(game).wf(),
        space_just_pressed && old(game).game_state == InGameState::Playing ==> *final(game) == (Game {
            pause: crate::data::PauseStateRes {
                user_click_pause: !old(game).pause.user_click_pause,
                lose_focus_pause: old(game).pause.lose_focus_pause,
            },
            ..*old(game)
        }),
        !(space_just_pressed && old(game).game_state == InGameState::Playing) ==> *final(game) == *old(game),
{
    if space_just_pressed && game.game_state == InGameState::Playing {
        game.pause.user_click_pause = !game.pause.user_click_pause;
    }
}

/// The menu is on screen: the main menu, or the game-over screen.
pub open spec fn menu_showing(g: Game) -> bool {
    g.app_state == AppState::MainMenu || g.game_state == InGameState::GameOver
}

/// The menu action chosen by keyboard shortcut (E, N, H, then Q, first held
/// wins), only while the menu is on screen.
pub fn menu_key_action(game: &Game, e: bool, n: bool, h: bool, q: bool) -> (r: Option<MenuButtonAction>)
    ensures
        r == (if !menu_showing(*game) {
            None
        } else if e {
            Some(MenuButtonAction::StartGameLevel1)
        } else if n {
            Some(MenuButtonAction::StartGameLevel2)
        } else if h {
            Some(MenuButtonAction::StartGameLevel3)
        } else if q {
            Some(MenuButtonAction::Quit)
        } else {
            None
        }),
{
    if !(game.app_state == AppState::MainMenu || game.game_state == InGameState::GameOver) {
        None
    } else if e {
        Some(MenuButtonAction::StartGameLevel1)
    } else if n {
        Some(MenuButtonAction::StartGameLevel2)
    } else if h {
        Some(MenuButtonAction::StartGameLevel3)
    } else if q {
        Some(MenuButtonAction::Quit)
    } else {
        None
    }
}

pub open spec fn level_of(a: MenuButtonAction) -> Difficulty {
    match a {
        MenuButtonAction::StartGameLevel1 => Difficulty::Easy,
        MenuButtonAction::StartGameLevel3 => Difficulty::Hard,
        _ => Difficulty::Normal,
    }
}

/// Carries out a menu action. The three start actions start a round at easy,
/// normal or hard speed when the main menu or the game-over screen shows
/// (otherwise nothing changes); quitting changes nothing here and is
/// reported to the caller, who ends the program. Returns whether to quit.
pub fn button_click_system(game: &mut Game, action: MenuButtonAction) -> (quit: bool)
    requires
        old(game).wf(),
    ensures
        final(game).wf(),
        quit == (action == MenuButtonAction::Quit),
        quit || !menu_showing(*old(game)) ==> *final(game) == *old(game),
        !quit && menu_showing(*old(game)) ==> final(game).fresh_round(level_of(action)),
{
    match action {
        MenuButtonAction::StartGameLevel1 => {
            game.start_game(Difficulty::Easy);
            false
        },
        MenuButtonAction::StartGameLevel2 => {
            game.start_game(Difficulty::Normal);
            false
        },
        MenuButtonAction::StartGameLevel3 => {
            game.start_game(Difficulty::Hard);
            false
        },
        MenuButtonAction::Quit => true,
    }
}

} // verus!

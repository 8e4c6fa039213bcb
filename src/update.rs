use vstd::prelude::*;

use crate::constants::HALF_EXTENT;
use crate::data::{AppState, Direction, Food, InGameState, SnakeLength, SnakeNode, SnakeType, in_grid, step};
use crate::game::{Game, covers_grid, spawn_food_beside};
use crate::snake::{all_within, chain_adjacent, distinct_cells, grown, head_on_body, moved, occupies};

verus! {

pub open spec fn head_dir(t: SnakeType) -> Direction {
    match t {
        SnakeType::Head(d) => d,
        _ => Direction::Up,
    }
}

/// On this tick the snake eats: a round is running, and the food lies on
/// the cell just ahead of a head that has a direction.
pub open spec fn eats(g: Game) -> bool {
    let h = g.snake.nodes@[0];
    &&& g.playing()
    &&& g.food is Some
    &&& h.snake_type is Head
    &&& g.food->0.cell() == step(h.cell(), head_dir(h.snake_type))
}

/// On this tick the snake moves: a round is running and the head has a
/// direction.
pub open spec fn moves(g: Game) -> bool {
    g.playing() && g.snake.nodes@[0].snake_type is Head
}

/// What eating leaves behind: the snake grown into the food's cell, the
/// score one higher, food on a free cell (none only on a full field), and
/// nothing else changed.
pub open spec fn ate_food(g: Game, n: Game) -> bool {
    let d = head_dir(g.snake.nodes@[0].snake_type);
    &&& n.snake.nodes@ == grown(g.snake.nodes@, g.food->0.cell(), d)
    &&& n.snake.nodes@.len() == g.snake.nodes@.len() + 1
    &&& n.score.0 == g.score.0 + 1
    &&& n.food is Some ==> in_grid(n.food->0.cell()) && !occupies(n.snake.nodes@, n.food->0.cell())
    &&& n.food is None <==> covers_grid(n.snake.nodes@)
    &&& n.app_state == g.app_state
    &&& n.game_state == g.game_state
    &&& n.pause == g.pause
    &&& n.clock == g.clock
}

/// What a move leaves behind: the snake moved one cell, and the round over
/// exactly when the new head left the field or landed on the body.
pub open spec fn made_move(g: Game, n: Game) -> bool {
    let d = head_dir(g.snake.nodes@[0].snake_type);
    let s = n.snake.nodes@;
    &&& s == moved(g.snake.nodes@, d)
    &&& s[0].cell() == step(g.snake.nodes@[0].cell(), d)
    &&& n.game_state == (if !in_grid(s[0].cell()) || head_on_body(s) {
        InGameState::GameOver
    } else {
        InGameState::Playing
    })
    &&& n.score == g.score
    &&& n.food == g.food
    &&& n.app_state == g.app_state
    &&& n.pause == g.pause
    &&& n.clock == g.clock
}

/// The eat step of a tick: when the food lies just ahead of the head, the
/// snake grows into it instead of moving, the score goes up by one, and new
/// food is placed on a cell the grown snake leaves free. Returns whether the
/// snake ate; otherwise nothing changes.
pub fn should_eat_food(game: &mut Game) -> (ate: bool)
    requires
        old(game).wf(),
    ensures
        final(game).wf(),
        ate == eats(*old(game)),
        ate ==> ate_food(*old(game), *final(game)),
        !ate ==> *final(game) == *old(game),
{
    if !(game.app_state == AppState::InGame && game.game_state == InGameState::Playing) {
        return false;
    }
    let food = match game.food {
        Some(f) => f,
        None => {
            return false;
        },
    };
    let h = game.snake.head();
    let d = match h.snake_type {
        SnakeType::Head(d) => d,
        _ => {
            return false;
        },
    };
    if !is_just_ahead(h, d, food.x, food.y) {
        return false;
    }
    eat(game, food, d);
    true
}

/// The snake grows into the food's cell, the score goes up by one and new
/// food is placed.
fn eat(game: &mut Game, food: Food, d: Direction)
    requires
        old(game).wf(),
        old(game).playing(),
        old(game).food == Some(food),
        old(game).snake.nodes@[0].snake_type == SnakeType::Head(d),
        food.cell() == step(old(game).snake.nodes@[0].cell(), d),
    ensures
        final(game).wf(),
        ate_food(*old(game), *final(game)),
{
    game.snake.grow(food.x, food.y, d);
    // The score counts the segments beyond the first: one more than before.
    let len = game.snake.len();
    game.score = SnakeLength(len - 1);
    game.food = spawn_food_beside(&game.snake);
}

/// Whether `(x, y)` is the cell one unit from `h` in direction `d`.
pub fn is_just_ahead(h: SnakeNode, d: Direction, x: i32, y: i32) -> (r: bool)
    ensures
        r == ((x as int, y as int) == step(h.cell(), d)),
{
    match d {
        Direction::Up => x == h.x && y as i64 == h.y as i64 + 1,
        Direction::Down => x == h.x && y as i64 == h.y as i64 - 1,
        Direction::Left => x as i64 == h.x as i64 - 1 && y == h.y,
        Direction::Right => x as i64 == h.x as i64 + 1 && y == h.y,
    }
}

/// The move step of a tick: the head advances one cell in its direction and
/// every other segment follows onto the cell ahead of it. Leaving the field
/// or landing on the body ends the round. Nothing happens outside a running
/// round or before the head has a direction. The eat step runs first, so the
/// food is never just ahead of the head here.
pub fn snake_move(game: &mut Game)
    requires
        old(game).wf(),
        !eats(*old(game)),
    ensures
        final(game).wf(),
        moves(*old(game)) ==> made_move(*old(game), *final(game)),
        !moves(*old(game)) ==> *final(game) == *old(game),
{
    if !(game.app_state == AppState::InGame && game.game_state == InGameState::Playing) {
        return;
    }
    let h = game.snake.head();
    let d = match h.snake_type {
        SnakeType::Head(d) => d,
        _ => {
            return;
        },
    };
    let ghost o = game.snake.nodes@;
    game.snake.move_forward(d);
    let n = game.snake.head();
    let out = n.x < -HALF_EXTENT || n.x > HALF_EXTENT || n.y < -HALF_EXTENT || n.y > HALF_EXTENT;
    if out || game.snake.head_hits_body() {
        game.game_state = InGameState::GameOver;
    }
    proof {
        let s = game.snake.nodes@;
        if game.food is Some {
            let c = game.food->0.cell();
            if occupies(s, c) {
                let i = choose|i: int| 0 <= i < s.len() && #[trigger] s[i].cell() == c;
                if i > 0 {
                    assert(s[i] == moved(o, d)[i]);
                    assert(o[i - 1].cell() == c);
                }
            }
        }
    }
}

/// One fixed tick: nothing while paused, outside a running round, or before
/// the head has a direction; otherwise the eat step, and the move step when
/// the snake did not eat.
/// Afterwards the chain is connected, and while the round runs no two
/// segments share a cell.
pub fn tick(game: &mut Game)
    requires
        old(game).wf(),
    ensures
        final(game).wf(),
        old(game).pause.paused() || !moves(*old(game)) ==> *final(game) == *old(game),
        !old(game).pause.paused() && eats(*old(game)) ==> ate_food(*old(game), *final(game)),
        !old(game).pause.paused() && !eats(*old(game)) && moves(*old(game)) ==> made_move(*old(game), *final(game)),
        chain_adjacent(final(game).snake.nodes@),
        final(game).playing() ==> distinct_cells(final(game).snake.nodes@),
        final(game).playing() ==> all_within(final(game).snake.nodes@, HALF_EXTENT as int),
{
    if game.pause.is_pause_state() {
        return;
    }
    if !should_eat_food(game) {
        snake_move(game);
    }
}

} // verus!

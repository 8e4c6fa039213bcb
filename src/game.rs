use vstd::prelude::*;

use crate::constants::{HALF_EXTENT, NORMAL_MODE_FIXED_TIMESTEP_MS};
use crate::data::{AppState, Difficulty, Direction, Food, InGameState, PauseStateRes, Snake, SnakeLength, SnakeNode, SnakeType, in_grid};
use crate::food::{create_food_bundle, grid_full, listed};
use crate::schedule::{FixedTimestep, difficulty_timestep_ms, timestep_of};
use crate::snake::{all_within, distinct_cells, node_at, occupies};

verus! {

/// Every cell of the playing field is occupied by the snake `s`.
pub open spec fn covers_grid(s: Seq<SnakeNode>) -> bool {
    forall|cx: int, cy: int| in_grid((cx, cy)) ==> #[trigger] occupies(s, (cx, cy))
}

/// The snake a round starts with.
pub open spec fn initial_snake() -> Seq<SnakeNode> {
    seq![node_at(SnakeType::Head(Direction::Down), (0, 0))]
}

/// The whole simulation state, owned by the one loop that ticks it.
pub struct Game {
    pub snake: Snake,
    pub food: Option<Food>,
    pub score: SnakeLength,
    pub app_state: AppState,
    pub game_state: InGameState,
    pub pause: PauseStateRes,
    pub clock: FixedTimestep,
}

impl Game {
    /// A round is running (it may be paused).
    pub open spec fn playing(&self) -> bool {
        self.app_state == AppState::InGame && self.game_state == InGameState::Playing
    }

    /// The food sits on a free cell of the field, and the score counts the
    /// segments beyond the first. While a round runs the snake lies inside
    /// the field with no two segments on one cell.
    pub open spec fn wf(&self) -> bool {
        &&& self.snake.wf()
        &&& self.score.0 + 1 == self.snake.nodes@.len()
        &&& self.food is Some ==> in_grid(self.food->0.cell()) && !occupies(self.snake.nodes@, self.food->0.cell())
        &&& self.playing() ==> all_within(self.snake.nodes@, HALF_EXTENT as int) && distinct_cells(self.snake.nodes@)
        &&& self.clock.wf()
    }

    /// A fresh round started at difficulty `d`: a new snake, score zero, food
    /// placed, running and unpaused, ticking at the interval of `d`.
    pub open spec fn fresh_round(&self, d: Difficulty) -> bool {
        &&& self.snake.nodes@ == initial_snake()
        &&& self.score.0 == 0
        &&& self.food is Some
        &&& self.app_state == AppState::InGame
        &&& self.game_state == InGameState::Playing
        &&& !self.pause.user_click_pause
        &&& !self.pause.lose_focus_pause
        &&& self.clock.timestep_ms == timestep_of(d)
        &&& self.clock.overstep_ms == 0
    }

    /// The state at launch: the main menu, no food, unpaused, normal speed.
    pub fn new() -> (r: Game)
        ensures
            r.wf(),
            r.app_state == AppState::MainMenu,
            r.game_state == InGameState::Preparing,
            r.food is None,
            r.score.0 == 0,
            !r.pause.paused(),
            r.clock.timestep_ms == NORMAL_MODE_FIXED_TIMESTEP_MS,
    {
        Game {
            snake: Snake::new(),
            food: None,
            score: SnakeLength(0),
            app_state: AppState::MainMenu,
            game_state: InGameState::Preparing,
            pause: PauseStateRes::new(false, false),
            clock: FixedTimestep::new(NORMAL_MODE_FIXED_TIMESTEP_MS),
        }
    }
}

/// The cells that `occupied_cells` lists are exactly the snake's cells.
pub proof fn lemma_listed_iff_occupies(s: Seq<SnakeNode>, cells: Seq<(i32, i32)>, c: (int, int))
    requires
        cells.len() == s.len(),
        forall|i: int| 0 <= i < cells.len() ==> #[trigger] cells[i] == (s[i].x, s[i].y),
    ensures
        listed(cells, c) <==> occupies(s, c),
{
    if listed(cells, c) {
        let i = choose|i: int| 0 <= i < cells.len() && (#[trigger] cells[i]).0 as int == c.0 && cells[i].1 as int == c.1;
        assert(s[i].cell() == c);
    }
    if occupies(s, c) {
        let i = choose|i: int| 0 <= i < s.len() && #[trigger] s[i].cell() == c;
        assert(cells[i] == (s[i].x, s[i].y));
    }
}

/// Places food on a cell that `snake` leaves free; `None` exactly when the
/// snake covers the whole field.
pub fn spawn_food_beside(snake: &Snake) -> (r: Option<Food>)
    ensures
        r is Some ==> in_grid(r->0.cell()) && !occupies(snake.nodes@, r->0.cell()),
        r is None <==> covers_grid(snake.nodes@),
{
    let cells = snake.occupied_cells();
    let r = create_food_bundle(&cells);
    proof {
        if r is Some {
            lemma_listed_iff_occupies(snake.nodes@, cells@, r->0.cell());
        }
        assert(grid_full(cells@) <==> covers_grid(snake.nodes@)) by {
            assert forall|cx: int, cy: int| #![all_triggers] listed(cells@, (cx, cy)) <==> occupies(snake.nodes@, (cx, cy)) by {
                lemma_listed_iff_occupies(snake.nodes@, cells@, (cx, cy));
            }
        }
    }
    r
}

/// The snake and food of a new round: a single head at the origin and food
/// on some other cell of the field.
pub fn setup_snake_and_food() -> (r: (Snake, Option<Food>))
    ensures
        r.0.nodes@ == initial_snake(),
        r.1 is Some,
        in_grid(r.1->0.cell()),
        r.1->0.cell() != (0int, 0int),
{
    let snake = Snake::new();
    let food = spawn_food_beside(&snake);
    proof {
        let s = snake.nodes@;
        if covers_grid(s) {
            assert(occupies(s, (1, 0)));
        }
        assert(s[0].cell() == (0int, 0int));
    }
    (snake, food)
}

/// Whether ticks may run: neither pause source is set.
pub fn is_not_pause_state(pause: &PauseStateRes) -> (r: bool)
    ensures
        r == !pause.paused(),
{
    !pause.is_pause_state()
}

impl Game {
    /// Starts a round at difficulty `d` when the main menu or the game-over
    /// screen is showing, throwing away the previous round's snake, food and
    /// score. Returns whether a round was started; otherwise nothing changes.
    pub fn start_game(&mut self, d: Difficulty) -> (started: bool)
        requires
            old(self).wf(),
        ensures
            started == (old(self).app_state == AppState::MainMenu || old(self).game_state == InGameState::GameOver),
            started ==> final(self).fresh_round(d),
            !started ==> *final(self) == *old(self),
            final(self).wf(),
    {
        if self.app_state != AppState::MainMenu && self.game_state != InGameState::GameOver {
            return false;
        }
        let (snake, food) = setup_snake_and_food();
        self.snake = snake;
        self.food = food;
        self.score = SnakeLength(0);
        self.app_state = AppState::InGame;
        self.game_state = InGameState::Playing;
        self.pause = PauseStateRes::new(false, false);
        self.clock = FixedTimestep::new(difficulty_timestep_ms(d));
        proof {
            let s = self.snake.nodes@;
            assert(s[0].cell() == (0int, 0int));
            assert(!occupies(s, self.food->0.cell()));
        }
        true
    }
}

} // verus!

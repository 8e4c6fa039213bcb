use vstd::prelude::*;

use crate::constants::HALF_EXTENT;

verus! {

/// Both pause sources; the game is paused while either is set.
pub struct PauseStateRes {
    pub user_click_pause: bool,
    pub lose_focus_pause: bool,
}

impl PauseStateRes {
    pub fn new(user_click_pause: bool, lose_focus_pause: bool) -> (r: PauseStateRes)
        ensures
            r.user_click_pause == user_click_pause,
            r.lose_focus_pause == lose_focus_pause,
    {
        PauseStateRes { user_click_pause, lose_focus_pause }
    }

    pub open spec fn paused(&self) -> bool {
        self.user_click_pause || self.lose_focus_pause
    }

    /// The effective pause flag.
    pub fn is_pause_state(&self) -> (r: bool)
        ensures
            r == self.paused(),
    {
        self.user_click_pause || self.lose_focus_pause
    }
}

/// A travel direction on the grid; `Up` is towards larger `y`.
#[derive(PartialEq, Eq, Structural, Clone, Copy, Debug)]
pub enum Direction {
    Up,
    Down,
    Left,
    Right,
}

/// The role of one snake segment.
#[derive(PartialEq, Eq, Structural, Clone, Copy, Debug)]
pub enum SnakeType {
    /// A trailing segment.
    Body,
    /// The leading segment and its current travel direction.
    Head(Direction),
    /// The first segment before any direction was ever chosen.
    Unknown,
}

/// One occupied cell of the snake, in grid units.
#[derive(PartialEq, Eq, Structural, Clone, Copy, Debug)]
pub struct SnakeNode {
    pub snake_type: SnakeType,
    pub x: i32,
    pub y: i32,
}

/// The snake: its segments from the head (index 0) to the tail.
pub struct Snake {
    pub nodes: Vec<SnakeNode>,
}

/// The single food item, in grid units.
#[derive(PartialEq, Eq, Structural, Clone, Copy, Debug)]
pub struct Food {
    pub x: i32,
    pub y: i32,
}

/// The score: how many segments the snake has beyond its first one.
#[derive(PartialEq, Eq, Structural, Clone, Copy, Debug)]
pub struct SnakeLength(pub usize);

/// What a menu button (or its keyboard shortcut) asks for.
#[derive(PartialEq, Eq, Structural, Clone, Copy, Debug)]
pub enum MenuButtonAction {
    StartGameLevel1,
    StartGameLevel2,
    StartGameLevel3,
    Quit,
}

/// The tick-rate presets a round can be started with.
#[derive(PartialEq, Eq, Structural, Clone, Copy, Debug)]
pub enum Difficulty {
    Easy,
    Normal,
    Hard,
}

/// Which screen the application shows.
#[derive(PartialEq, Eq, Structural, Clone, Copy, Debug)]
pub enum AppState {
    MainMenu,
    InGame,
}

/// The phase of a round; `Preparing` is only the state before the first round.
#[derive(PartialEq, Eq, Structural, Clone, Copy, Debug)]
pub enum InGameState {
    Preparing,
    Playing,
    GameOver,
}

pub open spec fn opposite(d: Direction) -> Direction {
    match d {
        Direction::Up => Direction::Down,
        Direction::Down => Direction::Up,
        Direction::Left => Direction::Right,
        Direction::Right => Direction::Left,
    }
}

/// The cell one unit away from `c` in direction `d`.
pub open spec fn step(c: (int, int), d: Direction) -> (int, int) {
    match d {
        Direction::Up => (c.0, c.1 + 1),
        Direction::Down => (c.0, c.1 - 1),
        Direction::Left => (c.0 - 1, c.1),
        Direction::Right => (c.0 + 1, c.1),
    }
}

pub open spec fn abs(v: int) -> int {
    if v < 0 { -v } else { v }
}

pub open spec fn manhattan(a: (int, int), b: (int, int)) -> int {
    abs(a.0 - b.0) + abs(a.1 - b.1)
}

/// Grid-adjacent: one unit apart along exactly one axis.
pub open spec fn adjacent(a: (int, int), b: (int, int)) -> bool {
    manhattan(a, b) == 1
}

/// Both coordinates of `c` lie within `-r ..= r`.
pub open spec fn within(c: (int, int), r: int) -> bool {
    -r <= c.0 <= r && -r <= c.1 <= r
}

/// `c` is a cell of the playing field.
pub open spec fn in_grid(c: (int, int)) -> bool {
    within(c, HALF_EXTENT as int)
}

impl SnakeNode {
    pub open spec fn cell(self) -> (int, int) {
        (self.x as int, self.y as int)
    }
}

impl Food {
    pub open spec fn cell(self) -> (int, int) {
        (self.x as int, self.y as int)
    }
}

pub proof fn lemma_step_adjacent(c: (int, int), d: Direction)
    ensures
        adjacent(c, step(c, d)),
        adjacent(step(c, d), c),
        step(step(c, d), opposite(d)) == c,
        step(c, d) != c,
{
}

} // verus!

use vstd::prelude::*;

use rand::Rng;

use crate::constants::{FOOD_SPAWN_ATTEMPTS, HALF_EXTENT};
use crate::data::{Food, in_grid};

verus! {

/// `c` is one of the cells in `cells`.
pub open spec fn listed(cells: Seq<(i32, i32)>, c: (int, int)) -> bool {
    exists|i: int| 0 <= i < cells.len() && (#[trigger] cells[i]).0 as int == c.0 && cells[i].1 as int == c.1
}

/// Every cell of the playing field is one of `cells`.
pub open spec fn grid_full(cells: Seq<(i32, i32)>) -> bool {
    forall|cx: int, cy: int| in_grid((cx, cy)) ==> #[trigger] listed(cells, (cx, cy))
}

/// Relies on rand's `thread_rng().gen_range(lo..=hi)`: a value drawn from the
/// inclusive range `lo..=hi` (it panics on an empty range).
#[verifier::external_body]
fn random_coordinate(lo: i32, hi: i32) -> (r: i32)
    requires
        lo <= hi,
    ensures
        lo <= r <= hi,
{
    rand::thread_rng().gen_range(lo..=hi)
}

/// Whether `(x, y)` is one of `cells`.
pub fn is_listed(cells: &Vec<(i32, i32)>, x: i32, y: i32) -> (r: bool)
    ensures
        r == listed(cells@, (x as int, y as int)),
{
    let mut i: usize = 0;
    while i < cells.len()
        invariant
            i <= cells@.len(),
            forall|k: int| 0 <= k < i ==> #[trigger] cells@[k] != (x, y),
        decreases cells@.len() - i,
    {
        if cells[i].0 == x && cells[i].1 == y {
            return true;
        }
        i = i + 1;
    }
    proof {
        assert forall|k: int| 0 <= k < cells@.len() implies !((#[trigger] cells@[k]).0 as int == x as int && cells@[k].1 as int == y as int) by {
            assert(cells@[k] != (x, y));
        }
    }
    false
}

/// The first cell of the playing field, in column-major order from the
/// lowest corner, that is not one of `cells`; `None` when there is none.
pub fn first_free_cell(cells: &Vec<(i32, i32)>) -> (r: Option<Food>)
    ensures
        r is Some ==> in_grid(r->0.cell()) && !listed(cells@, r->0.cell()),
        r is None <==> grid_full(cells@),
{
    let mut x: i32 = -HALF_EXTENT;
    while x <= HALF_EXTENT
        invariant
            -HALF_EXTENT <= x <= HALF_EXTENT + 1,
            forall|cx: int, cy: int| in_grid((cx, cy)) && cx < x ==> #[trigger] listed(cells@, (cx, cy)),
        decreases HALF_EXTENT + 1 - x,
    {
        let mut y: i32 = -HALF_EXTENT;
        while y <= HALF_EXTENT
            invariant
                -HALF_EXTENT <= x <= HALF_EXTENT,
                -HALF_EXTENT <= y <= HALF_EXTENT + 1,
                forall|cx: int, cy: int| in_grid((cx, cy)) && cx < x ==> #[trigger] listed(cells@, (cx, cy)),
                forall|cy: int| -HALF_EXTENT <= cy < y ==> #[trigger] listed(cells@, (x as int, cy)),
            decreases HALF_EXTENT + 1 - y,
        {
            if !is_listed(cells, x, y) {
                return Some(Food { x, y });
            }
            y = y + 1;
        }
        x = x + 1;
    }
    None
}

/// Places food on a free cell of the playing field: a cell drawn at random
/// from the whole field and redrawn while it is one of `excepted_position`,
/// a bounded number of times, and after that the first free cell. `None`
/// exactly when no cell of the field is free.
pub fn create_food_bundle(excepted_position: &Vec<(i32, i32)>) -> (r: Option<Food>)
    ensures
        r is Some ==> in_grid(r->0.cell()) && !listed(excepted_position@, r->0.cell()),
        r is None <==> grid_full(excepted_position@),
{
    let mut attempt: u32 = 0;
    while attempt < FOOD_SPAWN_ATTEMPTS
        invariant
            attempt <= FOOD_SPAWN_ATTEMPTS,
        decreases FOOD_SPAWN_ATTEMPTS - attempt,
    {
        let x = random_coordinate(-HALF_EXTENT, HALF_EXTENT);
        let y = random_coordinate(-HALF_EXTENT, HALF_EXTENT);
        if !is_listed(excepted_position, x, y) {
            proof {
                if grid_full(excepted_position@) {
                    assert(listed(excepted_position@, (x as int, y as int)));
                }
            }
            return Some(Food { x, y });
        }
        attempt = attempt + 1;
    }
    first_free_cell(excepted_position)
}

} // verus!

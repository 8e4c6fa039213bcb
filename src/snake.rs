use vstd::prelude::*;

use crate::constants::HALF_EXTENT;
use crate::data::{Direction, SnakeNode, SnakeType, Snake, step, adjacent, within, in_grid, lemma_step_adjacent};

verus! {

/// Index 0 is the head (`Head(_)` or `Unknown`), every other segment is `Body`.
pub open spec fn roles_ok(s: Seq<SnakeNode>) -> bool {
    &&& s.len() >= 1
    &&& s[0].snake_type != SnakeType::Body
    &&& forall|i: int| 1 <= i < s.len() ==> #[trigger] s[i].snake_type == SnakeType::Body
}

/// Segment `i` and the one behind it are grid-adjacent.
pub open spec fn linked(s: Seq<SnakeNode>, i: int) -> bool {
    adjacent(s[i].cell(), s[i + 1].cell())
}

/// Consecutive segments are grid-adjacent.
pub open spec fn chain_adjacent(s: Seq<SnakeNode>) -> bool {
    forall|i: int| 0 <= i < s.len() - 1 ==> #[trigger] linked(s, i)
}

/// No two segments from index `lo` on share a cell.
pub open spec fn distinct_from(s: Seq<SnakeNode>, lo: int) -> bool {
    forall|i: int, j: int| lo <= i < j < s.len() ==> #[trigger] s[i].cell() != #[trigger] s[j].cell()
}

/// No two segments share a cell.
pub open spec fn distinct_cells(s: Seq<SnakeNode>) -> bool {
    distinct_from(s, 0)
}

/// Every segment lies within `r` of the origin on both axes.
pub open spec fn all_within(s: Seq<SnakeNode>, r: int) -> bool {
    forall|i: int| 0 <= i < s.len() ==> within(#[trigger] s[i].cell(), r)
}

/// Some segment occupies `c`.
pub open spec fn occupies(s: Seq<SnakeNode>, c: (int, int)) -> bool {
    exists|i: int| 0 <= i < s.len() && #[trigger] s[i].cell() == c
}

/// Some segment behind the head shares the head's cell.
pub open spec fn head_on_body(s: Seq<SnakeNode>) -> bool {
    exists|i: int| 1 <= i < s.len() && #[trigger] s[i].cell() == s[0].cell()
}

pub open spec fn node_at(t: SnakeType, c: (int, int)) -> SnakeNode {
    SnakeNode { snake_type: t, x: c.0 as i32, y: c.1 as i32 }
}

/// One move in direction `d`: the head advances one cell and every other
/// segment takes the cell that the segment ahead of it held before.
pub open spec fn moved(s: Seq<SnakeNode>, d: Direction) -> Seq<SnakeNode> {
    Seq::new(
        s.len(),
        |i: int|
            if i == 0 {
                node_at(SnakeType::Head(d), step(s[0].cell(), d))
            } else {
                node_at(SnakeType::Body, s[i - 1].cell())
            },
    )
}

/// Growth into cell `c`: a new head travelling in `d` stands there and the
/// old head becomes body; nothing else changes.
pub open spec fn grown(s: Seq<SnakeNode>, c: (int, int), d: Direction) -> Seq<SnakeNode> {
    seq![node_at(SnakeType::Head(d), c)] + s.update(0, node_at(SnakeType::Body, s[0].cell()))
}

/// The head after a direction change to `d`.
pub open spec fn turned(s: Seq<SnakeNode>, d: Direction) -> Seq<SnakeNode> {
    s.update(0, node_at(SnakeType::Head(d), s[0].cell()))
}

/// Turning to `d` would put the head straight onto the second segment.
pub open spec fn turn_blocked(s: Seq<SnakeNode>, d: Direction) -> bool {
    s.len() >= 2 && s[1].cell() == step(s[0].cell(), d)
}

impl Snake {
    /// The shape every snake keeps: roles in place, a connected chain, no two
    /// body segments on one cell, and no segment more than one cell outside
    /// the playing field.
    pub open spec fn wf(&self) -> bool {
        &&& roles_ok(self.nodes@)
        &&& chain_adjacent(self.nodes@)
        &&& distinct_from(self.nodes@, 1)
        &&& all_within(self.nodes@, HALF_EXTENT + 1)
    }

    /// The snake of a new round: a single head at the origin, travelling down.
    pub fn new() -> (r: Snake)
        ensures
            r.nodes@ == seq![node_at(SnakeType::Head(Direction::Down), (0, 0))],
            r.wf(),
            all_within(r.nodes@, HALF_EXTENT as int),
            distinct_cells(r.nodes@),
    {
        let mut nodes: Vec<SnakeNode> = Vec::new();
        nodes.push(SnakeNode { snake_type: SnakeType::Head(Direction::Down), x: 0, y: 0 });
        Snake { nodes }
    }

    pub fn len(&self) -> (r: usize)
        ensures
            r == self.nodes@.len(),
    {
        self.nodes.len()
    }

    /// The leading segment.
    pub fn head(&self) -> (r: SnakeNode)
        requires
            self.nodes@.len() >= 1,
        ensures
            r == self.nodes@[0],
    {
        self.nodes[0]
    }

    /// The cells of all segments, head first.
    pub fn occupied_cells(&self) -> (r: Vec<(i32, i32)>)
        ensures
            r@.len() == self.nodes@.len(),
            forall|i: int| 0 <= i < r@.len() ==> #[trigger] r@[i] == (self.nodes@[i].x, self.nodes@[i].y),
    {
        let mut r: Vec<(i32, i32)> = Vec::new();
        let mut i: usize = 0;
        while i < self.nodes.len()
            invariant
                i <= self.nodes@.len(),
                r@.len() == i,
                forall|k: int| 0 <= k < i ==> #[trigger] r@[k] == (self.nodes@[k].x, self.nodes@[k].y),
            decreases self.nodes@.len() - i,
        {
            r.push((self.nodes[i].x, self.nodes[i].y));
            i = i + 1;
        }
        r
    }

    /// Whether some body segment shares the head's cell.
    pub fn head_hits_body(&self) -> (r: bool)
        requires
            self.nodes@.len() >= 1,
        ensures
            r == head_on_body(self.nodes@),
    {
        let h = self.nodes[0];
        let mut i: usize = 1;
        while i < self.nodes.len()
            invariant
                1 <= i <= self.nodes@.len(),
                h == self.nodes@[0],
                forall|k: int| 1 <= k < i ==> #[trigger] self.nodes@[k].cell() != h.cell(),
            decreases self.nodes@.len() - i,
        {
            if self.nodes[i].x == h.x && self.nodes[i].y == h.y {
                assert(self.nodes@[i as int].cell() == self.nodes@[0].cell());
                return true;
            }
            i = i + 1;
        }
        false
    }

    /// Points the head in direction `d`, unless that would turn it straight
    /// back onto the second segment. A head that has never moved takes any
    /// direction. Returns whether the direction was taken.
    pub fn change_direction(&mut self, d: Direction) -> (changed: bool)
        requires
            old(self).wf(),
        ensures
            changed == !turn_blocked(old(self).nodes@, d),
            changed ==> final(self).nodes@ == turned(old(self).nodes@, d),
            !changed ==> *final(self) == *old(self),
            final(self).wf(),
            final(self).nodes@.len() == old(self).nodes@.len(),
            forall|i: int| 0 <= i < final(self).nodes@.len() ==> (#[trigger] final(self).nodes@[i]).cell() == old(self).nodes@[i].cell(),
    {
        let h = self.nodes[0];
        if self.nodes.len() >= 2 {
            let second = self.nodes[1];
            let blocked = match d {
                Direction::Up => second.x == h.x && second.y as i64 == h.y as i64 + 1,
                Direction::Down => second.x == h.x && second.y as i64 == h.y as i64 - 1,
                Direction::Left => second.x as i64 == h.x as i64 - 1 && second.y == h.y,
                Direction::Right => second.x as i64 == h.x as i64 + 1 && second.y == h.y,
            };
            if blocked {
                return false;
            }
        }
        self.nodes.set(0, SnakeNode { snake_type: SnakeType::Head(d), x: h.x, y: h.y });
        proof {
            let o = old(self).nodes@;
            let n = self.nodes@;
            assert(n[0].cell() == o[0].cell());
            assert forall|i: int| 0 <= i < n.len() - 1 implies #[trigger] linked(n, i) by {
                assert(o[i].cell() == n[i].cell());
                assert(o[i + 1].cell() == n[i + 1].cell());
                assert(linked(o, i));
            }
            assert forall|i: int, j: int| 1 <= i < j < n.len() implies #[trigger] n[i].cell() != #[trigger] n[j].cell() by {
                assert(o[i] == n[i] && o[j] == n[j]);
            }
            assert forall|i: int| 0 <= i < n.len() implies within(#[trigger] n[i].cell(), HALF_EXTENT + 1) by {
                assert(o[i].cell() == n[i].cell());
            }
        }
        true
    }

    /// Advances the snake one cell: the head in direction `d`, and each other
    /// segment onto the cell held before by the segment ahead of it.
    pub fn move_forward(&mut self, d: Direction)
        requires
            old(self).wf(),
            old(self).nodes@[0].snake_type == SnakeType::Head(d),
            all_within(old(self).nodes@, HALF_EXTENT as int),
            distinct_cells(old(self).nodes@),
        ensures
            final(self).nodes@ == moved(old(self).nodes@, d),
            final(self).nodes@[0].cell() == step(old(self).nodes@[0].cell(), d),
            final(self).wf(),
            in_grid(final(self).nodes@[0].cell()) ==> all_within(final(self).nodes@, HALF_EXTENT as int),
            !head_on_body(final(self).nodes@) ==> distinct_cells(final(self).nodes@),
    {
        let ghost o = self.nodes@;
        let h = self.nodes[0];
        assert(within(o[0].cell(), HALF_EXTENT as int));
        let (x, y) = match d {
            Direction::Up => (h.x, h.y + 1),
            Direction::Down => (h.x, h.y - 1),
            Direction::Left => (h.x - 1, h.y),
            Direction::Right => (h.x + 1, h.y),
        };
        let mut nodes: Vec<SnakeNode> = Vec::new();
        nodes.push(SnakeNode { snake_type: SnakeType::Head(d), x, y });
        let mut i: usize = 1;
        while i < self.nodes.len()
            invariant
                1 <= i <= o.len(),
                self.nodes@ == o,
                nodes@.len() == i,
                all_within(o, HALF_EXTENT as int),
                forall|k: int| 0 <= k < i ==> #[trigger] nodes@[k] == moved(o, d)[k],
            decreases o.len() - i,
        {
            let p = self.nodes[i - 1];
            nodes.push(SnakeNode { snake_type: SnakeType::Body, x: p.x, y: p.y });
            proof {
                assert(within(o[i - 1].cell(), HALF_EXTENT as int));
            }
            i = i + 1;
        }
        self.nodes = nodes;
        proof {
            let n = self.nodes@;
            assert(n =~= moved(o, d));
            assert(n[0].cell() == step(o[0].cell(), d));
            assert forall|k: int| 1 <= k < n.len() implies #[trigger] n[k].cell() == o[k - 1].cell() by {
                assert(within(o[k - 1].cell(), HALF_EXTENT as int));
            }
            assert forall|k: int| 1 <= k < n.len() implies #[trigger] n[k].snake_type == SnakeType::Body by {
            }
            assert forall|k: int| 0 <= k < n.len() - 1 implies #[trigger] linked(n, k) by {
                if k == 0 {
                    lemma_step_adjacent(o[0].cell(), d);
                    assert(n[1].cell() == o[0].cell());
                } else {
                    assert(n[k].cell() == o[k - 1].cell());
                    assert(n[k + 1].cell() == o[k].cell());
                    assert(linked(o, k - 1));
                }
            }
            assert forall|a: int, b: int| 1 <= a < b < n.len() implies #[trigger] n[a].cell() != #[trigger] n[b].cell() by {
                assert(n[a].cell() == o[a - 1].cell());
                assert(n[b].cell() == o[b - 1].cell());
                assert(o[a - 1].cell() != o[b - 1].cell());
            }
            assert forall|k: int| 0 <= k < n.len() implies within(#[trigger] n[k].cell(), HALF_EXTENT + 1) by {
                if k > 0 {
                    assert(n[k].cell() == o[k - 1].cell());
                    assert(within(o[k - 1].cell(), HALF_EXTENT as int));
                }
            }
            if in_grid(n[0].cell()) {
                assert forall|k: int| 0 <= k < n.len() implies within(#[trigger] n[k].cell(), HALF_EXTENT as int) by {
                    if k > 0 {
                        assert(n[k].cell() == o[k - 1].cell());
                        assert(within(o[k - 1].cell(), HALF_EXTENT as int));
                    }
                }
            }
            if !head_on_body(n) {
                assert forall|a: int, b: int| 0 <= a < b < n.len() implies #[trigger] n[a].cell() != #[trigger] n[b].cell() by {
                    if a == 0 {
                        assert(!(1 <= b < n.len() && n[b].cell() == n[0].cell()));
                    }
                }
            }
        }
    }
}

impl Snake {
    /// Grows the snake into cell `(x, y)`, the cell just ahead of the head:
    /// a new head travelling in `d` stands there and the old head becomes
    /// body. The other segments stay where they are.
    pub fn grow(&mut self, x: i32, y: i32, d: Direction)
        requires
            old(self).wf(),
            old(self).nodes@[0].snake_type == SnakeType::Head(d),
            (x as int, y as int) == step(old(self).nodes@[0].cell(), d),
            in_grid((x as int, y as int)),
            !occupies(old(self).nodes@, (x as int, y as int)),
            distinct_cells(old(self).nodes@),
        ensures
            final(self).nodes@ == grown(old(self).nodes@, (x as int, y as int), d),
            final(self).nodes@.len() == old(self).nodes@.len() + 1,
            final(self).nodes@[0].cell() == (x as int, y as int),
            final(self).wf(),
            distinct_cells(final(self).nodes@),
            all_within(old(self).nodes@, HALF_EXTENT as int) ==> all_within(final(self).nodes@, HALF_EXTENT as int),
    {
        let ghost o = self.nodes@;
        let ghost c = (x as int, y as int);
        let h = self.nodes[0];
        let mut nodes: Vec<SnakeNode> = Vec::new();
        nodes.push(SnakeNode { snake_type: SnakeType::Head(d), x, y });
        nodes.push(SnakeNode { snake_type: SnakeType::Body, x: h.x, y: h.y });
        let mut i: usize = 1;
        while i < self.nodes.len()
            invariant
                1 <= i <= o.len(),
                self.nodes@ == o,
                nodes@.len() == i + 1,
                forall|k: int| 0 <= k < i + 1 ==> #[trigger] nodes@[k] == grown(o, c, d)[k],
            decreases o.len() - i,
        {
            nodes.push(self.nodes[i]);
            i = i + 1;
        }
        self.nodes = nodes;
        proof {
            let n = self.nodes@;
            let g = grown(o, c, d);
            assert(n =~= g);
            assert forall|k: int| 1 <= k < n.len() implies #[trigger] n[k].cell() == o[k - 1].cell() by {
                assert(n[k] == g[k]);
            }
            assert forall|k: int| 1 <= k < n.len() implies #[trigger] n[k].snake_type == SnakeType::Body by {
                assert(n[k] == g[k]);
            }
            assert forall|k: int| 0 <= k < n.len() - 1 implies #[trigger] linked(n, k) by {
                if k == 0 {
                    lemma_step_adjacent(o[0].cell(), d);
                    assert(n[1].cell() == o[0].cell());
                } else {
                    assert(n[k].cell() == o[k - 1].cell());
                    assert(n[k + 1].cell() == o[k].cell());
                    assert(linked(o, k - 1));
                }
            }
            assert forall|a: int, b: int| 0 <= a < b < n.len() implies #[trigger] n[a].cell() != #[trigger] n[b].cell() by {
                assert(n[b].cell() == o[b - 1].cell());
                if a == 0 {
                    assert(!(0 <= b - 1 < o.len() && o[b - 1].cell() == c));
                } else {
                    assert(n[a].cell() == o[a - 1].cell());
                    assert(o[a - 1].cell() != o[b - 1].cell());
                }
            }
            assert forall|k: int| 0 <= k < n.len() implies within(#[trigger] n[k].cell(), HALF_EXTENT + 1) by {
                if k > 0 {
                    assert(n[k].cell() == o[k - 1].cell());
                }
            }
            if all_within(o, HALF_EXTENT as int) {
                assert forall|k: int| 0 <= k < n.len() implies within(#[trigger] n[k].cell(), HALF_EXTENT as int) by {
                    if k > 0 {
                        assert(n[k].cell() == o[k - 1].cell());
                    }
                }
            }
        }
    }
}

} // verus!

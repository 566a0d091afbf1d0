//! The segment chain: an ordered list of body-part handles, oldest first, and
//! the store that gives each handle its position.

use crate::geometry::{Direction, Keys, Position, CELL_SIZE};
use std::collections::VecDeque;
use vstd::prelude::*;

verus! {

/// Desired length of a freshly built chain.
pub const INITIAL_LENGTH: u64 = 10;

/// What one meal adds to the desired length.
pub const GROWTH: u64 = 10;

/// Index of the head in a chain of `len` segments that wants to be `desired`
/// long: the smaller of the two, less one, and never below zero.
pub open spec fn head_index_of(desired: nat, len: nat) -> nat {
    let least = if desired <= len {
        desired
    } else {
        len
    };
    if least == 0 {
        0
    } else {
        (least - 1) as nat
    }
}

/// The positions of a chain after one move tick. A chain that has reached its
/// desired length gives up its oldest segment and gains one a cell ahead of the
/// head; a shorter one only gains the new segment.
pub open spec fn advanced(cells: Seq<Position>, desired: nat, dir: Direction) -> Seq<Position>
    recommends
        cells.len() > 0,
{
    let next = cells[head_index_of(desired, cells.len()) as int].stepped(dir);
    if desired <= cells.len() {
        cells.drop_first().push(next)
    } else {
        cells.push(next)
    }
}

/// The handles of a chain after one move tick, oldest first. A chain that has
/// reached its desired length reuses the handle of its oldest segment for the
/// new head; a shorter one gets the next handle that the store has not yet
/// handed out.
pub open spec fn advanced_handles(handles: Seq<usize>, desired: nat, allocated: nat) -> Seq<usize>
    recommends
        handles.len() > 0,
{
    if desired <= handles.len() {
        handles.drop_first().push(handles[0])
    } else {
        handles.push(allocated as usize)
    }
}

/// Whether a segment other than the one at index `head` lies on the head's
/// position.
pub open spec fn self_hit(cells: Seq<Position>, head: int) -> bool {
    exists|i: int| 0 <= i < cells.len() && i != head && #[trigger] cells[i] == cells[head]
}

/// A chain that has reached its desired length keeps its length over a move
/// tick: every segment but the oldest stays where it is and comes one place
/// nearer the tail, and the last segment lies one cell ahead of the old head.
pub proof fn lemma_full_chain_shifts(cells: Seq<Position>, desired: nat, dir: Direction)
    requires
        cells.len() > 0,
        desired <= cells.len(),
    ensures
        advanced(cells, desired, dir).len() == cells.len(),
        forall|i: int|
            0 <= i < cells.len() - 1 ==> #[trigger] advanced(cells, desired, dir)[i] == cells[i
                + 1],
        advanced(cells, desired, dir).last() == cells[head_index_of(
            desired,
            cells.len(),
        ) as int].stepped(dir),
        forall|p: Position| #[trigger]
            advanced(cells, desired, dir).contains(p) <==> cells.drop_first().contains(p) || p
                == cells[head_index_of(desired, cells.len()) as int].stepped(dir),
{
    let next = cells[head_index_of(desired, cells.len()) as int].stepped(dir);
    let rest = cells.drop_first();
    let after = advanced(cells, desired, dir);
    assert forall|p: Position| #[trigger] after.contains(p) <==> rest.contains(p) || p == next by {
        if after.contains(p) {
            let i = choose|i: int| 0 <= i < after.len() && after[i] == p;
            if i < rest.len() {
                assert(rest[i] == p);
            }
        }
        if rest.contains(p) {
            let i = choose|i: int| 0 <= i < rest.len() && rest[i] == p;
            assert(after[i] == p);
        }
        if p == next {
            assert(after[after.len() - 1] == p);
        }
    }
}

/// A chain shorter than its desired length gains exactly one segment over a
/// move tick, one cell ahead of its last one, and no segment that it had
/// changes its position.
pub proof fn lemma_short_chain_grows(cells: Seq<Position>, desired: nat, dir: Direction)
    requires
        cells.len() > 0,
        cells.len() < desired,
    ensures
        advanced(cells, desired, dir).len() == cells.len() + 1,
        forall|i: int|
            0 <= i < cells.len() ==> #[trigger] advanced(cells, desired, dir)[i] == cells[i],
        advanced(cells, desired, dir).last() == cells.last().stepped(dir),
{
}

/// While a chain is no longer than it wants to be, its head is the segment
/// that was placed last, before and after a move tick.
pub proof fn lemma_head_is_last(cells: Seq<Position>, desired: nat, dir: Direction)
    requires
        0 < cells.len() <= desired,
    ensures
        head_index_of(desired, cells.len()) == cells.len() - 1,
        advanced(cells, desired, dir).len() <= desired,
        head_index_of(desired, advanced(cells, desired, dir).len()) == advanced(
            cells,
            desired,
            dir,
        ).len() - 1,
{
}

/// A chain of one segment does not hit itself.
pub proof fn lemma_single_segment_never_hits(cells: Seq<Position>, desired: nat)
    requires
        cells.len() == 1,
    ensures
        !self_hit(cells, head_index_of(desired, cells.len()) as int),
{
}

/// A snake: the chain of handles from tail (front) to head (back), the
/// position store indexed by handle, the desired length and the heading.
pub struct Snake {
    segments: VecDeque<usize>,
    store: Vec<Position>,
    desired_len: u64,
    dir: Direction,
}

impl Snake {
    /// The chain is never empty, every handle has a position in the store, and
    /// no handle occurs twice.
    pub closed spec fn wf(&self) -> bool {
        &&& self.segments@.len() > 0
        &&& forall|i: int|
            0 <= i < self.segments@.len() ==> (#[trigger] self.segments@[i]) < self.store@.len()
        &&& forall|i: int, j: int|
            0 <= i < j < self.segments@.len() ==> self.segments@[i] != self.segments@[j]
    }

    /// The positions of the segments, oldest first.
    pub closed spec fn cells(&self) -> Seq<Position> {
        Seq::new(self.segments@.len(), |i: int| self.store@[self.segments@[i] as int])
    }

    /// The length that the chain grows toward.
    pub closed spec fn desired(&self) -> nat {
        self.desired_len as nat
    }

    /// The current heading.
    pub closed spec fn heading(&self) -> Direction {
        self.dir
    }

    /// How many body parts the store has handed out so far.
    pub closed spec fn allocated(&self) -> nat {
        self.store@.len()
    }

    /// The handles of the segments, oldest first. A handle names one body part
    /// for as long as the snake lives.
    pub closed spec fn handles(&self) -> Seq<usize> {
        self.segments@
    }

    /// The position that the store holds for a handle.
    pub closed spec fn position_of(&self, handle: usize) -> Position {
        self.store@[handle as int]
    }

    /// Index of the head within `cells()`.
    pub open spec fn head_idx(&self) -> int {
        head_index_of(self.desired(), self.cells().len()) as int
    }

    /// Position of the head.
    pub open spec fn head_cell(&self) -> Position {
        self.cells()[self.head_idx()]
    }

    /// Whether some segment lies on `p`.
    pub open spec fn occupies(&self, p: Position) -> bool {
        self.cells().contains(p)
    }

    /// A well-formed chain is never empty.
    pub proof fn lemma_never_empty(&self)
        requires
            self.wf(),
        ensures
            self.cells().len() > 0,
    {
    }

    /// Each segment has a handle of its own, one that the store has handed
    /// out.
    pub proof fn lemma_handles_distinct(&self)
        requires
            self.wf(),
        ensures
            self.handles().len() == self.cells().len(),
            self.handles().no_duplicates(),
            forall|i: int|
                0 <= i < self.handles().len() ==> (#[trigger] self.handles()[i])
                    < self.allocated(),
    {
    }

    /// The position of a segment is what the store holds for its handle.
    pub proof fn lemma_cells_by_handle(&self)
        ensures
            self.handles().len() == self.cells().len(),
            forall|i: int|
                0 <= i < self.cells().len() ==> #[trigger] self.cells()[i] == self.position_of(
                    self.handles()[i],
                ),
    {
    }

    /// A snake of one segment at the origin, heading north.
    pub fn new() -> (s: Snake)
        ensures
            s.wf(),
            s.cells() == seq![Position { x: 0, y: 0 }],
            s.desired() == INITIAL_LENGTH,
            s.heading() == Direction::North,
            s.allocated() == 1,
            s.handles() == seq![0usize],
    {
        let mut store: Vec<Position> = Vec::new();
        store.push(Position { x: 0, y: 0 });
        let mut segments: VecDeque<usize> = VecDeque::new();
        segments.push_back(0);
        let s = Snake { segments, store, desired_len: INITIAL_LENGTH, dir: Direction::North };
        assert(s.cells() =~= seq![Position { x: 0, y: 0 }]);
        assert(s.handles() =~= seq![0usize]);
        s
    }

    /// A snake whose segments lie on `cells`, oldest first. There is none for
    /// an empty list.
    pub fn from_cells(cells: &Vec<Position>, desired_len: u64, dir: Direction) -> (r: Option<Snake>)
        ensures
            r.is_some() <==> cells@.len() > 0,
            r matches Some(s) ==> {
                &&& s.wf()
                &&& s.cells() == cells@
                &&& s.desired() == desired_len
                &&& s.heading() == dir
                &&& s.allocated() == cells@.len()
                &&& s.handles() == Seq::new(cells@.len(), |i: int| i as usize)
            },
    {
        if cells.len() == 0 {
            return None;
        }
        let mut store: Vec<Position> = Vec::new();
        let mut segments: VecDeque<usize> = VecDeque::new();
        let mut i: usize = 0;
        while i < cells.len()
            invariant
                i <= cells@.len(),
                store@ == cells@.take(i as int),
                segments@.len() == i,
                forall|k: int| 0 <= k < i ==> (#[trigger] segments@[k]) == k,
            decreases cells@.len() - i,
        {
            store.push(cells[i]);
            segments.push_back(i);
            assert(store@ =~= cells@.take(i + 1));
            i += 1;
        }
        let s = Snake { segments, store, desired_len, dir };
        assert(s.cells() =~= cells@);
        assert(s.handles() =~= Seq::new(cells@.len(), |i: int| i as usize));
        Some(s)
    }

    /// Number of segments.
    pub fn len(&self) -> (n: usize)
        requires
            self.wf(),
        ensures
            n == self.cells().len(),
            n > 0,
    {
        self.segments.len()
    }

    pub fn desired_len(&self) -> (d: u64)
        ensures
            d == self.desired(),
    {
        self.desired_len
    }

    pub fn direction(&self) -> (d: Direction)
        ensures
            d == self.heading(),
    {
        self.dir
    }

    /// Index of the head: the smaller of desired length and chain length,
    /// less one, stopping at zero.
    pub fn head_index(&self) -> (h: usize)
        requires
            self.wf(),
        ensures
            h == self.head_idx(),
            h < self.cells().len(),
    {
        let n: usize = self.segments.len();
        if self.desired_len <= n as u64 {
            if self.desired_len == 0 {
                0
            } else {
                (self.desired_len - 1) as usize
            }
        } else {
            n - 1
        }
    }

    /// Position of the segment at index `i`, counted from the tail.
    pub fn cell(&self, i: usize) -> (r: Option<Position>)
        requires
            self.wf(),
        ensures
            r == if i < self.cells().len() {
                Some(self.cells()[i as int])
            } else {
                None
            },
    {
        if i < self.segments.len() {
            Some(self.store[self.segments[i]])
        } else {
            None
        }
    }

    /// Handle of the segment at index `i`, counted from the tail.
    pub fn handle(&self, i: usize) -> (r: Option<usize>)
        requires
            self.wf(),
        ensures
            r == if i < self.handles().len() {
                Some(self.handles()[i as int])
            } else {
                None
            },
    {
        if i < self.segments.len() {
            Some(self.segments[i])
        } else {
            None
        }
    }

    /// The position that the store holds for `handle`, if it has handed that
    /// handle out.
    pub fn position(&self, handle: usize) -> (r: Option<Position>)
        ensures
            r == if handle < self.allocated() {
                Some(self.position_of(handle))
            } else {
                None
            },
    {
        if handle < self.store.len() {
            Some(self.store[handle])
        } else {
            None
        }
    }

    /// How many body parts the store has handed out so far. Every handle is
    /// below this number.
    pub fn allocated_count(&self) -> (n: usize)
        ensures
            n == self.allocated(),
    {
        self.store.len()
    }

    /// Position of the head.
    pub fn head(&self) -> (p: Position)
        requires
            self.wf(),
        ensures
            p == self.head_cell(),
    {
        let h: usize = self.head_index();
        self.store[self.segments[h]]
    }

    /// Whether the cell ahead of the head has machine coordinates, so that
    /// `advance` may be called.
    pub fn can_advance(&self) -> (r: bool)
        requires
            self.wf(),
        ensures
            r == self.head_cell().can_step(self.heading()),
    {
        let head = self.head();
        let far: i64 = i64::MAX - CELL_SIZE;
        match self.dir {
            Direction::North => head.y <= far,
            Direction::East => head.x <= far,
            Direction::West => head.x >= -far - 1,
            Direction::South => head.y >= -far - 1,
        }
    }

    /// Applies one frame of arrow-key input to the heading. A turn straight
    /// back is not taken.
    pub fn steer(&mut self, keys: Keys)
        ensures
            final(self).heading() == old(self).heading().steered(keys),
            final(self).heading() != old(self).heading().reversed(),
            final(self).cells() == old(self).cells(),
            final(self).desired() == old(self).desired(),
            final(self).allocated() == old(self).allocated(),
            final(self).handles() == old(self).handles(),
            forall|h: usize| #[trigger] final(self).position_of(h) == old(self).position_of(h),
            old(self).wf() ==> final(self).wf(),
    {
        self.dir = self.dir.steer(keys);
    }

    /// Takes the meals of one frame: any number of them, if there is at least
    /// one, adds `GROWTH` to the desired length once.
    pub fn grow(&mut self, meals: usize)
        requires
            meals > 0 ==> old(self).desired() + GROWTH <= u64::MAX,
        ensures
            final(self).desired() == if meals > 0 {
                old(self).desired() + GROWTH
            } else {
                old(self).desired() as int
            },
            final(self).cells() == old(self).cells(),
            final(self).heading() == old(self).heading(),
            final(self).allocated() == old(self).allocated(),
            final(self).handles() == old(self).handles(),
            forall|h: usize| #[trigger] final(self).position_of(h) == old(self).position_of(h),
            old(self).wf() ==> final(self).wf(),
    {
        if meals > 0 {
            self.desired_len = self.desired_len + GROWTH;
        }
    }

    /// One move tick. The new head lies one cell ahead of the old one. A chain
    /// that has its desired length moves its oldest segment there; a shorter
    /// one gets a new segment there and keeps all the others in place.
    pub fn advance(&mut self)
        requires
            old(self).wf(),
            old(self).head_cell().can_step(old(self).heading()),
        ensures
            final(self).wf(),
            final(self).cells() == advanced(
                old(self).cells(),
                old(self).desired(),
                old(self).heading(),
            ),
            final(self).desired() == old(self).desired(),
            final(self).heading() == old(self).heading(),
            final(self).handles() == advanced_handles(
                old(self).handles(),
                old(self).desired(),
                old(self).allocated(),
            ),
            final(self).allocated() == if old(self).desired() <= old(self).cells().len() {
                old(self).allocated()
            } else {
                old(self).allocated() + 1
            },
            forall|h: usize|
                h < old(self).allocated() && !(old(self).desired() <= old(self).cells().len() && h
                    == old(self).handles()[0]) ==> #[trigger] final(self).position_of(h) == old(
                    self,
                ).position_of(h),
    {
        let n: usize = self.segments.len();
        let head = self.head();
        let next = head.step(self.dir);
        let ghost before = *self;
        if self.desired_len <= n as u64 {
            match self.segments.pop_front() {
                Some(tail) => {
                    self.store.set(tail, next);
                    self.segments.push_back(tail);
                },
                None => {},
            }
            assert(self.cells() =~= before.cells().drop_first().push(next));
            assert(self.handles() =~= before.handles().drop_first().push(before.handles()[0]));
        } else {
            let id: usize = self.store.len();
            self.store.push(next);
            self.segments.push_back(id);
            assert(self.cells() =~= before.cells().push(next));
        }
    }

    /// Whether some segment lies on `p`.
    pub fn covers(&self, p: Position) -> (r: bool)
        requires
            self.wf(),
        ensures
            r == self.occupies(p),
    {
        let n: usize = self.segments.len();
        let mut i: usize = 0;
        while i < n
            invariant
                self.wf(),
                n == self.cells().len(),
                i <= n,
                forall|k: int| 0 <= k < i ==> self.cells()[k] != p,
            decreases n - i,
        {
            if self.store[self.segments[i]] == p {
                assert(self.cells()[i as int] == p);
                return true;
            }
            i += 1;
        }
        false
    }

    /// Whether the head lies on another segment of the chain. The head's own
    /// index is left out of the scan, so a chain of one segment never hits
    /// itself.
    pub fn hits_self(&self) -> (r: bool)
        requires
            self.wf(),
        ensures
            r == self_hit(self.cells(), self.head_idx()),
            self.cells().len() == 1 ==> !r,
    {
        let n: usize = self.segments.len();
        let h: usize = self.head_index();
        let head = self.store[self.segments[h]];
        let mut i: usize = 0;
        while i < n
            invariant
                self.wf(),
                n == self.cells().len(),
                h == self.head_idx(),
                head == self.cells()[h as int],
                i <= n,
                forall|k: int| 0 <= k < i && k != h ==> self.cells()[k] != head,
            decreases n - i,
        {
            if i != h && self.store[self.segments[i]] == head {
                assert(self.cells()[i as int] == self.cells()[h as int]);
                return true;
            }
            i += 1;
        }
        false
    }
}

} // verus!

//! The detectors that run on the head after each move: wall and food. The
//! scan of the chain against its own head belongs to the chain.

use crate::geometry::{Position, Viewport};
use vstd::prelude::*;

verus! {

/// The test that food passes when it is not on `head`.
pub open spec fn away_from(head: Position) -> spec_fn(Position) -> bool {
    |p: Position| p != head
}

/// The food that is left after the head has come to `head`: all of it but the
/// pieces that lie exactly there, in the order it had.
pub open spec fn leftovers(foods: Seq<Position>, head: Position) -> Seq<Position> {
    foods.filter(away_from(head))
}

/// No piece of the food that is left lies on the head, every piece elsewhere
/// is kept, and food was taken away exactly if some piece lay on the head.
pub proof fn lemma_leftovers(foods: Seq<Position>, head: Position)
    ensures
        !leftovers(foods, head).contains(head),
        forall|p: Position| p != head && foods.contains(p) ==> leftovers(foods, head).contains(p),
        forall|p: Position| leftovers(foods, head).contains(p) ==> foods.contains(p),
        leftovers(foods, head).len() <= foods.len(),
        leftovers(foods, head).len() < foods.len() <==> foods.contains(head),
    decreases foods.len(),
{
    reveal(Seq::filter);
    if foods.len() > 0 {
        let rest = foods.drop_last();
        lemma_leftovers(rest, head);
        let kept = leftovers(foods, head);
        assert forall|p: Position| p != head && foods.contains(p) implies kept.contains(p) by {
            let i = choose|i: int| 0 <= i < foods.len() && foods[i] == p;
            if i < rest.len() {
                assert(rest[i] == p);
                assert(rest.contains(p));
                let sub = leftovers(rest, head);
                assert(sub.contains(p));
                let j = choose|j: int| 0 <= j < sub.len() && sub[j] == p;
                assert(kept[j] == p);
            } else {
                assert(kept.last() == p);
            }
        }
        assert forall|p: Position| kept.contains(p) implies foods.contains(p) by {
            let j = choose|j: int| 0 <= j < kept.len() && kept[j] == p;
            if j < leftovers(rest, head).len() {
                assert(leftovers(rest, head)[j] == p);
                assert(rest.contains(p));
                let i = choose|i: int| 0 <= i < rest.len() && rest[i] == p;
                assert(foods[i] == p);
            } else {
                assert(foods.last() == p);
            }
        }
        if kept.contains(head) {
            let j = choose|j: int| 0 <= j < kept.len() && kept[j] == head;
            if j < leftovers(rest, head).len() {
                assert(leftovers(rest, head)[j] == head);
            }
        }
        if foods.contains(head) {
            let i = choose|i: int| 0 <= i < foods.len() && foods[i] == head;
            if i < rest.len() {
                assert(rest[i] == head);
            }
        }
        if rest.contains(head) {
            let i = choose|i: int| 0 <= i < rest.len() && rest[i] == head;
            assert(foods[i] == head);
        }
    }
}

/// Whether the head has left the viewport. The border itself is inside: a head
/// whose coordinate equals half the width or height has not hit the wall.
pub fn wall_collision_check(head: Position, viewport: Viewport) -> (hit: bool)
    ensures
        hit == head.outside(viewport),
        -(viewport.width as int) <= 2 * head.x <= viewport.width && -(viewport.height as int) <= 2
            * head.y <= viewport.height ==> !hit,
{
    let half_width: i64 = (viewport.width / 2) as i64;
    let half_height: i64 = (viewport.height / 2) as i64;
    head.x > half_width || head.x < -half_width || head.y > half_height || head.y < -half_height
}

/// Removes every piece of food that lies exactly on `head` and returns how
/// many there were: one meal for each.
pub fn food_collision_check(foods: &mut Vec<Position>, head: Position) -> (meals: usize)
    ensures
        final(foods)@ == leftovers(old(foods)@, head),
        meals == old(foods)@.len() - final(foods)@.len(),
        meals > 0 <==> old(foods)@.contains(head),
{
    let mut kept: Vec<Position> = Vec::new();
    let mut meals: usize = 0;
    let mut i: usize = 0;
    proof {
        reveal(Seq::filter);
        assert(foods@.take(0) =~= Seq::<Position>::empty());
    }
    while i < foods.len()
        invariant
            i <= foods@.len(),
            kept@ == foods@.take(i as int).filter(away_from(head)),
            meals == i - kept@.len(),
        decreases foods@.len() - i,
    {
        let p = foods[i];
        proof {
            reveal(Seq::filter);
            assert(foods@.take(i + 1).drop_last() =~= foods@.take(i as int));
            assert(foods@.take(i + 1).last() == p);
        }
        if p == head {
            meals += 1;
        } else {
            kept.push(p);
        }
        i += 1;
    }
    proof {
        assert(foods@.take(i as int) =~= foods@);
        lemma_leftovers(foods@, head);
    }
    *foods = kept;
    meals
}

} // verus!

//! The food spawner: it draws a grid cell inside the viewport and lays food
//! there unless the snake lies on it.

use crate::chain::Snake;
use crate::geometry::{Position, Viewport, CELL_SIZE};
use rand::Rng;
use vstd::prelude::*;

verus! {

/// The largest cell index that the spawner draws on an axis of the given
/// extent: half the extent, counted in cells and rounded to the nearest whole
/// cell, a half rounding up.
pub open spec fn cell_reach(extent: u32) -> int {
    (extent + CELL_SIZE) / (2 * CELL_SIZE)
}

/// Whether `c` is a world coordinate that the spawner may draw on an axis of
/// the given extent: a whole number of cells, at most `cell_reach` of them on
/// either side of the origin.
pub open spec fn spawn_coordinate(c: i64, extent: u32) -> bool {
    &&& c % CELL_SIZE == 0
    &&& -cell_reach(extent) * CELL_SIZE <= c <= cell_reach(extent) * CELL_SIZE
}

/// Whether the spawner may draw `p` in the given viewport.
pub open spec fn spawn_cell(p: Position, viewport: Viewport) -> bool {
    spawn_coordinate(p.x, viewport.width) && spawn_coordinate(p.y, viewport.height)
}

/// Draws a whole number with `rand::thread_rng`, through
/// `rand::distributions::Uniform::new_inclusive` and `Rng::sample`. The
/// contract claims only that the number lies in the closed range between the
/// two bounds; which one it is depends on the generator.
#[verifier::external_body]
fn sample_inclusive(low: i64, high: i64) -> (r: i64)
    requires
        low <= high,
    ensures
        low <= r <= high,
{
    let mut rng = rand::thread_rng();
    rng.sample(rand::distributions::Uniform::new_inclusive(low, high))
}

/// The largest cell index for an axis of the given extent.
pub fn reach(extent: u32) -> (r: i64)
    ensures
        r == cell_reach(extent),
        0 <= r <= 214748365,
{
    (extent as i64 + CELL_SIZE) / (2 * CELL_SIZE)
}

/// Draws one world coordinate for an axis of the given extent.
fn draw_coordinate(extent: u32) -> (c: i64)
    ensures
        spawn_coordinate(c, extent),
{
    let r: i64 = reach(extent);
    let k: i64 = sample_inclusive(-r, r);
    cell_coordinate(k)
}

/// Draws the position for the next food: a random cell of the viewport,
/// in world units. The horizontal coordinate is drawn first.
pub fn draw_cell(viewport: Viewport) -> (p: Position)
    ensures
        spawn_cell(p, viewport),
{
    let x: i64 = draw_coordinate(viewport.width);
    let y: i64 = draw_coordinate(viewport.height);
    Position { x, y }
}

/// The world coordinate of the cell with the given index on an axis: the
/// index scaled by the cell size. This is what becomes of the index that the
/// spawner drew.
pub fn cell_coordinate(index: i64) -> (c: i64)
    requires
        i64::MIN <= index * CELL_SIZE <= i64::MAX,
    ensures
        c == index * CELL_SIZE,
        forall|extent: u32|
            -cell_reach(extent) <= index <= cell_reach(extent) ==> #[trigger] spawn_coordinate(
                c,
                extent,
            ),
{
    index * CELL_SIZE
}

/// The food on the board after an attempt to lay food on `candidate`: it is
/// added unless a segment lies there.
pub open spec fn with_food(foods: Seq<Position>, cells: Seq<Position>, candidate: Position) -> Seq<
    Position,
> {
    if cells.contains(candidate) {
        foods
    } else {
        foods.push(candidate)
    }
}

/// Lays food on `candidate` unless a segment of the snake lies there. An
/// occupied cell gets no food and nothing else is tried. Food that is already
/// out stays: any number of pieces may lie on the board.
pub fn place_food(snake: &Snake, foods: &mut Vec<Position>, candidate: Position) -> (placed: bool)
    requires
        snake.wf(),
    ensures
        placed == !snake.occupies(candidate),
        final(foods)@ == with_food(old(foods)@, snake.cells(), candidate),
        snake.occupies(candidate) ==> final(foods)@ == old(foods)@,
{
    if snake.covers(candidate) {
        false
    } else {
        foods.push(candidate);
        true
    }
}

/// One spawn tick: draws a cell of the viewport and lays food there unless the
/// snake lies on it. Returns the position of the new food, if any.
pub fn spawn_food(snake: &Snake, foods: &mut Vec<Position>, viewport: Viewport) -> (r: Option<
    Position,
>)
    requires
        snake.wf(),
    ensures
        match r {
            Some(p) => spawn_cell(p, viewport) && !snake.occupies(p) && final(foods)@ == old(
                foods,
            )@.push(p),
            None => final(foods)@ == old(foods)@ && exists|c: Position| #[trigger]
                spawn_cell(c, viewport) && snake.occupies(c),
        },
{
    let candidate = draw_cell(viewport);
    if place_food(snake, foods, candidate) {
        Some(candidate)
    } else {
        None
    }
}

} // verus!

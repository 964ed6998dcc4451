//! A rules engine for a chess variant on a fixed 16 x 16 grid.
//!
//! Piece movement is described declaratively by a rule descriptor (movement
//! capability flags, step-over permission, maximum distance, direction
//! restriction) rather than hard-coded per piece type.  The engine answers
//! whether a move is legal, whether it would expose the mover's own king,
//! applies legal moves to the board, and enumerates legal destinations.
use vstd::prelude::*;

pub mod board;
pub mod laws;
pub mod piece;
pub mod states;

verus! {

/// Number of squares along one edge of the board.
pub const TILE_NUMBER: usize = 16;

/// The squares strictly between `a` and `b`, walking from `a` toward `b`:
/// ascending `a + 1 .. b` when `b > a`, descending `a - 1 ..= b + 1` when
/// `a > b`, and empty when `a == b`.
pub fn range_inclusive(a: usize, b: usize) -> (r: Vec<usize>)
    ensures
        b > a ==> r@.len() == b - a - 1,
        a > b ==> r@.len() == a - b - 1,
        a == b ==> r@.len() == 0,
        forall|k: int| 0 <= k < r@.len() ==> r@[k] == (if b > a { a + 1 + k } else { a - 1 - k }),
{
    let mut r: Vec<usize> = Vec::new();
    if b > a {
        let mut i: usize = a + 1;
        while i < b
            invariant
                a + 1 <= i <= b,
                r@.len() == i - a - 1,
                forall|k: int| 0 <= k < r@.len() ==> r@[k] == a + 1 + k,
            decreases b - i,
        {
            r.push(i);
            i = i + 1;
        }
    } else if a > b {
        let mut i: usize = a - 1;
        while i > b
            invariant
                b <= i <= a - 1,
                r@.len() == a - 1 - i,
                forall|k: int| 0 <= k < r@.len() ==> r@[k] == a - 1 - k,
            decreases i - b,
        {
            r.push(i);
            i = i - 1;
        }
    }
    r
}

} // verus!

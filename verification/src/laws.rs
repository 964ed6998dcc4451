//! The engine's cross-cutting laws, stated and proved over the same spec
//! functions the executable contracts use.
use vstd::prelude::*;

use crate::board::{
    cheb, col_of, legal_on, lemma_index_decomposition, moved_piece_of, on_path, on_path_cr,
    path_clear_cr, post_grid, row_of, spec_move_events, square_index, step_x, step_y,
    BoardRecource, PieceResult, BOARD_LEN,
};
use crate::piece::{Piece, PieceTypes};
use crate::TILE_NUMBER;

verus! {

/// No square moves to itself: `src == dst` is never legal, on any board.
pub proof fn lemma_no_self_move(board: BoardRecource, s: int)
    ensures
        !board.spec_is_legal(s, s),
{
}

/// Whether some piece on the grid carries the external identifier `id`.
pub open spec fn id_on_grid(grid: Seq<Option<Piece>>, id: u64) -> bool {
    exists|i: int|
        #![trigger grid[i]]
        0 <= i < grid.len() && grid[i] is Some && grid[i]->0.id == Option::Some(id)
}

/// After a move the source square is empty and the destination holds exactly
/// the mover — in particular after a capture, whose former occupant is gone.
pub proof fn lemma_capture_post(grid: Seq<Option<Piece>>, src: int, dst: int)
    requires
        0 <= src < grid.len(),
        0 <= dst < grid.len(),
        src != dst,
    ensures
        post_grid(grid, src, dst)[src] is None,
        post_grid(grid, src, dst)[dst] == Option::Some(moved_piece_of(grid, src, dst)),
{
}

/// A captured identifier that appeared nowhere else on the board is gone
/// from the board the move leaves behind.
pub proof fn lemma_captured_id_gone(
    grid: Seq<Option<Piece>>,
    turn: bool,
    src: int,
    dst: int,
    cid: u64,
)
    requires
        legal_on(grid, turn, src, dst),
        grid[dst] is Some,
        grid[dst]->0.id == Option::Some(cid),
        forall|i: int|
            #![trigger grid[i]]
            0 <= i < grid.len() && i != dst ==> !(grid[i] is Some && grid[i]->0.id
                == Option::Some(cid)),
    ensures
        !id_on_grid(post_grid(grid, src, dst), cid),
{
    let pg = post_grid(grid, src, dst);
    assert forall|i: int| 0 <= i < pg.len() implies !(#[trigger] pg[i] is Some && pg[i]->0.id
        == Option::Some(cid)) by {
        if i == src {
        } else if i == dst {
            assert(!(grid[src] is Some && grid[src]->0.id == Option::Some(cid)));
        } else {
            assert(pg[i] == grid[i]);
        }
    }
}

/// Every event a successful move emits carries the identifier of a piece
/// standing on the pre-move board, at the source or at the destination; a
/// later move therefore cannot mention an identifier the board has lost.
pub proof fn lemma_events_ids_on_board(grid: Seq<Option<Piece>>, src: int, dst: int)
    requires
        0 <= src < grid.len(),
        0 <= dst < grid.len(),
        grid[src] is Some,
    ensures
        forall|k: int|
            0 <= k < spec_move_events(grid, src, dst).len() ==> id_on_grid(
                grid,
                #[trigger] spec_move_events(grid, src, dst)[k].0,
            ),
{
    let ev = spec_move_events(grid, src, dst);
    assert forall|k: int| 0 <= k < ev.len() implies id_on_grid(grid, ev[k].0) by {
        assert(grid[src] == grid[src]);
        assert(grid[dst] == grid[dst]);
    }
}

/// Promotion invariant: a pawn-capability mover landing on an extreme row
/// stands on the destination as a queen with its color and identifier
/// unchanged, and, when it carries an identifier, the move's first event is
/// the promotion, tagged with that identifier and color.
pub proof fn lemma_promotion(grid: Seq<Option<Piece>>, src: int, dst: int)
    requires
        0 <= src < grid.len(),
        0 <= dst < grid.len(),
        src != dst,
        grid[src] is Some,
        grid[src]->0.rules.movment_rules.pawn_movment,
        row_of(dst) == 0 || row_of(dst) == TILE_NUMBER as int - 1,
    ensures
        post_grid(grid, src, dst)[dst] is Some,
        post_grid(grid, src, dst)[dst]->0.piece_type == PieceTypes::Queen,
        post_grid(grid, src, dst)[dst]->0.color == grid[src]->0.color,
        post_grid(grid, src, dst)[dst]->0.id == grid[src]->0.id,
        grid[src]->0.id is Some ==> spec_move_events(grid, src, dst)[0] == (
            grid[src]->0.id->0,
            PieceResult::Promoted(dst as usize, PieceTypes::Queen, grid[src]->0.color),
        ),
{
}

/// On a clear path, every square strictly between start and target is empty.
proof fn lemma_clear_path_empty_cr(
    grid: Seq<Option<Piece>>,
    fc: int,
    fr: int,
    tc: int,
    tr: int,
    first: bool,
    mc: int,
    mr: int,
)
    requires
        path_clear_cr(grid, fc, fr, tc, tr, first),
        on_path_cr(fc, fr, tc, tr, mc, mr),
    ensures
        grid[square_index(mc, mr)] is None,
    decreases cheb(tc - fc, tr - fr),
{
    let nc = fc + step_x(tc - fc, tr - fr);
    let nr = fr + step_y(tc - fc, tr - fr);
    if nc == mc && nr == mr {
        assert(path_clear_cr(grid, nc, nr, tc, tr, false));
    } else {
        lemma_clear_path_empty_cr(grid, nc, nr, tc, tr, false, mc, mr);
    }
}

/// A square on the path lies strictly nearer the target than the start does;
/// in particular it is neither the start nor the target.
proof fn lemma_on_path_bounds_cr(fc: int, fr: int, tc: int, tr: int, mc: int, mr: int)
    requires
        on_path_cr(fc, fr, tc, tr, mc, mr),
    ensures
        cheb(tc - mc, tr - mr) < cheb(tc - fc, tr - fr),
        !(mc == tc && mr == tr),
        !(mc == fc && mr == fr),
    decreases cheb(tc - fc, tr - fr),
{
    let nc = fc + step_x(tc - fc, tr - fr);
    let nr = fr + step_y(tc - fc, tr - fr);
    if nc == mc && nr == mr {
    } else {
        lemma_on_path_bounds_cr(nc, nr, tc, tr, mc, mr);
    }
}

/// An occupied square on the path blocks it.
proof fn lemma_blocked_path_cr(
    grid: Seq<Option<Piece>>,
    fc: int,
    fr: int,
    tc: int,
    tr: int,
    first: bool,
    mc: int,
    mr: int,
)
    requires
        on_path_cr(fc, fr, tc, tr, mc, mr),
        grid[square_index(mc, mr)] is Some,
    ensures
        !path_clear_cr(grid, fc, fr, tc, tr, first),
{
    if path_clear_cr(grid, fc, fr, tc, tr, first) {
        lemma_clear_path_empty_cr(grid, fc, fr, tc, tr, first, mc, mr);
    }
}

/// Step-over invariant: on a legal move of a piece that may not step over,
/// every square strictly on the path is empty; occupying any of them with
/// any piece makes the move illegal, and emptying that square again gives
/// back exactly the starting grid, on which the move is legal by assumption.
pub proof fn lemma_step_over_blocking(
    grid: Seq<Option<Piece>>,
    turn: bool,
    src: int,
    dst: int,
    m: int,
    q: Piece,
)
    requires
        legal_on(grid, turn, src, dst),
        !grid[src]->0.rules.step_over_rule,
        0 <= m < BOARD_LEN,
        on_path(src, dst, m),
    ensures
        grid[m] is None,
        !legal_on(grid.update(m, Option::Some(q)), turn, src, dst),
        grid.update(m, Option::Some(q)).update(m, Option::None) == grid,
{
    lemma_index_decomposition(src);
    lemma_index_decomposition(dst);
    lemma_index_decomposition(m);
    lemma_on_path_bounds_cr(
        col_of(src),
        row_of(src),
        col_of(dst),
        row_of(dst),
        col_of(m),
        row_of(m),
    );
    assert(m != src && m != dst);
    lemma_clear_path_empty_cr(
        grid,
        col_of(src),
        row_of(src),
        col_of(dst),
        row_of(dst),
        true,
        col_of(m),
        row_of(m),
    );
    assert(grid[m] is None);
    let g2 = grid.update(m, Option::Some(q));
    lemma_blocked_path_cr(
        g2,
        col_of(src),
        row_of(src),
        col_of(dst),
        row_of(dst),
        true,
        col_of(m),
        row_of(m),
    );
    assert(g2[src] == grid[src]);
    assert(grid.update(m, Option::Some(q)).update(m, Option::None) =~= grid);
}

} // verus!

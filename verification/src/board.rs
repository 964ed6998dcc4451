//! Board state and the move engine: legality, path tracing, check detection,
//! move application, and enumeration of legal destinations.
use vstd::prelude::*;

use crate::TILE_NUMBER;
use crate::piece::{spec_rules_of, Piece, PieceTypes, Rules};

verus! {

/// Number of squares on the board.
pub const BOARD_LEN: usize = TILE_NUMBER * TILE_NUMBER;

/// The grid of optional pieces plus whose turn it is; the sole mutable
/// aggregate of a game session.
#[derive(Clone)]
pub struct BoardRecource {
    /// One entry per square; `None` means the square is empty.
    pub grid: Vec<Option<Piece>>,
    /// Whose turn it is: `true` for white, `false` for black.
    pub turn: bool,
}

impl Default for BoardRecource {
    /// An empty board (no squares yet) with black nominally to move.
    fn default() -> (r: Self)
        ensures
            r.grid@.len() == 0,
            r.turn == false,
    {
        BoardRecource { grid: Vec::new(), turn: false }
    }
}

/// The column of a square index.
pub open spec fn col_of(i: int) -> int {
    i % (TILE_NUMBER as int)
}

/// The row of a square index.
pub open spec fn row_of(i: int) -> int {
    i / (TILE_NUMBER as int)
}

/// The square index of a (column, row) pair.
pub open spec fn square_index(c: int, r: int) -> int {
    r * (TILE_NUMBER as int) + c
}

/// The absolute value of an integer.
pub open spec fn abs_val(x: int) -> int {
    if x >= 0 {
        x
    } else {
        -x
    }
}

/// The Chebyshev length of a delta: the larger of the two absolute values.
pub open spec fn cheb(dx: int, dy: int) -> int {
    if abs_val(dx) >= abs_val(dy) {
        abs_val(dx)
    } else {
        abs_val(dy)
    }
}

/// The column component of the unit step toward a delta `(dx, dy)`: the sign
/// of `dx`, except that a step dominated by the row delta moves rows only.
pub open spec fn step_x(dx: int, dy: int) -> int {
    if dx == 0 {
        0
    } else if dy == 0 || abs_val(dx) >= abs_val(dy) {
        if dx > 0 {
            1
        } else {
            -1
        }
    } else {
        0
    }
}

/// The row component of the unit step toward a delta `(dx, dy)`.
pub open spec fn step_y(dx: int, dy: int) -> int {
    if dy == 0 {
        0
    } else if dx == 0 || abs_val(dy) >= abs_val(dx) {
        if dy > 0 {
            1
        } else {
            -1
        }
    } else {
        0
    }
}

/// Whether the walk from `(fc, fr)` toward `(tc, tr)` meets no occupied
/// square strictly between its start and its target.  `first` is true only at
/// the start square, which is never tested for occupancy; neither is the
/// target.
pub open spec fn path_clear_cr(
    grid: Seq<Option<Piece>>,
    fc: int,
    fr: int,
    tc: int,
    tr: int,
    first: bool,
) -> bool
    decreases cheb(tc - fc, tr - fr),
{
    if fc == tc && fr == tr {
        true
    } else if !first && grid[square_index(fc, fr)] is Some {
        false
    } else {
        path_clear_cr(
            grid,
            fc + step_x(tc - fc, tr - fr),
            fr + step_y(tc - fc, tr - fr),
            tc,
            tr,
            false,
        )
    }
}

/// Whether the path from square `src` to square `dst` is clear of occupants
/// on its intermediate squares.
pub open spec fn path_clear(grid: Seq<Option<Piece>>, src: int, dst: int) -> bool {
    path_clear_cr(grid, col_of(src), row_of(src), col_of(dst), row_of(dst), true)
}

/// Whether the walk from `(fc, fr)` toward `(tc, tr)` passes through
/// `(mc, mr)` strictly between its start and its target.
pub open spec fn on_path_cr(fc: int, fr: int, tc: int, tr: int, mc: int, mr: int) -> bool
    decreases cheb(tc - fc, tr - fr),
{
    if fc == tc && fr == tr {
        false
    } else {
        let nc = fc + step_x(tc - fc, tr - fr);
        let nr = fr + step_y(tc - fc, tr - fr);
        if nc == tc && nr == tr {
            false
        } else {
            (nc == mc && nr == mr) || on_path_cr(nc, nr, tc, tr, mc, mr)
        }
    }
}

/// Whether square `m` lies strictly between `src` and `dst` on the traced
/// path.
pub open spec fn on_path(src: int, dst: int, m: int) -> bool {
    on_path_cr(col_of(src), row_of(src), col_of(dst), row_of(dst), col_of(m), row_of(m))
}

impl BoardRecource {
    /// The grid covers every square of the board, exactly once.
    pub open spec fn wf(self) -> bool {
        self.grid@.len() == BOARD_LEN
    }

    /// Flips whose turn it is; the grid is untouched.
    pub fn change_turn(&mut self)
        ensures
            final(self).turn == !old(self).turn,
            final(self).grid == old(self).grid,
    {
        self.turn = !self.turn;
    }
}

/// The square index holding the column `x` and row `y`.
pub fn to_board_index(x: usize, y: usize) -> (r: usize)
    requires
        x < TILE_NUMBER,
        y < TILE_NUMBER,
    ensures
        r == square_index(x as int, y as int),
        r < BOARD_LEN,
        col_of(r as int) == x,
        row_of(r as int) == y,
{
    let r = TILE_NUMBER * y + x;
    proof {
        lemma_square_coordinates(x as int, y as int);
    }
    r
}

/// The (column, row) pair of a square index.
pub fn to_cord_index(index: usize) -> (r: (usize, usize))
    ensures
        r.0 == col_of(index as int),
        r.1 == row_of(index as int),
        index < BOARD_LEN ==> square_index(r.0 as int, r.1 as int) == index,
{
    proof {
        vstd::arithmetic::div_mod::lemma_fundamental_div_mod(index as int, TILE_NUMBER as int);
    }
    (index % TILE_NUMBER, index / TILE_NUMBER)
}

/// Index-to-coordinates conversion and back are exact inverses: a (column,
/// row) pair within the board round-trips through its square index, and a
/// square index round-trips through its coordinates.
pub proof fn lemma_square_bijection(c: int, r: int, i: int)
    requires
        0 <= c < TILE_NUMBER,
        0 <= r < TILE_NUMBER,
        0 <= i < BOARD_LEN,
    ensures
        col_of(square_index(c, r)) == c,
        row_of(square_index(c, r)) == r,
        0 <= square_index(c, r) < BOARD_LEN,
        square_index(col_of(i), row_of(i)) == i,
{
    lemma_square_coordinates(c, r);
    vstd::arithmetic::div_mod::lemma_fundamental_div_mod(i, TILE_NUMBER as int);
}

/// Whether a forward-only piece of color `color` may change its row by `dy`:
/// white advances toward decreasing rows, black toward increasing rows.
pub open spec fn forward_ok(color: bool, dy: int) -> bool {
    if color {
        dy <= 0
    } else {
        dy >= 0
    }
}

/// Whether a distance is within an optional cap; `None` means unbounded.
pub open spec fn within_max(d: int, max_distance: Option<i32>) -> bool {
    match max_distance {
        Option::Some(m) => d <= m as int,
        Option::None => true,
    }
}

/// Pawn-like acceptance: within the advance cap (reduced by one once the
/// piece has moved), a capture must be a diagonal single step onto an enemy
/// square, and a move onto an empty square must be a straight advance.
pub open spec fn pawn_accepts(
    grid: Seq<Option<Piece>>,
    piece: Piece,
    dst: int,
    dx: int,
    dy: int,
) -> bool {
    &&& piece.rules.movment_rules.pawn_movment
    &&& (match piece.rules.max_distance {
        Option::Some(m) => abs_val(dy) <= (if piece.has_moved {
            (m as int) - 1
        } else {
            m as int
        }),
        Option::None => true,
    })
    &&& (match grid[dst] {
        Option::Some(target) => target.color != piece.color && abs_val(dx) == 1 && abs_val(dy)
            == 1,
        Option::None => dx == 0,
    })
}

/// Horizontal acceptance: along a row, within the cap.
pub open spec fn horizontal_accepts(piece: Piece, dx: int, dy: int) -> bool {
    &&& piece.rules.movment_rules.horizontal_movment
    &&& dy == 0
    &&& within_max(abs_val(dx), piece.rules.max_distance)
}

/// Vertical acceptance: along a column, within the cap.
pub open spec fn vertical_accepts(piece: Piece, dx: int, dy: int) -> bool {
    &&& piece.rules.movment_rules.vertical_movment
    &&& dx == 0
    &&& within_max(abs_val(dy), piece.rules.max_distance)
}

/// Diagonal acceptance: equal column and row magnitudes, within the cap.
pub open spec fn diagonal_accepts(piece: Piece, dx: int, dy: int) -> bool {
    &&& piece.rules.movment_rules.diagonal_movment
    &&& abs_val(dx) == abs_val(dy)
    &&& within_max(abs_val(dx), piece.rules.max_distance)
}

/// Radial-jump acceptance: the squared Euclidean distance is divisible by 5
/// and within the cap.
pub open spec fn radial_accepts(piece: Piece, dx: int, dy: int) -> bool {
    &&& piece.rules.movment_rules.shift_step_movment
    &&& (dx * dx + dy * dy) % 5 == 0
    &&& within_max(dx * dx + dy * dy, piece.rules.max_distance)
}

/// Whether moving from `src` to `dst` is legal on a grid with `turn` to move,
/// independent of check safety.  Total over all square pairs: out-of-range
/// squares, a malformed grid, and `src == dst` are simply illegal.
pub open spec fn legal_on(grid: Seq<Option<Piece>>, turn: bool, src: int, dst: int) -> bool {
    &&& grid.len() == BOARD_LEN
    &&& 0 <= src < BOARD_LEN
    &&& 0 <= dst < BOARD_LEN
    &&& src != dst
    &&& grid[src] is Some
    &&& {
        let piece = grid[src]->0;
        let dx = col_of(dst) - col_of(src);
        let dy = row_of(dst) - row_of(src);
        &&& turn == piece.color
        &&& !(grid[dst] is Some && grid[dst]->0.color == piece.color)
        &&& (piece.rules.multiple_direction_rule || forward_ok(piece.color, dy))
        &&& (piece.rules.step_over_rule || path_clear(grid, src, dst))
        &&& {
            ||| pawn_accepts(grid, piece, dst, dx, dy)
            ||| horizontal_accepts(piece, dx, dy)
            ||| vertical_accepts(piece, dx, dy)
            ||| diagonal_accepts(piece, dx, dy)
            ||| radial_accepts(piece, dx, dy)
        }
    }
}

/// The coordinates of `square_index(c, r)` are `(c, r)` again.
proof fn lemma_square_coordinates(c: int, r: int)
    requires
        0 <= c < TILE_NUMBER,
        0 <= r < TILE_NUMBER,
    ensures
        0 <= square_index(c, r) < BOARD_LEN,
        col_of(square_index(c, r)) == c,
        row_of(square_index(c, r)) == r,
{
    let n = TILE_NUMBER as int;
    vstd::arithmetic::div_mod::lemma_div_multiples_vanish_fancy(r, c, n);
    vstd::arithmetic::div_mod::lemma_mod_multiples_vanish(r, c, n);
    vstd::arithmetic::div_mod::lemma_small_mod(c as nat, TILE_NUMBER as nat);
}

/// A square index is its row times the board width plus its column.
pub proof fn lemma_index_decomposition(i: int)
    requires
        0 <= i,
    ensures
        i == square_index(col_of(i), row_of(i)),
{
    vstd::arithmetic::div_mod::lemma_fundamental_div_mod(i, TILE_NUMBER as int);
}

/// Walks one square at a time from `from` toward `to` and reports whether no
/// square strictly between the start and the target is occupied.  `start` is
/// true only for the outermost call, whose own square is never tested.
pub fn can_step_over(board: &Vec<Option<Piece>>, from: usize, to: usize, start: bool) -> (r: bool)
    requires
        board@.len() == BOARD_LEN,
        from < BOARD_LEN,
        to < BOARD_LEN,
    ensures
        r == path_clear_cr(
            board@,
            col_of(from as int),
            row_of(from as int),
            col_of(to as int),
            row_of(to as int),
            start,
        ),
    decreases cheb(
        col_of(to as int) - col_of(from as int),
        row_of(to as int) - row_of(from as int),
    ),
{
    proof {
        lemma_index_decomposition(from as int);
        lemma_index_decomposition(to as int);
    }
    if from == to {
        return true;
    }
    if !start && board[from].is_some() {
        return false;
    }
    let fc = from % TILE_NUMBER;
    let fr = from / TILE_NUMBER;
    let tc = to % TILE_NUMBER;
    let tr = to / TILE_NUMBER;
    let dx: i64 = tc as i64 - fc as i64;
    let dy: i64 = tr as i64 - fr as i64;
    let adx: i64 = if dx < 0 {
        -dx
    } else {
        dx
    };
    let ady: i64 = if dy < 0 {
        -dy
    } else {
        dy
    };
    let sx: i64 = if dx == 0 {
        0
    } else if dy == 0 || adx >= ady {
        if dx > 0 {
            1
        } else {
            -1
        }
    } else {
        0
    };
    let sy: i64 = if dy == 0 {
        0
    } else if dx == 0 || ady >= adx {
        if dy > 0 {
            1
        } else {
            -1
        }
    } else {
        0
    };
    let nc = (fc as i64 + sx) as usize;
    let nr = (fr as i64 + sy) as usize;
    let next = nr * TILE_NUMBER + nc;
    proof {
        lemma_square_coordinates(nc as int, nr as int);
    }
    can_step_over(board, next, to, false)
}

/// Checks a distance against an optional cap; `None` means unbounded.
fn within_max_check(d: i64, max_distance: Option<i32>) -> (r: bool)
    ensures
        r == within_max(d as int, max_distance),
{
    match max_distance {
        Option::Some(m) => d <= m as i64,
        Option::None => true,
    }
}

impl BoardRecource {
    /// Whether moving from `src` to `dst` is legal on this board, independent
    /// of check safety.
    pub open spec fn spec_is_legal(self, src: int, dst: int) -> bool {
        legal_on(self.grid@, self.turn, src, dst)
    }

    /// Whether `src` to `dst` is a legal move for the side to move,
    /// independent of check safety.  Pure and total: out-of-range squares and
    /// a malformed grid are simply illegal.
    pub fn is_move_legal(&self, src: usize, dst: usize) -> (r: bool)
        ensures
            r == self.spec_is_legal(src as int, dst as int),
    {
        if self.grid.len() != BOARD_LEN || src >= BOARD_LEN || dst >= BOARD_LEN || src == dst {
            return false;
        }
        let piece = match self.grid[src] {
            Option::Some(p) => p,
            Option::None => {
                return false;
            },
        };
        if self.turn != piece.color {
            return false;
        }
        match self.grid[dst] {
            Option::Some(target) => {
                if target.color == piece.color {
                    return false;
                }
            },
            Option::None => {},
        }
        let src_col = src % TILE_NUMBER;
        let src_row = src / TILE_NUMBER;
        let dst_col = dst % TILE_NUMBER;
        let dst_row = dst / TILE_NUMBER;
        let dx: i64 = dst_col as i64 - src_col as i64;
        let dy: i64 = dst_row as i64 - src_row as i64;
        if !piece.rules.multiple_direction_rule && ((piece.color && dy > 0) || (!piece.color
            && dy < 0)) {
            return false;
        }
        if !piece.rules.step_over_rule && !can_step_over(&self.grid, src, dst, true) {
            return false;
        }
        let adx: i64 = if dx < 0 {
            -dx
        } else {
            dx
        };
        let ady: i64 = if dy < 0 {
            -dy
        } else {
            dy
        };
        if piece.rules.movment_rules.pawn_movment {
            let within: bool = match piece.rules.max_distance {
                Option::Some(m) => {
                    let cap: i64 = if piece.has_moved {
                        m as i64 - 1
                    } else {
                        m as i64
                    };
                    ady <= cap
                },
                Option::None => true,
            };
            if within {
                let accepted: bool = match self.grid[dst] {
                    Option::Some(target) => target.color != piece.color && adx == 1 && ady == 1,
                    Option::None => dx == 0,
                };
                if accepted {
                    return true;
                }
            }
        }
        if piece.rules.movment_rules.horizontal_movment && dy == 0 && within_max_check(
            adx,
            piece.rules.max_distance,
        ) {
            return true;
        }
        if piece.rules.movment_rules.vertical_movment && dx == 0 && within_max_check(
            ady,
            piece.rules.max_distance,
        ) {
            return true;
        }
        if piece.rules.movment_rules.diagonal_movment && adx == ady && within_max_check(
            adx,
            piece.rules.max_distance,
        ) {
            return true;
        }
        if piece.rules.movment_rules.shift_step_movment {
            proof {
                assert(0 <= dx * dx <= 225 && 0 <= dy * dy <= 225) by (nonlinear_arith)
                    requires
                        -15 <= dx <= 15 && -15 <= dy <= 15,
                ;
            }
            let dist: i64 = dx * dx + dy * dy;
            if dist % 5 == 0 && within_max_check(dist, piece.rules.max_distance) {
                return true;
            }
        }
        false
    }
}

/// The grid after raw application of a candidate move, as the check
/// simulation uses it: the source piece, marked moved, stands at `dst`;
/// `src` is empty; any occupant of `dst` is gone.  Promotion is not part of
/// the simulation.
pub open spec fn sim_grid(grid: Seq<Option<Piece>>, src: int, dst: int) -> Seq<Option<Piece>> {
    let moved = Piece { has_moved: true, ..grid[src]->0 };
    grid.update(dst, Option::Some(moved)).update(src, Option::None)
}

/// Whether a cell holds a king of the given color.
pub open spec fn is_king_of(cell: Option<Piece>, color: bool) -> bool {
    cell is Some && cell->0.color == color && cell->0.piece_type == PieceTypes::King
}

/// The first square at or after `i` holding a king of `color`, or the board
/// length when there is none.
pub open spec fn king_scan(grid: Seq<Option<Piece>>, color: bool, i: int) -> int
    decreases BOARD_LEN - i,
{
    if i < 0 || i >= BOARD_LEN {
        BOARD_LEN as int
    } else if is_king_of(grid[i], color) {
        i
    } else {
        king_scan(grid, color, i + 1)
    }
}

/// Copies the grid, then applies the raw candidate move to the copy.
fn build_sim_grid(grid: &Vec<Option<Piece>>, src: usize, dst: usize) -> (g2: Vec<Option<Piece>>)
    requires
        grid@.len() == BOARD_LEN,
        src < BOARD_LEN,
        dst < BOARD_LEN,
        src != dst,
        grid@[src as int] is Some,
    ensures
        g2@ == sim_grid(grid@, src as int, dst as int),
{
    let mut g2: Vec<Option<Piece>> = Vec::new();
    let mut i: usize = 0;
    while i < BOARD_LEN
        invariant
            grid@.len() == BOARD_LEN,
            i <= BOARD_LEN,
            g2@.len() == i,
            forall|j: int| 0 <= j < i ==> g2@[j] == grid@[j],
        decreases BOARD_LEN - i,
    {
        g2.push(grid[i]);
        i = i + 1;
    }
    proof {
        assert(g2@ =~= grid@);
    }
    let mut moved = g2[src].unwrap();
    moved.has_moved = true;
    g2[dst] = Option::Some(moved);
    g2[src] = Option::None;
    proof {
        assert(g2@ =~= sim_grid(grid@, src as int, dst as int));
    }
    g2
}

/// The first square holding a king of `color`, or the board length when
/// there is none.
fn find_king(grid: &Vec<Option<Piece>>, color: bool) -> (r: usize)
    requires
        grid@.len() == BOARD_LEN,
    ensures
        r == king_scan(grid@, color, 0),
{
    let mut i: usize = 0;
    while i < BOARD_LEN
        invariant
            grid@.len() == BOARD_LEN,
            i <= BOARD_LEN,
            king_scan(grid@, color, 0) == king_scan(grid@, color, i as int),
        decreases BOARD_LEN - i,
    {
        let hit: bool = match grid[i] {
            Option::Some(p) => p.color == color && p.piece_type == PieceTypes::King,
            Option::None => false,
        };
        if hit {
            return i;
        }
        i = i + 1;
    }
    BOARD_LEN
}

/// Whether some square can legally reach `target` on a grid with `turn` to
/// move.
pub open spec fn attacks_square(grid: Seq<Option<Piece>>, turn: bool, target: int) -> bool {
    exists|i: int| 0 <= i < BOARD_LEN && #[trigger] legal_on(grid, turn, i, target)
}

/// Whether any square can legally reach `target` on this board.
fn any_attack(board: &BoardRecource, target: usize) -> (r: bool)
    ensures
        r == attacks_square(board.grid@, board.turn, target as int),
{
    let mut i: usize = 0;
    while i < BOARD_LEN
        invariant
            i <= BOARD_LEN,
            forall|j: int| 0 <= j < i ==> !#[trigger] legal_on(
                board.grid@,
                board.turn,
                j,
                target as int,
            ),
        decreases BOARD_LEN - i,
    {
        if board.is_move_legal(i, target) {
            return true;
        }
        i = i + 1;
    }
    false
}

impl BoardRecource {
    /// Whether applying the candidate move would leave the mover's own king
    /// attacked.  A move that is not independently legal exposes nothing; a
    /// board with no king of the mover's color counts as attacked, a
    /// fail-safe against an invalid board.
    pub open spec fn spec_exposes_king(self, src: int, dst: int) -> bool {
        if !self.spec_is_legal(src, dst) {
            false
        } else {
            let g2 = sim_grid(self.grid@, src, dst);
            let kp = king_scan(g2, self.turn, 0);
            if kp >= BOARD_LEN {
                true
            } else {
                attacks_square(g2, !self.turn, kp)
            }
        }
    }

    /// Simulates the candidate move on a copy of the board and reports
    /// whether the mover's own king would be attacked afterward.  The real
    /// board is untouched.
    pub fn will_be_in_check(&self, src: usize, dst: usize) -> (r: bool)
        ensures
            r == self.spec_exposes_king(src as int, dst as int),
    {
        if !self.is_move_legal(src, dst) {
            return false;
        }
        let g2 = build_sim_grid(&self.grid, src, dst);
        let temp = BoardRecource { grid: g2, turn: !self.turn };
        let king = find_king(&temp.grid, self.turn);
        if king >= BOARD_LEN {
            return true;
        }
        any_attack(&temp, king)
    }
}

/// The outcome reported for one affected piece after an applied move, tagged
/// for the rendering collaborator.
#[derive(Debug, Clone, Copy, PartialEq, Eq, Structural)]
pub enum PieceResult {
    NoResult(),
    Moved(usize),
    Captured(),
    Promoted(usize, PieceTypes, bool),
    Changed(PieceTypes, bool),
}

/// Whether the move from `src` to `dst` promotes: the mover carries the pawn
/// capability and lands on an extreme row.
pub open spec fn promotes(grid: Seq<Option<Piece>>, src: int, dst: int) -> bool {
    grid[src]->0.rules.movment_rules.pawn_movment && (row_of(dst) == 0 || row_of(dst)
        == TILE_NUMBER as int - 1)
}

/// The mover as it stands on the destination afterward: marked moved, and
/// turned into a queen — the strongest standard type, with the queen's rule
/// descriptor — when the move promotes.  Color and identifier are preserved.
pub open spec fn moved_piece_of(grid: Seq<Option<Piece>>, src: int, dst: int) -> Piece {
    let p = grid[src]->0;
    if promotes(grid, src, dst) {
        Piece {
            piece_type: PieceTypes::Queen,
            color: p.color,
            has_moved: true,
            id: p.id,
            rules: spec_rules_of(PieceTypes::Queen),
        }
    } else {
        Piece { has_moved: true, ..p }
    }
}

/// The grid after a successful move: the mover stands on `dst`, `src` is
/// empty, and any occupant of `dst` has been removed.
pub open spec fn post_grid(grid: Seq<Option<Piece>>, src: int, dst: int) -> Seq<Option<Piece>> {
    grid.update(dst, Option::Some(moved_piece_of(grid, src, dst))).update(src, Option::None)
}

/// The events a successful move emits: one for the mover (moved or
/// promoted), then one for a captured occupant of `dst` — each only when
/// that piece carries an external identifier, a missing one being skipped.
pub open spec fn spec_move_events(grid: Seq<Option<Piece>>, src: int, dst: int) -> Seq<
    (u64, PieceResult),
> {
    let p = grid[src]->0;
    let mover: Seq<(u64, PieceResult)> = match p.id {
        Option::Some(idv) => seq![
            (
                idv,
                if promotes(grid, src, dst) {
                    PieceResult::Promoted(dst as usize, PieceTypes::Queen, p.color)
                } else {
                    PieceResult::Moved(dst as usize)
                },
            ),
        ],
        Option::None => Seq::empty(),
    };
    let captured: Seq<(u64, PieceResult)> = match grid[dst] {
        Option::Some(t) => match t.id {
            Option::Some(tid) => seq![(tid, PieceResult::Captured())],
            Option::None => Seq::empty(),
        },
        Option::None => Seq::empty(),
    };
    mover + captured
}

impl BoardRecource {
    /// Whether the move is both legal and check-safe: what the executor
    /// applies and the enumerator collects.
    pub open spec fn spec_can_move(self, src: int, dst: int) -> bool {
        self.spec_is_legal(src, dst) && !self.spec_exposes_king(src, dst)
    }

    /// Applies the move when it is legal and check-safe: marks the mover
    /// moved (promoting it to a queen on an extreme row), removes any
    /// captured occupant before the transfer, moves the mover from `src` to
    /// `dst`, flips the turn, and reports one event per affected identifier.
    /// A rejected attempt returns an empty event list and changes nothing.
    pub fn move_piece(&mut self, src: usize, dst: usize) -> (events: Vec<(u64, PieceResult)>)
        ensures
            old(self).spec_can_move(src as int, dst as int) ==> {
                &&& final(self).turn == !old(self).turn
                &&& final(self).grid@ == post_grid(old(self).grid@, src as int, dst as int)
                &&& events@ == spec_move_events(old(self).grid@, src as int, dst as int)
            },
            !old(self).spec_can_move(src as int, dst as int) ==> {
                &&& *final(self) == *old(self)
                &&& events@.len() == 0
            },
    {
        if !self.is_move_legal(src, dst) {
            return Vec::new();
        }
        if self.will_be_in_check(src, dst) {
            return Vec::new();
        }
        let p = self.grid[src].unwrap();
        let promo = p.rules.movment_rules.pawn_movment && (dst / TILE_NUMBER == 0 || dst
            / TILE_NUMBER == TILE_NUMBER - 1);
        let moved = if promo {
            Piece {
                piece_type: PieceTypes::Queen,
                color: p.color,
                has_moved: true,
                id: p.id,
                rules: Rules::get_rules(PieceTypes::Queen),
            }
        } else {
            Piece { has_moved: true, ..p }
        };
        let mut events: Vec<(u64, PieceResult)> = Vec::new();
        match p.id {
            Option::Some(idv) => {
                let outcome = if promo {
                    PieceResult::Promoted(dst, PieceTypes::Queen, p.color)
                } else {
                    PieceResult::Moved(dst)
                };
                events.push((idv, outcome));
            },
            Option::None => {},
        }
        match self.grid[dst] {
            Option::Some(target) => {
                match target.id {
                    Option::Some(tid) => {
                        events.push((tid, PieceResult::Captured()));
                    },
                    Option::None => {},
                }
            },
            Option::None => {},
        }
        self.grid[dst] = Option::Some(moved);
        self.grid[src] = Option::None;
        self.turn = !self.turn;
        proof {
            assert(events@ =~= spec_move_events(old(self).grid@, src as int, dst as int));
        }
        events
    }

    /// The full list of legal, check-safe destinations from `src`, in
    /// ascending square order: exactly the squares `d` with
    /// `spec_can_move(src, d)`, no omissions and no extras.
    pub fn get_possible_moves(&self, src: usize) -> (moves: Vec<usize>)
        ensures
            forall|d: usize| d < BOARD_LEN ==> (#[trigger] moves@.contains(d)
                <==> self.spec_can_move(src as int, d as int)),
            forall|k: int| 0 <= k < moves@.len() ==> moves@[k] < BOARD_LEN,
            forall|k1: int, k2: int| 0 <= k1 < k2 < moves@.len() ==> moves@[k1] < moves@[k2],
    {
        let mut moves: Vec<usize> = Vec::new();
        let mut i: usize = 0;
        while i < BOARD_LEN
            invariant
                i <= BOARD_LEN,
                forall|d: usize| d < i ==> (#[trigger] moves@.contains(d)
                    <==> self.spec_can_move(src as int, d as int)),
                forall|k: int| 0 <= k < moves@.len() ==> moves@[k] < i,
                forall|k1: int, k2: int| 0 <= k1 < k2 < moves@.len() ==> moves@[k1] < moves@[k2],
            decreases BOARD_LEN - i,
        {
            let ghost prev = moves@;
            if self.is_move_legal(src, i) && !self.will_be_in_check(src, i) {
                moves.push(i);
                proof {
                    assert(moves@ == prev.push(i));
                    assert(moves@.len() == prev.len() + 1);
                    assert(moves@[prev.len() as int] == i);
                    assert(forall|k: int| 0 <= k < prev.len() ==> moves@[k] == prev[k]);
                    assert forall|d: usize| d < i + 1 implies (#[trigger] moves@.contains(d)
                        <==> self.spec_can_move(src as int, d as int)) by {
                        if moves@.contains(d) {
                            let k = choose|k: int|
                                0 <= k < moves@.len() && moves@[k] == d;
                            if k < prev.len() {
                                assert(prev.contains(d));
                            } else {
                                assert(d == i);
                            }
                        }
                        if self.spec_can_move(src as int, d as int) {
                            if d < i {
                                assert(prev.contains(d));
                                let k = choose|k: int|
                                    0 <= k < prev.len() && prev[k] == d;
                                assert(moves@[k] == d);
                                assert(moves@.contains(d));
                            } else {
                                assert(moves@[prev.len() as int] == d);
                                assert(moves@.contains(d));
                            }
                        }
                    }
                }
            } else {
                proof {
                    assert forall|d: usize| d < i + 1 implies (#[trigger] moves@.contains(d)
                        <==> self.spec_can_move(src as int, d as int)) by {
                        if moves@.contains(d) {
                            let k = choose|k: int|
                                0 <= k < moves@.len() && moves@[k] == d;
                        }
                    }
                }
            }
            i = i + 1;
        }
        moves
    }
}

/// The piece type the fixed setup places on a back rank at column `c`,
/// mirrored for both colors: rooks, bishops and knights from either edge,
/// then king, queen, jester, grand commander, amazon and abbess from the
/// king's side; the remaining columns stay empty.
pub open spec fn back_rank_type(c: int) -> Option<PieceTypes> {
    if c == 0 || c == TILE_NUMBER as int - 1 {
        Option::Some(PieceTypes::Rook)
    } else if c == 1 || c == TILE_NUMBER as int - 2 {
        Option::Some(PieceTypes::Bishop)
    } else if c == 2 || c == TILE_NUMBER as int - 3 {
        Option::Some(PieceTypes::Knight)
    } else if c == 3 {
        Option::Some(PieceTypes::King)
    } else if c == 4 {
        Option::Some(PieceTypes::Queen)
    } else if c == 5 {
        Option::Some(PieceTypes::Jester)
    } else if c == 6 {
        Option::Some(PieceTypes::GrandCommander)
    } else if c == 7 {
        Option::Some(PieceTypes::Amazon)
    } else if c == 8 {
        Option::Some(PieceTypes::Abbess)
    } else {
        Option::None
    }
}

/// A freshly placed piece of the given type and color, with the type's fixed
/// rule descriptor.
pub open spec fn spec_fresh_piece(t: PieceTypes, color: bool) -> Piece {
    Piece { piece_type: t, color, has_moved: false, id: Option::None, rules: spec_rules_of(t) }
}

/// What the fixed setup places on square `i`: black pawns on row 1 and
/// black's back rank on row 0, mirrored for white on the last two rows.
pub open spec fn initial_piece_at(i: int) -> Option<Piece> {
    let c = col_of(i);
    let r = row_of(i);
    if r == 1 {
        Option::Some(spec_fresh_piece(PieceTypes::Pawn, false))
    } else if r == TILE_NUMBER as int - 2 {
        Option::Some(spec_fresh_piece(PieceTypes::Pawn, true))
    } else if r == 0 || r == TILE_NUMBER as int - 1 {
        match back_rank_type(c) {
            Option::Some(t) => Option::Some(spec_fresh_piece(t, r != 0)),
            Option::None => Option::None,
        }
    } else {
        Option::None
    }
}

/// What the fixed setup places on square `i`.
fn initial_piece_for(i: usize) -> (r: Option<Piece>)
    requires
        i < BOARD_LEN,
    ensures
        r == initial_piece_at(i as int),
{
    let c = i % TILE_NUMBER;
    let row = i / TILE_NUMBER;
    if row == 1 {
        Option::Some(Piece::new(PieceTypes::Pawn, false, Rules::get_rules(PieceTypes::Pawn)))
    } else if row == TILE_NUMBER - 2 {
        Option::Some(Piece::new(PieceTypes::Pawn, true, Rules::get_rules(PieceTypes::Pawn)))
    } else if row == 0 || row == TILE_NUMBER - 1 {
        let t: Option<PieceTypes> = if c == 0 || c == TILE_NUMBER - 1 {
            Option::Some(PieceTypes::Rook)
        } else if c == 1 || c == TILE_NUMBER - 2 {
            Option::Some(PieceTypes::Bishop)
        } else if c == 2 || c == TILE_NUMBER - 3 {
            Option::Some(PieceTypes::Knight)
        } else if c == 3 {
            Option::Some(PieceTypes::King)
        } else if c == 4 {
            Option::Some(PieceTypes::Queen)
        } else if c == 5 {
            Option::Some(PieceTypes::Jester)
        } else if c == 6 {
            Option::Some(PieceTypes::GrandCommander)
        } else if c == 7 {
            Option::Some(PieceTypes::Amazon)
        } else if c == 8 {
            Option::Some(PieceTypes::Abbess)
        } else {
            Option::None
        };
        match t {
            Option::Some(tt) => Option::Some(Piece::new(tt, row != 0, Rules::get_rules(tt))),
            Option::None => Option::None,
        }
    } else {
        Option::None
    }
}

impl BoardRecource {
    /// Initializes the session: white to move, every square empty except the
    /// fixed placement on the first two and last two ranks of the board.
    pub fn setup_board(&mut self)
        ensures
            final(self).turn == true,
            final(self).wf(),
            forall|i: int|
                0 <= i < BOARD_LEN ==> #[trigger] final(self).grid@[i] == initial_piece_at(i),
    {
        self.turn = true;
        let mut g: Vec<Option<Piece>> = Vec::new();
        let mut i: usize = 0;
        while i < BOARD_LEN
            invariant
                i <= BOARD_LEN,
                g@.len() == i,
                forall|j: int| 0 <= j < i ==> g@[j] == initial_piece_at(j),
            decreases BOARD_LEN - i,
        {
            g.push(initial_piece_for(i));
            i = i + 1;
        }
        self.grid = g;
    }
}

/// The first enumerable move on the board, a stand-in for a future
/// evaluation function: the lowest occupied square with at least one legal,
/// check-safe destination, paired with its lowest such destination.
pub fn get_best_next_move(root_board: &BoardRecource) -> (r: Option<(usize, usize)>)
    ensures
        match r {
            Option::Some(sd) => {
                &&& root_board.spec_can_move(sd.0 as int, sd.1 as int)
                &&& forall|s: int, d: int|
                    0 <= s < sd.0 && 0 <= d < BOARD_LEN ==> !#[trigger] root_board.spec_can_move(
                        s,
                        d,
                    )
                &&& forall|d: int|
                    0 <= d < sd.1 ==> !#[trigger] root_board.spec_can_move(sd.0 as int, d)
            },
            Option::None => forall|s: int, d: int|
                0 <= s < BOARD_LEN && 0 <= d < BOARD_LEN ==> !#[trigger] root_board.spec_can_move(
                    s,
                    d,
                ),
        },
{
    let mut s: usize = 0;
    while s < BOARD_LEN
        invariant
            s <= BOARD_LEN,
            forall|s2: int, d: int|
                0 <= s2 < s && 0 <= d < BOARD_LEN ==> !#[trigger] root_board.spec_can_move(s2, d),
        decreases BOARD_LEN - s,
    {
        let mv = root_board.get_possible_moves(s);
        if mv.len() > 0 {
            let first = mv[0];
            proof {
                assert(mv@.contains(mv@[0]));
                assert forall|d: int| 0 <= d < first implies !#[trigger] root_board.spec_can_move(
                    s as int,
                    d,
                ) by {
                    if root_board.spec_can_move(s as int, d) {
                        assert(mv@.contains(d as usize));
                        let k = choose|k: int| 0 <= k < mv@.len() && mv@[k] == d as usize;
                        if k > 0 {
                            assert(mv@[0] < mv@[k]);
                        }
                    }
                }
            }
            return Option::Some((s, first));
        }
        proof {
            assert forall|d: int| 0 <= d < BOARD_LEN implies !#[trigger] root_board.spec_can_move(
                s as int,
                d,
            ) by {
                if root_board.spec_can_move(s as int, d) {
                    assert(mv@.contains(d as usize));
                }
            }
        }
        s = s + 1;
    }
    Option::None
}

} // verus!

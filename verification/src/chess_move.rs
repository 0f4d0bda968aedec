use crate::board::BoardGame;
use crate::error::SquareError;
use crate::piece::{Piece, PieceColor, PieceType};
use vstd::prelude::*;

verus! {

/// Every way a proposed move can be rejected. Validation reports exactly one
/// reason, the first failing check in a fixed order.
#[derive(Clone, Copy, Debug, PartialEq, Eq, Structural)]
pub enum MoveError {
    OutOfBounds,
    NoPieceAtSource,
    SamePosition,
    CaptureOwnPiece,
    InvalidPawnCapture,
    InvalidPawnMove,
    InvalidRookMove,
    InvalidKnightMove,
    InvalidBishopMove,
    InvalidKingMove,
    InvalidQueenMove,
    PieceBlocking,
}

/// One of the 64 cells of the board, stored as a flat index in [0, 64).
/// Row 0 is the edge holding Black's back rank; column 0 is file 'a'.
/// A square can only be obtained from in-range coordinates, so a value of
/// this type always denotes a cell of the grid.
#[derive(Clone, Copy, Debug, PartialEq, Eq, Hash, PartialOrd, Ord, Structural)]
pub struct Square(u8);

/// The flat index of the cell at the given row and column.
pub open spec fn cell_index(row: int, col: int) -> int {
    row * 8 + col
}

/// The square whose flat index is `row * 8 + col`; meaningful for
/// rows and columns in [0, 8).
pub closed spec fn square_at(row: int, col: int) -> Square {
    Square(((row * 8 + col) % 256) as u8)
}

impl Square {
    #[verifier::type_invariant]
    spec fn inv(self) -> bool {
        self.0 < 64
    }

    /// The row this square lies on, in [0, 8) for any constructed square.
    pub closed spec fn row_spec(self) -> int {
        self.0 as int / 8
    }

    /// The column this square lies on, in [0, 8) for any constructed square.
    pub closed spec fn col_spec(self) -> int {
        self.0 as int % 8
    }

    /// A square is exactly its row and column: rebuilding a square from its
    /// own coordinates yields an equal square.
    pub proof fn lemma_round_trip(self)
        ensures
            square_at(self.row_spec(), self.col_spec()) == self,
    {
    }

    /// The coordinates of the square built from in-range coordinates are
    /// those coordinates.
    pub proof fn lemma_square_at_coords(row: int, col: int)
        requires
            0 <= row < 8,
            0 <= col < 8,
        ensures
            square_at(row, col).row_spec() == row,
            square_at(row, col).col_spec() == col,
    {
    }

    /// Checked construction: succeeds exactly on coordinates inside the
    /// 8x8 grid, and fails with an out-of-bounds error on all others.
    pub fn new(row: u8, col: u8) -> (r: Result<Square, SquareError>)
        ensures
            row < 8 && col < 8 ==> r == Ok::<Square, SquareError>(
                square_at(row as int, col as int),
            ),
            !(row < 8 && col < 8) ==> r == Err::<Square, SquareError>(SquareError::OutOfBounds),
    {
        if row < 8 && col < 8 {
            Ok(Square(row * 8 + col))
        } else {
            Err(SquareError::OutOfBounds)
        }
    }

    /// The row of this square.
    pub fn row(self) -> (r: usize)
        ensures
            r == self.row_spec(),
            r < 8,
    {
        proof {
            use_type_invariant(self);
        }
        (self.0 / 8) as usize
    }

    /// The column of this square.
    pub fn col(self) -> (c: usize)
        ensures
            c == self.col_spec(),
            c < 8,
    {
        proof {
            use_type_invariant(self);
        }
        (self.0 % 8) as usize
    }

    /// The (row, column) pair of this square.
    pub fn to_tuple(self) -> (t: (usize, usize))
        ensures
            t.0 == self.row_spec(),
            t.1 == self.col_spec(),
            t.0 < 8,
            t.1 < 8,
    {
        (self.row(), self.col())
    }

    /// The flat index of this square, `row * 8 + col`.
    pub fn index(self) -> (i: usize)
        ensures
            i == cell_index(self.row_spec(), self.col_spec()),
            i < 64,
    {
        proof {
            use_type_invariant(self);
        }
        self.0 as usize
    }

    /// Displace this square by a row and column delta, yielding the target
    /// square, or nothing when the target would leave the grid.
    pub fn offset(self, d_row: i32, d_col: i32) -> (r: Option<Square>)
        ensures
            ({
                let nr = self.row_spec() + d_row;
                let nc = self.col_spec() + d_col;
                if 0 <= nr < 8 && 0 <= nc < 8 {
                    r == Some(square_at(nr, nc))
                } else {
                    r is None
                }
            }),
    {
        proof {
            use_type_invariant(self);
        }
        let row: i64 = (self.0 / 8) as i64 + d_row as i64;
        let col: i64 = (self.0 % 8) as i64 + d_col as i64;
        if 0 <= row && row < 8 && 0 <= col && col < 8 {
            Some(Square((row * 8 + col) as u8))
        } else {
            None
        }
    }
}

/// A candidate move: the square a piece stands on and the square it should
/// go to. Built, validated, optionally applied, then discarded.
#[derive(Clone, Copy, Debug, PartialEq, Eq, Structural)]
pub struct ChessMove {
    pub from: Square,
    pub to: Square,
}

/// What parsing a two-character cell such as "e2" yields: the file letter
/// 'a'..'h' selects the column, the rank digit '1'..'8' selects the row,
/// with rank 8 at row 0.
pub open spec fn parse_position_spec(s: Seq<char>) -> Result<Square, SquareError> {
    if s.len() != 2 {
        Err(SquareError::InvalidLength)
    } else if !('a' as int <= s[0] as int && s[0] as int <= 'h' as int) {
        Err(SquareError::InvalidColumn)
    } else if !('1' as int <= s[1] as int && s[1] as int <= '8' as int) {
        Err(SquareError::InvalidRow)
    } else {
        Ok(square_at(8 - (s[1] as int - '0' as int), s[0] as int - 'a' as int))
    }
}

/// Parse a two-character cell, rejecting text of the wrong length, a file
/// letter outside 'a'..'h', or a rank digit outside '1'..'8'.
pub fn parse_position(input: &str) -> (r: Result<Square, SquareError>)
    ensures
        r == parse_position_spec(input@),
{
    let n: usize = input.unicode_len();
    if n != 2 {
        return Err(SquareError::InvalidLength);
    }
    let file: u32 = input.get_char(0) as u32;
    if !('a' as u32 <= file && file <= 'h' as u32) {
        return Err(SquareError::InvalidColumn);
    }
    let rank: u32 = input.get_char(1) as u32;
    if !('1' as u32 <= rank && rank <= '8' as u32) {
        return Err(SquareError::InvalidRow);
    }
    let row: u8 = 8 - (rank - '0' as u32) as u8;
    let col: u8 = (file - 'a' as u32) as u8;
    Square::new(row, col)
}

/// What parsing a four-character move such as "e2e4" yields: the first two
/// characters name the source cell, the last two the destination cell.
pub open spec fn parse_move_spec(s: Seq<char>) -> Result<ChessMove, SquareError> {
    if s.len() != 4 {
        Err(SquareError::InvalidLength)
    } else {
        match parse_position_spec(s.subrange(0, 2)) {
            Err(e) => Err(e),
            Ok(from) => match parse_position_spec(s.subrange(2, 4)) {
                Err(e) => Err(e),
                Ok(to) => Ok(ChessMove { from, to }),
            },
        }
    }
}

/// Parse a four-character move, rejecting anything that is not exactly a
/// source cell followed by a destination cell.
pub fn parse_move(input: &str) -> (r: Result<ChessMove, SquareError>)
    ensures
        r == parse_move_spec(input@),
{
    let n: usize = input.unicode_len();
    if n != 4 {
        return Err(SquareError::InvalidLength);
    }
    let from = match parse_position(input.substring_char(0, 2)) {
        Ok(s) => s,
        Err(e) => return Err(e),
    };
    let to = match parse_position(input.substring_char(2, 4)) {
        Ok(s) => s,
        Err(e) => return Err(e),
    };
    Ok(ChessMove { from, to })
}

/// The distance between two coordinates.
pub open spec fn abs_diff(a: int, b: int) -> int {
    if a >= b {
        a - b
    } else {
        b - a
    }
}

/// The sign of a delta: -1, 0 or 1.
pub open spec fn sgn(d: int) -> int {
    if d > 0 {
        1
    } else if d < 0 {
        -1
    } else {
        0
    }
}

/// How many single-square steps a straight or diagonal move covers: the
/// larger of the row distance and the column distance.
pub open spec fn steps_between(from: Square, to: Square) -> int {
    let dr = abs_diff(from.row_spec(), to.row_spec());
    let dc = abs_diff(from.col_spec(), to.col_spec());
    if dr >= dc {
        dr
    } else {
        dc
    }
}

/// The row of the `k`-th square on the ray from `from` toward `to`.
pub open spec fn ray_row(from: Square, to: Square, k: int) -> int {
    from.row_spec() + k * sgn(to.row_spec() - from.row_spec())
}

/// The column of the `k`-th square on the ray from `from` toward `to`.
pub open spec fn ray_col(from: Square, to: Square, k: int) -> int {
    from.col_spec() + k * sgn(to.col_spec() - from.col_spec())
}

/// Whether every square strictly between `from` and `to` along their
/// straight or diagonal line is vacant. The destination itself is not
/// examined: its occupancy is settled by the capture checks.
pub open spec fn path_clear(cells: Seq<Option<Piece>>, from: Square, to: Square) -> bool {
    forall|k: int| #![trigger ray_row(from, to, k)]
        1 <= k < steps_between(from, to) ==> cells[cell_index(
            ray_row(from, to, k),
            ray_col(from, to, k),
        )] is None
}

/// A move along a single row or a single column.
pub open spec fn straight_move(from: Square, to: Square) -> bool {
    from.row_spec() == to.row_spec() || from.col_spec() == to.col_spec()
}

/// A move whose row distance equals its column distance.
pub open spec fn diagonal_move(from: Square, to: Square) -> bool {
    abs_diff(from.row_spec(), to.row_spec()) == abs_diff(from.col_spec(), to.col_spec())
}

/// A knight's jump: distances of one and two squares, in either order.
pub open spec fn knight_move(from: Square, to: Square) -> bool {
    let rd = abs_diff(from.row_spec(), to.row_spec());
    let cd = abs_diff(from.col_spec(), to.col_spec());
    (rd == 2 && cd == 1) || (rd == 1 && cd == 2)
}

/// A king's step: at most one square in each direction.
pub open spec fn king_move(from: Square, to: Square) -> bool {
    abs_diff(from.row_spec(), to.row_spec()) <= 1 && abs_diff(from.col_spec(), to.col_spec())
        <= 1
}

/// The row direction a pawn advances in: White toward row 0, Black toward
/// row 7.
pub open spec fn pawn_dir(color: PieceColor) -> int {
    match color {
        PieceColor::White => -1,
        PieceColor::Black => 1,
    }
}

/// The row a pawn starts on, from which alone it may advance two squares.
pub open spec fn pawn_start_row(color: PieceColor) -> int {
    match color {
        PieceColor::White => 6,
        PieceColor::Black => 1,
    }
}

/// The pawn rule, applied once source, destination and capture status are
/// settled. Capturing must be exactly one square diagonally forward. A plain
/// advance must stay in the pawn's column: one square forward is legal (the
/// destination is known vacant here), two squares are legal only from the
/// starting row and only with the intermediate square vacant, and an
/// occupied intermediate square is reported as blocking.
pub open spec fn pawn_rule(
    cells: Seq<Option<Piece>>,
    from: Square,
    to: Square,
    color: PieceColor,
    capture: bool,
) -> Result<(), MoveError> {
    let dir = pawn_dir(color);
    if capture {
        if to.row_spec() == from.row_spec() + dir && (to.col_spec() == from.col_spec() - 1
            || to.col_spec() == from.col_spec() + 1) {
            Ok(())
        } else {
            Err(MoveError::InvalidPawnCapture)
        }
    } else {
        if to.col_spec() == from.col_spec() && to.row_spec() == from.row_spec() + dir {
            Ok(())
        } else if to.col_spec() == from.col_spec() && to.row_spec() == from.row_spec() + 2 * dir
            && from.row_spec() == pawn_start_row(color) {
            if cells[cell_index(from.row_spec() + dir, from.col_spec())] is None {
                Ok(())
            } else {
                Err(MoveError::PieceBlocking)
            }
        } else {
            Err(MoveError::InvalidPawnMove)
        }
    }
}

/// The per-kind legality rule, applied after the shared checks. Sliding
/// pieces first need the right shape and then a clear path; the knight and
/// king need only the right shape.
pub open spec fn piece_rule(
    cells: Seq<Option<Piece>>,
    from: Square,
    to: Square,
    piece: Piece,
    capture: bool,
) -> Result<(), MoveError> {
    match piece.piece_type {
        PieceType::Pawn => pawn_rule(cells, from, to, piece.color, capture),
        PieceType::Rook => if !straight_move(from, to) {
            Err(MoveError::InvalidRookMove)
        } else if !path_clear(cells, from, to) {
            Err(MoveError::PieceBlocking)
        } else {
            Ok(())
        },
        PieceType::Knight => if knight_move(from, to) {
            Ok(())
        } else {
            Err(MoveError::InvalidKnightMove)
        },
        PieceType::Bishop => if !diagonal_move(from, to) {
            Err(MoveError::InvalidBishopMove)
        } else if !path_clear(cells, from, to) {
            Err(MoveError::PieceBlocking)
        } else {
            Ok(())
        },
        PieceType::King => if king_move(from, to) {
            Ok(())
        } else {
            Err(MoveError::InvalidKingMove)
        },
        PieceType::Queen => if !straight_move(from, to) && !diagonal_move(from, to) {
            Err(MoveError::InvalidQueenMove)
        } else if !path_clear(cells, from, to) {
            Err(MoveError::PieceBlocking)
        } else {
            Ok(())
        },
    }
}

/// The outcome of validating a move of `from` to `to` against the given
/// cells. The checks run in a fixed order and the first failure wins: a
/// vacant source, then a destination equal to the source, then a
/// destination held by a piece of the mover's own color, then the rule of
/// the moving piece's kind.
pub open spec fn move_outcome(cells: Seq<Option<Piece>>, from: Square, to: Square) -> Result<
    (),
    MoveError,
> {
    match cells[cell_index(from.row_spec(), from.col_spec())] {
        None => Err(MoveError::NoPieceAtSource),
        Some(piece) => if from == to {
            Err(MoveError::SamePosition)
        } else {
            match cells[cell_index(to.row_spec(), to.col_spec())] {
                Some(destination_piece) => if destination_piece.color == piece.color {
                    Err(MoveError::CaptureOwnPiece)
                } else {
                    piece_rule(cells, from, to, piece, true)
                },
                None => piece_rule(cells, from, to, piece, false),
            }
        },
    }
}

/// The cells after a legal move is applied: the source cell is emptied and
/// its former occupant is placed on the destination cell, overwriting any
/// captured piece.
pub open spec fn apply_move(cells: Seq<Option<Piece>>, from: Square, to: Square) -> Seq<
    Option<Piece>,
> {
    cells.update(cell_index(from.row_spec(), from.col_spec()), None).update(
        cell_index(to.row_spec(), to.col_spec()),
        cells[cell_index(from.row_spec(), from.col_spec())],
    )
}

/// Validation has no hidden state: its outcome is a pure function of the
/// board's cells and the move, so two validations of the same move against
/// the same board yield the same result both times.
pub proof fn lemma_validate_deterministic(
    cells: Seq<Option<Piece>>,
    from: Square,
    to: Square,
    r1: Result<(), MoveError>,
    r2: Result<(), MoveError>,
)
    requires
        r1 == move_outcome(cells, from, to),
        r2 == move_outcome(cells, from, to),
    ensures
        r1 == r2,
{
}

/// Whatever kind of piece stands on a square, a move from that square to
/// the very same square is rejected as same-position.
pub proof fn lemma_same_square_rejected(cells: Seq<Option<Piece>>, s: Square)
    requires
        cells[cell_index(s.row_spec(), s.col_spec())] is Some,
    ensures
        move_outcome(cells, s, s) == Err::<(), MoveError>(MoveError::SamePosition),
{
}

/// A move onto a destination held by a piece of the mover's own color is
/// rejected as capture-own-piece, whatever the kinds of the two pieces:
/// the check comes before any piece-specific rule is consulted.
pub proof fn lemma_capture_own_piece_rejected(
    cells: Seq<Option<Piece>>,
    from: Square,
    to: Square,
)
    requires
        from != to,
        cells[cell_index(from.row_spec(), from.col_spec())] matches Some(mover) && cells[
            cell_index(to.row_spec(), to.col_spec())
        ] matches Some(occupant) && occupant.color == mover.color,
    ensures
        move_outcome(cells, from, to) == Err::<(), MoveError>(MoveError::CaptureOwnPiece),
{
}

/// A rook on a1 moving to a8 is rejected as blocked whenever any of the
/// squares a2 through a7 is occupied, provided a8 itself does not hold a
/// piece of the rook's own color. Row 7 is rank 1 and column 0 is file 'a',
/// so a1 is the cell at (7, 0) and a2 through a7 are rows 6 down to 1 of
/// column 0.
pub proof fn lemma_rook_file_blocked(cells: Seq<Option<Piece>>, rook: Piece)
    requires
        rook.piece_type is Rook,
        cells[cell_index(7, 0)] == Some(rook),
        cells[cell_index(0, 0)] matches Some(occupant) ==> occupant.color != rook.color,
        exists|r: int| 1 <= r <= 6 && cells[#[trigger] cell_index(r, 0)] is Some,
    ensures
        move_outcome(cells, square_at(7, 0), square_at(0, 0)) == Err::<(), MoveError>(
            MoveError::PieceBlocking,
        ),
{
    let from = square_at(7, 0);
    let to = square_at(0, 0);
    assert(from.row_spec() == 7 && from.col_spec() == 0);
    assert(to.row_spec() == 0 && to.col_spec() == 0);
    let r = choose|r: int| 1 <= r <= 6 && cells[#[trigger] cell_index(r, 0)] is Some;
    let k = 7 - r;
    assert(ray_row(from, to, k) == r);
    assert(ray_col(from, to, k) == 0);
    assert(!path_clear(cells, from, to));
}

/// The same rook move succeeds on an otherwise clear file: with a2 through
/// a7 all vacant and a8 vacant or held by an opposing piece, a1 to a8 is
/// legal.
pub proof fn lemma_rook_file_clear(cells: Seq<Option<Piece>>, rook: Piece)
    requires
        rook.piece_type is Rook,
        cells[cell_index(7, 0)] == Some(rook),
        cells[cell_index(0, 0)] matches Some(occupant) ==> occupant.color != rook.color,
        forall|r: int| 1 <= r <= 6 ==> cells[#[trigger] cell_index(r, 0)] is None,
    ensures
        move_outcome(cells, square_at(7, 0), square_at(0, 0)) == Ok::<(), MoveError>(()),
{
    let from = square_at(7, 0);
    let to = square_at(0, 0);
    assert(from.row_spec() == 7 && from.col_spec() == 0);
    assert(to.row_spec() == 0 && to.col_spec() == 0);
    assert forall|k: int| #![trigger ray_row(from, to, k)]
        1 <= k < steps_between(from, to) implies cells[cell_index(
        ray_row(from, to, k),
        ray_col(from, to, k),
    )] is None by {
        assert(ray_row(from, to, k) == 7 - k);
        assert(ray_col(from, to, k) == 0);
        assert(cells[cell_index(7 - k, 0)] is None);
    }
    assert(path_clear(cells, from, to));
}

/// A knight on b1 cannot move straight ahead to b3: that is not a knight's
/// jump shape. Here b1 is the cell at (7, 1) and b3 the cell at (5, 1).
pub proof fn lemma_knight_bad_shape(cells: Seq<Option<Piece>>, knight: Piece)
    requires
        knight.piece_type is Knight,
        cells[cell_index(7, 1)] == Some(knight),
        cells[cell_index(5, 1)] matches Some(occupant) ==> occupant.color != knight.color,
    ensures
        move_outcome(cells, square_at(7, 1), square_at(5, 1)) == Err::<(), MoveError>(
            MoveError::InvalidKnightMove,
        ),
{
    let from = square_at(7, 1);
    let to = square_at(5, 1);
    assert(from.row_spec() == 7 && from.col_spec() == 1);
    assert(to.row_spec() == 5 && to.col_spec() == 1);
}

/// A knight on b1 may jump to c3 whatever stands on any square in between:
/// knights are never blocked, so only the destination's occupant matters.
/// Here c3 is the cell at (5, 2).
pub proof fn lemma_knight_jumps(cells: Seq<Option<Piece>>, knight: Piece)
    requires
        knight.piece_type is Knight,
        cells[cell_index(7, 1)] == Some(knight),
        cells[cell_index(5, 2)] matches Some(occupant) ==> occupant.color != knight.color,
    ensures
        move_outcome(cells, square_at(7, 1), square_at(5, 2)) == Ok::<(), MoveError>(()),
{
    let from = square_at(7, 1);
    let to = square_at(5, 2);
    assert(from.row_spec() == 7 && from.col_spec() == 1);
    assert(to.row_spec() == 5 && to.col_spec() == 2);
}

/// Walk the squares strictly between `from` and `to` along their straight
/// or diagonal line and report whether all of them are vacant.
fn path_is_clear(board: &BoardGame, from: Square, to: Square) -> (r: bool)
    requires
        straight_move(from, to) || diagonal_move(from, to),
    ensures
        r == path_clear(board@, from, to),
{
    let fr: usize = from.row();
    let fc: usize = from.col();
    let tr: usize = to.row();
    let tc: usize = to.col();
    let rd: usize = if tr >= fr {
        tr - fr
    } else {
        fr - tr
    };
    let cd: usize = if tc >= fc {
        tc - fc
    } else {
        fc - tc
    };
    let steps: usize = if rd >= cd {
        rd
    } else {
        cd
    };
    let mut k: usize = 1;
    while k < steps
        invariant
            1 <= k,
            steps == steps_between(from, to),
            fr == from.row_spec(),
            fc == from.col_spec(),
            tr == to.row_spec(),
            tc == to.col_spec(),
            fr < 8,
            fc < 8,
            tr < 8,
            tc < 8,
            straight_move(from, to) || diagonal_move(from, to),
            forall|j: int| #![trigger ray_row(from, to, j)]
                1 <= j < k ==> board@[cell_index(ray_row(from, to, j), ray_col(from, to, j))]
                    is None,
        decreases steps - k,
    {
        let row: usize = if tr > fr {
            fr + k
        } else if tr < fr {
            fr - k
        } else {
            fr
        };
        let col: usize = if tc > fc {
            fc + k
        } else if tc < fc {
            fc - k
        } else {
            fc
        };
        proof {
            assert(row == ray_row(from, to, k as int));
            assert(col == ray_col(from, to, k as int));
            assert(row < 8 && col < 8);
        }
        if board.cell(row, col).is_some() {
            proof {
                assert(!path_clear(board@, from, to)) by {
                    assert(1 <= k < steps_between(from, to));
                    assert(board@[cell_index(
                        ray_row(from, to, k as int),
                        ray_col(from, to, k as int),
                    )] is Some);
                }
            }
            return false;
        }
        k = k + 1;
    }
    true
}

/// Decide the legality of a move against a board without touching the
/// board: the returned outcome is exactly the specified validation
/// outcome for the board's cells.
pub fn is_valid_move(board: &BoardGame, chess_move: &ChessMove) -> (r: Result<(), MoveError>)
    ensures
        r == move_outcome(board@, chess_move.from, chess_move.to),
{
    let from = chess_move.from;
    let to = chess_move.to;
    let piece: Piece = match board.at(from) {
        Some(p) => p,
        None => {
            return Err(MoveError::NoPieceAtSource);
        },
    };
    if to == from {
        return Err(MoveError::SamePosition);
    }
    let is_capture: bool = match board.at(to) {
        Some(destination_piece) => {
            if piece.color == destination_piece.color {
                return Err(MoveError::CaptureOwnPiece);
            }
            true
        },
        None => false,
    };
    let fr: usize = from.row();
    let fc: usize = from.col();
    let tr: usize = to.row();
    let tc: usize = to.col();
    let rd: usize = if tr >= fr {
        tr - fr
    } else {
        fr - tr
    };
    let cd: usize = if tc >= fc {
        tc - fc
    } else {
        fc - tc
    };
    match piece.piece_type {
        PieceType::Pawn => {
            if is_capture {
                let shape_ok: bool = match piece.color {
                    PieceColor::White => tr + 1 == fr && (tc + 1 == fc || tc == fc + 1),
                    PieceColor::Black => tr == fr + 1 && (tc + 1 == fc || tc == fc + 1),
                };
                if shape_ok {
                    Ok(())
                } else {
                    Err(MoveError::InvalidPawnCapture)
                }
            } else {
                match piece.color {
                    PieceColor::White => {
                        if tr + 1 == fr && tc == fc {
                            Ok(())
                        } else if tr + 2 == fr && tc == fc && fr == 6 {
                            if board.cell(fr - 1, fc).is_some() {
                                Err(MoveError::PieceBlocking)
                            } else {
                                Ok(())
                            }
                        } else {
                            Err(MoveError::InvalidPawnMove)
                        }
                    },
                    PieceColor::Black => {
                        if tr == fr + 1 && tc == fc {
                            Ok(())
                        } else if tr == fr + 2 && tc == fc && fr == 1 {
                            if board.cell(fr + 1, fc).is_some() {
                                Err(MoveError::PieceBlocking)
                            } else {
                                Ok(())
                            }
                        } else {
                            Err(MoveError::InvalidPawnMove)
                        }
                    },
                }
            }
        },
        PieceType::Rook => {
            if fr != tr && fc != tc {
                Err(MoveError::InvalidRookMove)
            } else if !path_is_clear(board, from, to) {
                Err(MoveError::PieceBlocking)
            } else {
                Ok(())
            }
        },
        PieceType::Knight => {
            if (rd == 2 && cd == 1) || (rd == 1 && cd == 2) {
                Ok(())
            } else {
                Err(MoveError::InvalidKnightMove)
            }
        },
        PieceType::Bishop => {
            if rd != cd {
                Err(MoveError::InvalidBishopMove)
            } else if !path_is_clear(board, from, to) {
                Err(MoveError::PieceBlocking)
            } else {
                Ok(())
            }
        },
        PieceType::King => {
            if rd <= 1 && cd <= 1 {
                Ok(())
            } else {
                Err(MoveError::InvalidKingMove)
            }
        },
        PieceType::Queen => {
            let straight: bool = fr == tr || fc == tc;
            let diagonal: bool = rd == cd;
            if !straight && !diagonal {
                Err(MoveError::InvalidQueenMove)
            } else if !path_is_clear(board, from, to) {
                Err(MoveError::PieceBlocking)
            } else {
                Ok(())
            }
        },
    }
}

} // verus!

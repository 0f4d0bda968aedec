use crate::chess_move::{
    apply_move, cell_index, is_valid_move, move_outcome, ChessMove, MoveError, Square,
};
use crate::piece::{Piece, PieceColor, PieceType};
use vstd::prelude::*;

verus! {

/// The kind of piece on each back rank, by column: rook, knight, bishop,
/// queen, king, bishop, knight, rook from column 0 to column 7.
pub open spec fn back_rank_kind(col: int) -> PieceType {
    if col == 0 || col == 7 {
        PieceType::Rook
    } else if col == 1 || col == 6 {
        PieceType::Knight
    } else if col == 2 || col == 5 {
        PieceType::Bishop
    } else if col == 3 {
        PieceType::Queen
    } else {
        PieceType::King
    }
}

/// Occupancy of flat cell `i` in the conventional starting layout: Black's
/// back rank on row 0 with its pawns on row 1, White's pawns on row 6 with
/// its back rank on row 7, and everything between vacant.
pub open spec fn standard_cell(i: int) -> Option<Piece> {
    let row = i / 8;
    let col = i % 8;
    if row == 0 {
        Some(Piece { piece_type: back_rank_kind(col), color: PieceColor::Black })
    } else if row == 1 {
        Some(Piece { piece_type: PieceType::Pawn, color: PieceColor::Black })
    } else if row == 6 {
        Some(Piece { piece_type: PieceType::Pawn, color: PieceColor::White })
    } else if row == 7 {
        Some(Piece { piece_type: back_rank_kind(col), color: PieceColor::White })
    } else {
        None
    }
}

/// The 64 cells of the conventional starting layout.
pub open spec fn standard_cells() -> Seq<Option<Piece>> {
    Seq::new(64, |i: int| standard_cell(i))
}

/// The 64 cells of a board with every cell vacant.
pub open spec fn empty_cells() -> Seq<Option<Piece>> {
    Seq::new(64, |i: int| None)
}

/// The two construction modes a factory offers.
#[derive(Clone, Copy, Debug, PartialEq, Eq, Structural)]
pub enum BoardPosition {
    Standard,
    Empty,
}

/// The cells a board constructed in the given mode holds.
pub open spec fn board_layout(position: BoardPosition) -> Seq<Option<Piece>> {
    match position {
        BoardPosition::Standard => standard_cells(),
        BoardPosition::Empty => empty_cells(),
    }
}

/// An 8x8 grid where each cell holds at most one piece, stored row by row
/// as 64 optional cells. Viewed as the sequence of those cells; the cell at
/// row `r`, column `c` is entry `cell_index(r, c)`.
#[derive(Debug, PartialEq, Eq)]
pub struct BoardGame {
    cells: Vec<Option<Piece>>,
}

impl View for BoardGame {
    type V = Seq<Option<Piece>>;

    closed spec fn view(&self) -> Seq<Option<Piece>> {
        self.cells@
    }
}

impl BoardGame {
    #[verifier::type_invariant]
    spec fn inv(self) -> bool {
        self.cells@.len() == 64
    }

    /// Occupancy of the cell at the given coordinates; read-only.
    pub fn cell(&self, row: usize, col: usize) -> (r: Option<Piece>)
        requires
            row < 8,
            col < 8,
        ensures
            r == self@[cell_index(row as int, col as int)],
    {
        proof {
            use_type_invariant(&*self);
        }
        self.cells[row * 8 + col]
    }

    /// Occupancy of the cell at the given square; read-only.
    pub fn at(&self, sq: Square) -> (r: Option<Piece>)
        ensures
            r == self@[cell_index(sq.row_spec(), sq.col_spec())],
    {
        let row: usize = sq.row();
        let col: usize = sq.col();
        self.cell(row, col)
    }
}

/// Validate a move and, only when it is legal, apply it: the source cell is
/// emptied and its occupant placed on the destination cell, overwriting any
/// captured piece. On failure the reported reason is returned untouched and
/// the board is left bit for bit as it was: this operation is all or
/// nothing, and it is the only operation that mutates a board.
pub fn make_move(board: &mut BoardGame, chess_move: &ChessMove) -> (r: Result<(), MoveError>)
    ensures
        r == move_outcome(old(board)@, chess_move.from, chess_move.to),
        r is Ok ==> final(board)@ == apply_move(old(board)@, chess_move.from, chess_move.to),
        r is Err ==> final(board)@ == old(board)@,
{
    match is_valid_move(board, chess_move) {
        Ok(()) => {
            proof {
                use_type_invariant(&*board);
            }
            let fi: usize = chess_move.from.index();
            let ti: usize = chess_move.to.index();
            let piece: Option<Piece> = board.cells[fi];
            let mut cells: Vec<Option<Piece>> = Vec::new();
            let mut i: usize = 0;
            while i < 64
                invariant
                    i <= 64,
                    cells@.len() == i,
                    board@ == old(board)@,
                    board@.len() == 64,
                    fi == cell_index(chess_move.from.row_spec(), chess_move.from.col_spec()),
                    ti == cell_index(chess_move.to.row_spec(), chess_move.to.col_spec()),
                    fi < 64,
                    ti < 64,
                    piece == board@[fi as int],
                    forall|j: int| 0 <= j < i ==> cells@[j] == (if j == ti {
                        board@[fi as int]
                    } else if j == fi {
                        None
                    } else {
                        board@[j]
                    }),
                decreases 64 - i,
            {
                let c: Option<Piece> = if i == ti {
                    piece
                } else if i == fi {
                    None
                } else {
                    board.cells[i]
                };
                cells.push(c);
                i = i + 1;
            }
            board.cells = cells;
            proof {
                assert(board@ =~= apply_move(old(board)@, chess_move.from, chess_move.to));
            }
            Ok(())
        },
        Err(e) => Err(e),
    }
}

/// Builds fully initialized boards, one per game.
pub struct BoardFactory;

impl BoardFactory {
    /// A board in the requested construction mode: every cell vacant, or
    /// the conventional starting layout.
    pub fn create(position: BoardPosition) -> (b: BoardGame)
        ensures
            b@ == board_layout(position),
    {
        match position {
            BoardPosition::Empty => {
                let mut cells: Vec<Option<Piece>> = Vec::new();
                let mut i: usize = 0;
                while i < 64
                    invariant
                        i <= 64,
                        cells@.len() == i,
                        forall|j: int| 0 <= j < i ==> cells@[j] is None,
                    decreases 64 - i,
                {
                    cells.push(None);
                    i = i + 1;
                }
                proof {
                    assert(cells@ =~= empty_cells());
                }
                BoardGame { cells }
            },
            BoardPosition::Standard => Self::create_standard_position(),
        }
    }

    fn create_standard_position() -> (b: BoardGame)
        ensures
            b@ == standard_cells(),
    {
        let mut cells: Vec<Option<Piece>> = Vec::new();
        let mut i: usize = 0;
        while i < 64
            invariant
                i <= 64,
                cells@.len() == i,
                forall|j: int| 0 <= j < i ==> cells@[j] == standard_cell(j),
            decreases 64 - i,
        {
            cells.push(Self::starting_occupant(i));
            i = i + 1;
        }
        proof {
            assert(cells@ =~= standard_cells());
        }
        BoardGame { cells }
    }

    fn starting_occupant(i: usize) -> (r: Option<Piece>)
        requires
            i < 64,
        ensures
            r == standard_cell(i as int),
    {
        let row: usize = i / 8;
        let col: usize = i % 8;
        if row == 0 {
            Some(Piece::new(Self::back_rank(col), PieceColor::Black))
        } else if row == 1 {
            Some(Piece::new(PieceType::Pawn, PieceColor::Black))
        } else if row == 6 {
            Some(Piece::new(PieceType::Pawn, PieceColor::White))
        } else if row == 7 {
            Some(Piece::new(Self::back_rank(col), PieceColor::White))
        } else {
            None
        }
    }

    fn back_rank(col: usize) -> (k: PieceType)
        requires
            col < 8,
        ensures
            k == back_rank_kind(col as int),
    {
        if col == 0 || col == 7 {
            PieceType::Rook
        } else if col == 1 || col == 6 {
            PieceType::Knight
        } else if col == 2 || col == 5 {
            PieceType::Bishop
        } else if col == 3 {
            PieceType::Queen
        } else {
            PieceType::King
        }
    }
}

} // verus!

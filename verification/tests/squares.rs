use chess::chess_move::{parse_move, parse_position, Square};
use chess::error::SquareError;

fn sq(row: u8, col: u8) -> Square {
    Square::new(row, col).unwrap()
}

#[test]
fn square_round_trips_through_its_coordinates() {
    for row in 0u8..8 {
        for col in 0u8..8 {
            let s = sq(row, col);
            assert_eq!(s.row(), row as usize);
            assert_eq!(s.col(), col as usize);
            assert_eq!(s.to_tuple(), (row as usize, col as usize));
            let again = Square::new(s.row() as u8, s.col() as u8).unwrap();
            assert_eq!(again, s);
        }
    }
}

#[test]
fn square_index_is_row_major() {
    assert_eq!(sq(0, 0).index(), 0);
    assert_eq!(sq(0, 7).index(), 7);
    assert_eq!(sq(1, 0).index(), 8);
    assert_eq!(sq(7, 7).index(), 63);
}

#[test]
fn out_of_range_coordinates_are_rejected() {
    assert_eq!(Square::new(8, 0), Err(SquareError::OutOfBounds));
    assert_eq!(Square::new(0, 8), Err(SquareError::OutOfBounds));
    assert_eq!(Square::new(8, 8), Err(SquareError::OutOfBounds));
    assert_eq!(Square::new(255, 255), Err(SquareError::OutOfBounds));
}

#[test]
fn offset_moves_within_the_grid() {
    assert_eq!(sq(4, 4).offset(-1, 1), Some(sq(3, 5)));
    assert_eq!(sq(4, 4).offset(0, 0), Some(sq(4, 4)));
    assert_eq!(sq(4, 4).offset(3, -4), Some(sq(7, 0)));
}

#[test]
fn offset_leaving_the_grid_yields_nothing() {
    assert_eq!(sq(0, 0).offset(-1, 0), None);
    assert_eq!(sq(0, 0).offset(0, -1), None);
    assert_eq!(sq(7, 7).offset(1, 0), None);
    assert_eq!(sq(7, 7).offset(0, 1), None);
    assert_eq!(sq(4, 4).offset(100, 0), None);
    assert_eq!(sq(4, 4).offset(i32::MIN, i32::MIN), None);
    assert_eq!(sq(4, 4).offset(i32::MAX, i32::MAX), None);
}

#[test]
fn parse_position_reads_algebraic_cells() {
    assert_eq!(parse_position("a1"), Ok(sq(7, 0)));
    assert_eq!(parse_position("a8"), Ok(sq(0, 0)));
    assert_eq!(parse_position("h1"), Ok(sq(7, 7)));
    assert_eq!(parse_position("h8"), Ok(sq(0, 7)));
    assert_eq!(parse_position("e2"), Ok(sq(6, 4)));
    assert_eq!(parse_position("d5"), Ok(sq(3, 3)));
}

#[test]
fn parse_position_rejects_bad_text() {
    assert_eq!(parse_position(""), Err(SquareError::InvalidLength));
    assert_eq!(parse_position("e"), Err(SquareError::InvalidLength));
    assert_eq!(parse_position("e22"), Err(SquareError::InvalidLength));
    assert_eq!(parse_position("i2"), Err(SquareError::InvalidColumn));
    assert_eq!(parse_position("E2"), Err(SquareError::InvalidColumn));
    assert_eq!(parse_position("12"), Err(SquareError::InvalidColumn));
    assert_eq!(parse_position("e0"), Err(SquareError::InvalidRow));
    assert_eq!(parse_position("e9"), Err(SquareError::InvalidRow));
    assert_eq!(parse_position("ee"), Err(SquareError::InvalidRow));
}

#[test]
fn parse_move_reads_source_then_destination() {
    let m = parse_move("e2e4").unwrap();
    assert_eq!(m.from, sq(6, 4));
    assert_eq!(m.to, sq(4, 4));
    let m = parse_move("a1h8").unwrap();
    assert_eq!(m.from, sq(7, 0));
    assert_eq!(m.to, sq(0, 7));
}

#[test]
fn parse_move_rejects_bad_text() {
    assert_eq!(parse_move("").unwrap_err(), SquareError::InvalidLength);
    assert_eq!(parse_move("e2e").unwrap_err(), SquareError::InvalidLength);
    assert_eq!(parse_move("e2e44").unwrap_err(), SquareError::InvalidLength);
    assert_eq!(parse_move("i2e4").unwrap_err(), SquareError::InvalidColumn);
    assert_eq!(parse_move("e2i4").unwrap_err(), SquareError::InvalidColumn);
    assert_eq!(parse_move("e9e4").unwrap_err(), SquareError::InvalidRow);
    assert_eq!(parse_move("e2e9").unwrap_err(), SquareError::InvalidRow);
}

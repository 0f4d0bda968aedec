use vstd::prelude::*;

verus! {

/// Why a coordinate pair or a piece of coordinate text failed to become a
/// square. These failures are surfaced only at the construction and parsing
/// boundary, never by move validation itself.
#[derive(Clone, Copy, Debug, PartialEq, Eq, Structural)]
pub enum SquareError {
    /// The text does not have the expected number of characters.
    InvalidLength,
    /// The file letter is outside 'a' through 'h'.
    InvalidColumn,
    /// The rank digit is outside '1' through '8'.
    InvalidRow,
    /// A numeric coordinate lies outside the 8x8 grid.
    OutOfBounds,
}

} // verus!

//! The boundary to the external rule engine that owns move legality and the
//! board value.  Everything here is trusted: Verus believes the stated
//! contracts, which were read off the engine's own source.  The board value
//! is opaque; the library never looks inside it, and only carries it from
//! one engine call to the next.

use vstd::prelude::*;
use cetkaik_naive_representation::absolute;
use cetkaik_naive_representation::absolute::Row as AbsRow;
use cetkaik_naive_representation::absolute::Column as AbsColumn;
use crate::coords::{Column, Row};
use crate::report::Violation;

verus! {

#[verifier::external_type_specification]
#[verifier::external_body]
pub struct ExField(render_cerke_board::Field);

#[verifier::external_type_specification]
#[verifier::external_body]
pub struct ExOperationError(render_cerke_board::OperationError);

#[verifier::external_type_specification]
#[verifier::external_body]
pub struct ExAbsCoord(absolute::Coord);

/// Relies on the engine's absolute coordinate being a row paired with a
/// column, its row and column types naming the same nine rows and nine
/// columns as this library's; each is sent to its namesake.
#[verifier::external_body]
pub(crate) fn engine_coord(row: Row, col: Column) -> absolute::Coord {
    let r = match row {
        Row::A => AbsRow::A, Row::E => AbsRow::E, Row::I => AbsRow::I,
        Row::U => AbsRow::U, Row::O => AbsRow::O, Row::Y => AbsRow::Y,
        Row::AI => AbsRow::AI, Row::AU => AbsRow::AU, Row::IA => AbsRow::IA,
    };
    let c = match col {
        Column::K => AbsColumn::K, Column::L => AbsColumn::L, Column::N => AbsColumn::N,
        Column::T => AbsColumn::T, Column::Z => AbsColumn::Z, Column::X => AbsColumn::X,
        Column::C => AbsColumn::C, Column::M => AbsColumn::M, Column::P => AbsColumn::P,
    };
    absolute::Coord(r, c)
}

/// Relies on the engine's error type: one variant for each rule-violation
/// category, carried over to this library's namesake variant.
#[verifier::external_body]
pub(crate) fn classify_violation(e: render_cerke_board::OperationError) -> Violation {
    match e {
        render_cerke_board::OperationError::MovingFromEmptySquare => Violation::MovingFromEmptySquare,
        render_cerke_board::OperationError::MovingToNonEmptySquare => Violation::MovingToNonEmptySquare,
        render_cerke_board::OperationError::SteppingOnEmptySquare => Violation::SteppingOnEmptySquare,
        render_cerke_board::OperationError::Tam2ToHop1Zuo1 => Violation::Tam2ToHop1Zuo1,
        render_cerke_board::OperationError::TwoPiecesOnFlight => Violation::TwoPiecesOnFlight,
        render_cerke_board::OperationError::NoPieceOnFlight => Violation::NoPieceOnFlight,
        render_cerke_board::OperationError::NoMatchingColorOrProfessionInHop1Zuo1 => Violation::NoMatchingColorOrProfessionInHop1Zuo1,
        render_cerke_board::OperationError::ParachutingToNonEmptySquare => Violation::ParachutingToNonEmptySquare,
    }
}

/// Relies on the engine's constructor: a full fresh board value, pieces in
/// the initial position, both reserves empty, nothing floating.
pub assume_specification[ <render_cerke_board::Field as core::default::Default>::default ]() -> (f:
    render_cerke_board::Field);

/// Relies on the engine's `move_to_empty_square`: on failure the board is
/// returned unchanged (both of its checks precede any mutation).
pub assume_specification[ render_cerke_board::Field::move_to_empty_square ](
    f: &mut render_cerke_board::Field,
    to: absolute::Coord,
    from: absolute::Coord,
) -> (r: Result<(), render_cerke_board::OperationError>)
    ensures
        r is Err ==> *final(f) == *old(f),
;

/// Relies on the engine's `step_on_occupied`: on failure the board is
/// returned unchanged (all three of its checks precede any mutation).
pub assume_specification[ render_cerke_board::Field::step_on_occupied ](
    f: &mut render_cerke_board::Field,
    to: absolute::Coord,
    from: absolute::Coord,
) -> (r: Result<(), render_cerke_board::OperationError>)
    ensures
        r is Err ==> *final(f) == *old(f),
;

/// Relies on the engine's `descend_from_stepping`.  No contract is assumed:
/// when the landing square is occupied the engine reports a failure but has
/// already removed the floating piece, so even failure may change the board.
pub assume_specification[ render_cerke_board::Field::descend_from_stepping ](
    f: &mut render_cerke_board::Field,
    to: absolute::Coord,
) -> (r: Result<(), render_cerke_board::OperationError>);

/// Relies on the engine's `move_to_opponent_hop1zuo1`: on failure the board
/// is returned unchanged (both of its checks precede any mutation).
pub assume_specification[ render_cerke_board::Field::move_to_opponent_hop1zuo1 ](
    f: &mut render_cerke_board::Field,
    coord: absolute::Coord,
) -> (r: Result<(), render_cerke_board::OperationError>)
    ensures
        r is Err ==> *final(f) == *old(f),
;

} // verus!

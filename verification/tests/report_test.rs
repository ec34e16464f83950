use cerke_bot::report::{decimal_string, CommandFailure, Violation};

#[test]
fn decimal_strings_are_exact() {
    assert_eq!(decimal_string(0), "0");
    assert_eq!(decimal_string(1), "1");
    assert_eq!(decimal_string(9), "9");
    assert_eq!(decimal_string(10), "10");
    assert_eq!(decimal_string(105), "105");
    assert_eq!(decimal_string(usize::MAX), format!("{}", usize::MAX));
}

#[test]
fn violation_names_match_the_engine_categories() {
    assert_eq!(Violation::MovingFromEmptySquare.name(), "MovingFromEmptySquare");
    assert_eq!(Violation::MovingToNonEmptySquare.name(), "MovingToNonEmptySquare");
    assert_eq!(Violation::SteppingOnEmptySquare.name(), "SteppingOnEmptySquare");
    assert_eq!(Violation::Tam2ToHop1Zuo1.name(), "Tam2ToHop1Zuo1");
    assert_eq!(Violation::TwoPiecesOnFlight.name(), "TwoPiecesOnFlight");
    assert_eq!(Violation::NoPieceOnFlight.name(), "NoPieceOnFlight");
    assert_eq!(
        Violation::NoMatchingColorOrProfessionInHop1Zuo1.name(),
        "NoMatchingColorOrProfessionInHop1Zuo1"
    );
    assert_eq!(Violation::ParachutingToNonEmptySquare.name(), "ParachutingToNonEmptySquare");
}

#[test]
fn argument_count_report_text() {
    let f = CommandFailure::ArgumentCount { expected: 2, actual: 1 };
    assert_eq!(f.report(), "Not enough arguments. Expected: 2, got: 1");
    let f = CommandFailure::ArgumentCount { expected: 1, actual: 0 };
    assert_eq!(f.report(), "Not enough arguments. Expected: 1, got: 0");
}

#[test]
fn coordinate_report_text() {
    let f = CommandFailure::CoordinateParse { position: 1, raw: "ZZ".to_string() };
    assert_eq!(f.report(), "The first argument is incorrect. Expected a coordinate, got: ZZ");
    let f = CommandFailure::CoordinateParse { position: 2, raw: "xy".to_string() };
    assert_eq!(f.report(), "The second argument is incorrect. Expected a coordinate, got: xy");
}

#[test]
fn rule_report_text() {
    let f = CommandFailure::Rule { violation: Violation::MovingFromEmptySquare };
    assert_eq!(f.report(), "Invalid move. Reason: MovingFromEmptySquare");
}

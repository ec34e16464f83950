use cerke_bot::dispatch::{a_side_filename, ia_side_filename, pong_text, CerkeBot, Response};
use cerke_bot::report::{CommandFailure, Violation};
use cetkaik_naive_representation::absolute::{Column, Coord, Row};

fn occupied(bot: &CerkeBot, row: Row, col: Column) -> bool {
    bot.board().to_logical().f.board.0.contains_key(&Coord(row, col))
}

#[test]
fn move_from_occupied_to_empty_succeeds_and_renders() {
    let mut bot = CerkeBot::new();
    assert!(occupied(&bot, Row::A, Column::C));
    assert!(!occupied(&bot, Row::U, Column::C));
    let r = bot.dispatch("~mov CA CU");
    assert!(matches!(r, Response::Rendered), "expected a render request");
    assert!(!occupied(&bot, Row::A, Column::C));
    assert!(occupied(&bot, Row::U, Column::C));
}

#[test]
fn too_few_arguments_reports_and_does_not_render() {
    let mut bot = CerkeBot::new();
    match bot.dispatch("~mov C") {
        Response::Rejected { failure, report } => {
            assert_eq!(failure, CommandFailure::ArgumentCount { expected: 2, actual: 1 });
            assert_eq!(report, "Not enough arguments. Expected: 2, got: 1");
        }
        other => panic!("unexpected: {:?}", std::mem::discriminant(&other)),
    }
}

#[test]
fn bad_coordinate_reports_and_does_not_render() {
    let mut bot = CerkeBot::new();
    match bot.dispatch("~capture ZZ") {
        Response::Rejected { failure, report } => {
            assert_eq!(
                failure,
                CommandFailure::CoordinateParse { position: 1, raw: "ZZ".to_string() }
            );
            assert_eq!(
                report,
                "The first argument is incorrect. Expected a coordinate, got: ZZ"
            );
        }
        other => panic!("unexpected: {:?}", std::mem::discriminant(&other)),
    }
}

#[test]
fn capture_of_empty_square_reports_rule_violation() {
    let mut bot = CerkeBot::new();
    assert!(!occupied(&bot, Row::U, Column::Z));
    match bot.dispatch("~capture ZU") {
        Response::Rejected { failure, report } => {
            assert_eq!(failure, CommandFailure::Rule { violation: Violation::MovingFromEmptySquare });
            assert_eq!(report, "Invalid move. Reason: MovingFromEmptySquare");
        }
        other => panic!("unexpected: {:?}", std::mem::discriminant(&other)),
    }
    // the board is untouched by the refused operation
    assert!(occupied(&bot, Row::A, Column::C));
}

#[test]
fn stepup_and_stepdown_succeed_on_occupied_then_empty() {
    let mut bot = CerkeBot::new();
    assert!(occupied(&bot, Row::AI, Column::C));
    assert!(occupied(&bot, Row::I, Column::C));
    let r = bot.dispatch("~stepup CAI CI");
    assert!(matches!(r, Response::Rendered));
    // stepdown reads its coordinate from the second argument position, so
    // the first argument is never looked at
    let r = bot.dispatch("~stepdown x CY");
    assert!(matches!(r, Response::Rendered));
    assert!(occupied(&bot, Row::Y, Column::C));
    assert!(!occupied(&bot, Row::AI, Column::C));
}

#[test]
fn stepdown_with_no_floating_piece_reports_rule_violation() {
    let mut bot = CerkeBot::new();
    match bot.dispatch("~stepdown x CU") {
        Response::Rejected { failure, report } => {
            assert_eq!(failure, CommandFailure::Rule { violation: Violation::NoPieceOnFlight });
            assert_eq!(report, "Invalid move. Reason: NoPieceOnFlight");
        }
        other => panic!("unexpected: {:?}", std::mem::discriminant(&other)),
    }
}

#[test]
fn stepdown_with_one_argument_fails_the_second_position_parse() {
    // declared arity is one, but the coordinate is read from the second
    // argument position, so one argument resolves as the empty token
    let mut bot = CerkeBot::new();
    match bot.dispatch("~stepdown CA") {
        Response::Rejected { failure, report } => {
            assert_eq!(
                failure,
                CommandFailure::CoordinateParse { position: 2, raw: String::new() }
            );
            assert_eq!(
                report,
                "The second argument is incorrect. Expected a coordinate, got: "
            );
        }
        other => panic!("unexpected: {:?}", std::mem::discriminant(&other)),
    }
}

#[test]
fn initiate_restores_the_initial_logical_position() {
    let mut bot = CerkeBot::new();
    assert!(matches!(bot.dispatch("~mov CA CU"), Response::Rendered));
    assert!(matches!(bot.dispatch("~initiate"), Response::Rendered));
    let fresh = CerkeBot::new();
    assert_eq!(bot.board().to_logical().f, fresh.board().to_logical().f);
    assert!(matches!(bot.dispatch("~show"), Response::Rendered));
    assert_eq!(bot.board().to_logical().f, fresh.board().to_logical().f);
}

#[test]
fn ping_replies_and_logs_in_order() {
    let mut bot = CerkeBot::new();
    match bot.dispatch("~ping a") {
        Response::Pong { text } => assert_eq!(text, "Pong! ~ping a"),
        other => panic!("unexpected: {:?}", std::mem::discriminant(&other)),
    }
    bot.dispatch("~ping b");
    bot.dispatch("~ping c");
    match bot.dispatch("~log") {
        Response::LogText { text } => assert_eq!(text, "~ping a\n~ping b\n~ping c"),
        other => panic!("unexpected: {:?}", std::mem::discriminant(&other)),
    }
}

#[test]
fn log_message_records_raw_contents_in_order() {
    let mut bot = CerkeBot::new();
    bot.log_message("a".to_string());
    bot.log_message("b".to_string());
    bot.log_message("c".to_string());
    assert_eq!(bot.show_log(), "a\nb\nc");
}

#[test]
fn unknown_messages_are_not_commands() {
    let mut bot = CerkeBot::new();
    assert!(matches!(bot.dispatch("hello there"), Response::NotACommand));
    assert!(matches!(bot.dispatch(""), Response::NotACommand));
    assert!(matches!(bot.dispatch("~pingpong"), Response::NotACommand));
}

#[test]
fn fixed_perspective_filenames() {
    assert_eq!(ia_side_filename(), "iaside.png");
    assert_eq!(a_side_filename(), "aside.png");
}

#[test]
fn pong_text_echoes_the_message() {
    assert_eq!(pong_text("~ping hello"), "Pong! ~ping hello");
}

//! The command dispatcher: one coordinator owns the shared board and the
//! command log, runs exactly one rule-engine operation per incoming command,
//! and yields exactly one response — a render request on success, one
//! user-facing report on any failure, and never both.

use vstd::prelude::*;
use vstd::string::StringExecFns;
use render_cerke_board::Field;
use crate::command::{parse_command, spec_plan, Command, SpecPlan};
use crate::coords::{Column, Row};
use crate::engine::{classify_violation, engine_coord};
use crate::logbuf::{spec_joined, LogBuffer};
use crate::report::{spec_failure_report, spec_rule_report, CommandFailure, Violation};
use crate::tokenize::spec_tokens;

verus! {

/// What the transport must do after one command.  A render request appears
/// exactly on the success of a board command; every failure carries exactly
/// one report and no render.
pub enum Response {
    /// The message names no command; nothing is sent.
    NotACommand,
    /// The reply to `Ping`, echoing the raw message.
    Pong { text: String },
    /// The whole log, newline-joined in insertion order, for `ShowLog`.
    LogText { text: String },
    /// The command succeeded: the board must now be rendered once per play
    /// side and both images delivered under the fixed perspective names.
    Rendered,
    /// The command failed; `report` is the one user-facing message.
    Rejected { failure: CommandFailure, report: String },
}

/// The fixed attachment name for the render seen from the IA side.
pub fn ia_side_filename() -> (r: &'static str)
    ensures
        r@ == "iaside.png"@,
{
    "iaside.png"
}

/// The fixed attachment name for the render seen from the A side.
pub fn a_side_filename() -> (r: &'static str)
    ensures
        r@ == "aside.png"@,
{
    "aside.png"
}

/// The reply text of `Ping`: the word `Pong!` and the raw message.
pub fn pong_text(content: &str) -> (r: String)
    ensures
        r@ == "Pong! "@ + content@,
{
    let mut text = "Pong! ".to_owned();
    text.append(content);
    text
}

/// Replaces the whole board by a fresh one; no partial reset is observable,
/// since the engine constructs the new value before the assignment lands.
pub fn initiate(board: &mut Field) {
    *board = Field::default();
}

/// Moves the piece at `src` to the empty square `dst`.  On a rule violation
/// the board is unchanged.
pub fn mov(board: &mut Field, src: (Row, Column), dst: (Row, Column)) -> (r: Result<(), Violation>)
    ensures
        r is Err ==> *final(board) == *old(board),
{
    let from = engine_coord(src.0, src.1);
    let to = engine_coord(dst.0, dst.1);
    match board.move_to_empty_square(to, from) {
        Ok(u) => Ok(u),
        Err(e) => Err(classify_violation(e)),
    }
}

/// Moves the piece at `src` on top of the occupied square `dst`, leaving it
/// floating there.  On a rule violation the board is unchanged.
pub fn stepup(board: &mut Field, src: (Row, Column), dst: (Row, Column)) -> (r: Result<
    (),
    Violation,
>)
    ensures
        r is Err ==> *final(board) == *old(board),
{
    let from = engine_coord(src.0, src.1);
    let to = engine_coord(dst.0, dst.1);
    match board.step_on_occupied(to, from) {
        Ok(u) => Ok(u),
        Err(e) => Err(classify_violation(e)),
    }
}

/// Lands the floating piece on the empty square `dst`.  No board contract is
/// given even for failure: when the landing square is occupied the engine
/// reports the violation but has already taken the floating piece up.
pub fn stepdown(board: &mut Field, dst: (Row, Column)) -> (r: Result<(), Violation>) {
    let to = engine_coord(dst.0, dst.1);
    match board.descend_from_stepping(to) {
        Ok(u) => Ok(u),
        Err(e) => Err(classify_violation(e)),
    }
}

/// Sends the piece at `src` to the opponent's reserve.  On a rule violation
/// the board is unchanged.
pub fn capture(board: &mut Field, src: (Row, Column)) -> (r: Result<(), Violation>)
    ensures
        r is Err ==> *final(board) == *old(board),
{
    let coord = engine_coord(src.0, src.1);
    match board.move_to_opponent_hop1zuo1(coord) {
        Ok(u) => Ok(u),
        Err(e) => Err(classify_violation(e)),
    }
}

/// The coordinator that owns the two shared resources: the one board and the
/// one append-only command log.  A caller that shares it across threads must
/// serialize access; every mutation here runs under one exclusive borrow, so
/// no interleaved partial mutation is ever observable.
pub struct CerkeBot {
    board: Field,
    log: LogBuffer,
}

impl CerkeBot {
    /// The entries of the command log, oldest first.
    pub closed spec fn log_entries(&self) -> Seq<Seq<char>> {
        self.log@
    }

    /// The board value.
    pub closed spec fn board_state(&self) -> Field {
        self.board
    }

    /// A coordinator over a fresh board and an empty log.
    pub fn new() -> (r: CerkeBot)
        ensures
            r.log_entries() == Seq::<Seq<char>>::empty(),
    {
        CerkeBot { board: Field::default(), log: LogBuffer::new() }
    }

    /// Read access to the board, for rendering it.
    pub fn board(&self) -> (r: &Field)
        ensures
            *r == self.board_state(),
    {
        &self.board
    }

    /// Runs one raw message through the whole pipeline: identify the command,
    /// check its arity, parse its coordinates, run at most one rule-engine
    /// operation, and produce exactly one response.  A render is requested if
    /// and only if the command succeeded; every failure yields the one
    /// user-facing report of that failure; the log grows exactly under
    /// `Ping`, by the raw message, and is never truncated.
    pub fn dispatch(&mut self, content: &str) -> (r: Response)
        ensures
            ({
                let plan = spec_plan(spec_tokens(content@));
                match plan {
                    SpecPlan::NotACommand => r is NotACommand && final(self).log_entries() == old(self).log_entries() && final(self).board_state() == old(self).board_state(),
                    SpecPlan::ArgFailure { expected, actual } => final(self).log_entries() == old(self).log_entries() && final(self).board_state() == old(self).board_state() && (
                    r matches Response::Rejected { failure: f, report } && (f matches
                    CommandFailure::ArgumentCount { expected: e, actual: a } && e as int == expected
                        && a as int == actual) && report@ == spec_failure_report(f)),
                    SpecPlan::CoordFailure { position, raw } => final(self).log_entries() == old(self).log_entries() && final(self).board_state() == old(self).board_state() && (
                    r matches Response::Rejected { failure: f, report } && (f matches
                    CommandFailure::CoordinateParse { position: p, raw: rw } && p as int == position
                        && rw@ == raw) && report@ == spec_failure_report(f)),
                    SpecPlan::Ready(cmd) => match cmd {
                        Command::Ping => final(self).board_state() == old(self).board_state() && final(self).log_entries() == old(self).log_entries().push(content@) && (r matches
                        Response::Pong { text } && text@ == "Pong! "@ + content@),
                        Command::ShowLog => final(self).log_entries() == old(self).log_entries()
                            && final(self).board_state() == old(self).board_state() && (r matches
                        Response::LogText { text } && text@ == spec_joined(old(self).log_entries())),
                        Command::Show => final(self).log_entries() == old(self).log_entries()
                            && final(self).board_state() == old(self).board_state() && r is Rendered,
                        Command::Initiate => final(self).log_entries() == old(self).log_entries()
                            && r is Rendered,
                        Command::Move { .. } | Command::StepUp { .. } | Command::Capture { .. } => final(self).log_entries() == old(self).log_entries() && match r {
                            Response::Rendered => true,
                            Response::Rejected { failure: f, report } => (f matches
                            CommandFailure::Rule { violation: v } && report@ == spec_rule_report(v))
                                && final(self).board_state() == old(self).board_state(),
                            _ => false,
                        },
                        Command::StepDown { .. } => final(self).log_entries() == old(self).log_entries() && match r {
                            Response::Rendered => true,
                            Response::Rejected { failure: f, report } => (f matches
                            CommandFailure::Rule { violation: v } && report@ == spec_rule_report(v)),
                            _ => false,
                        },
                    },
                }
            }),
    {
        match parse_command(content) {
            None => Response::NotACommand,
            Some(Err(f)) => {
                let report = f.report();
                Response::Rejected { failure: f, report }
            },
            Some(Ok(cmd)) => match cmd {
                Command::Ping => {
                    let text = pong_text(content);
                    self.log.append(content.to_owned());
                    Response::Pong { text }
                },
                Command::ShowLog => Response::LogText { text: self.log.render_log() },
                Command::Show => Response::Rendered,
                Command::Initiate => {
                    initiate(&mut self.board);
                    Response::Rendered
                },
                Command::Move { src, dst } => match mov(&mut self.board, src, dst) {
                    Ok(_) => Response::Rendered,
                    Err(v) => {
                        let f = CommandFailure::Rule { violation: v };
                        let report = f.report();
                        Response::Rejected { failure: f, report }
                    },
                },
                Command::StepUp { src, dst } => match stepup(&mut self.board, src, dst) {
                    Ok(_) => Response::Rendered,
                    Err(v) => {
                        let f = CommandFailure::Rule { violation: v };
                        let report = f.report();
                        Response::Rejected { failure: f, report }
                    },
                },
                Command::StepDown { dst } => match stepdown(&mut self.board, dst) {
                    Ok(_) => Response::Rendered,
                    Err(v) => {
                        let f = CommandFailure::Rule { violation: v };
                        let report = f.report();
                        Response::Rejected { failure: f, report }
                    },
                },
                Command::Capture { src } => match capture(&mut self.board, src) {
                    Ok(_) => Response::Rendered,
                    Err(v) => {
                        let f = CommandFailure::Rule { violation: v };
                        let report = f.report();
                        Response::Rejected { failure: f, report }
                    },
                },
            },
        }
    }

    /// Appends one raw message to the log; what `Ping` does after its own
    /// user-facing actions completed.
    pub fn log_message(&mut self, content: String)
        ensures
            final(self).log_entries() == old(self).log_entries().push(content@),
            final(self).board_state() == old(self).board_state(),
    {
        self.log.append(content);
    }

    /// The whole log, newline-joined, in insertion order, untruncated.
    pub fn show_log(&self) -> (r: String)
        ensures
            r@ == spec_joined(self.log_entries()),
    {
        self.log.render_log()
    }
}

} // verus!

//! Identifying a command in a raw message and resolving its arguments.  A
//! message names a command when its first token is the prefix `~` followed by
//! the command's name; the command's declared arity is then checked, and each
//! coordinate argument parsed, before anything touches the board.

use vstd::prelude::*;
use crate::coords::{parse_coord, spec_parse_coord, Column, Row};
use crate::report::{string_from_chars, CommandFailure};
use crate::tokenize::{chars_of, extract, spec_tokens, tokenize};

verus! {

/// The name of a command, before its arguments are resolved.
#[derive(Clone, Copy, Debug, PartialEq, Eq, Structural)]
pub enum CommandKind {
    Ping,
    ShowLog,
    Initiate,
    Show,
    Move,
    StepUp,
    StepDown,
    Capture,
}

/// One fully resolved command, constructed from one raw message and never
/// mutated afterwards.
#[derive(Clone, Copy, Debug, PartialEq, Eq)]
pub enum Command {
    Ping,
    ShowLog,
    Initiate,
    Show,
    Move { src: (Row, Column), dst: (Row, Column) },
    StepUp { src: (Row, Column), dst: (Row, Column) },
    StepDown { dst: (Row, Column) },
    Capture { src: (Row, Column) },
}

/// The command that a leading token names, if any.
pub open spec fn spec_command_name(t: Seq<char>) -> Option<CommandKind> {
    if t == "~ping"@ {
        Some(CommandKind::Ping)
    } else if t == "~log"@ {
        Some(CommandKind::ShowLog)
    } else if t == "~initiate"@ {
        Some(CommandKind::Initiate)
    } else if t == "~show"@ {
        Some(CommandKind::Show)
    } else if t == "~mov"@ {
        Some(CommandKind::Move)
    } else if t == "~stepup"@ {
        Some(CommandKind::StepUp)
    } else if t == "~stepdown"@ {
        Some(CommandKind::StepDown)
    } else if t == "~capture"@ {
        Some(CommandKind::Capture)
    } else {
        None
    }
}

/// How many tokens beyond the command name the command declares it needs.
pub open spec fn spec_arity(k: CommandKind) -> int {
    match k {
        CommandKind::Ping => 0,
        CommandKind::ShowLog => 0,
        CommandKind::Initiate => 0,
        CommandKind::Show => 0,
        CommandKind::Move => 2,
        CommandKind::StepUp => 2,
        CommandKind::StepDown => 1,
        CommandKind::Capture => 1,
    }
}

/// The token at position `i`, or the empty token where the list is shorter.
pub open spec fn spec_token_at(toks: Seq<Seq<char>>, i: int) -> Seq<char> {
    if i < toks.len() {
        toks[i]
    } else {
        Seq::empty()
    }
}

/// What the front end decides for a tokenized message, before the board is
/// touched: not a command at all, a failure to report, or a command that is
/// ready to run.
pub enum SpecPlan {
    NotACommand,
    ArgFailure { expected: int, actual: int },
    CoordFailure { position: int, raw: Seq<char> },
    Ready(Command),
}

/// Argument resolution for a command whose arity check has already passed.
/// `StepDown` declares an arity of one but reads its coordinate from the
/// second argument position; a message that carries exactly one argument
/// therefore resolves the missing second argument as the empty token, which
/// no coordinate matches.
pub open spec fn spec_resolve(k: CommandKind, toks: Seq<Seq<char>>) -> SpecPlan {
    match k {
        CommandKind::Ping => SpecPlan::Ready(Command::Ping),
        CommandKind::ShowLog => SpecPlan::Ready(Command::ShowLog),
        CommandKind::Initiate => SpecPlan::Ready(Command::Initiate),
        CommandKind::Show => SpecPlan::Ready(Command::Show),
        CommandKind::Move => match (spec_parse_coord(toks[1]), spec_parse_coord(toks[2])) {
            (None, _) => SpecPlan::CoordFailure { position: 1, raw: toks[1] },
            (Some(_), None) => SpecPlan::CoordFailure { position: 2, raw: toks[2] },
            (Some(src), Some(dst)) => SpecPlan::Ready(Command::Move { src, dst }),
        },
        CommandKind::StepUp => match (spec_parse_coord(toks[1]), spec_parse_coord(toks[2])) {
            (None, _) => SpecPlan::CoordFailure { position: 1, raw: toks[1] },
            (Some(_), None) => SpecPlan::CoordFailure { position: 2, raw: toks[2] },
            (Some(src), Some(dst)) => SpecPlan::Ready(Command::StepUp { src, dst }),
        },
        CommandKind::StepDown => match spec_parse_coord(spec_token_at(toks, 2)) {
            None => SpecPlan::CoordFailure { position: 2, raw: spec_token_at(toks, 2) },
            Some(dst) => SpecPlan::Ready(Command::StepDown { dst }),
        },
        CommandKind::Capture => match spec_parse_coord(toks[1]) {
            None => SpecPlan::CoordFailure { position: 1, raw: toks[1] },
            Some(src) => SpecPlan::Ready(Command::Capture { src }),
        },
    }
}

/// What the front end decides for a message: the command named by the first
/// token, after its arity check and its coordinate resolution.
pub open spec fn spec_plan(toks: Seq<Seq<char>>) -> SpecPlan {
    if toks.len() == 0 {
        SpecPlan::NotACommand
    } else {
        match spec_command_name(toks[0]) {
            None => SpecPlan::NotACommand,
            Some(k) => if toks.len() < spec_arity(k) + 1 {
                SpecPlan::ArgFailure { expected: spec_arity(k), actual: toks.len() - 1 }
            } else {
                spec_resolve(k, toks)
            },
        }
    }
}

/// Whether two character slices hold the same characters.
pub fn slice_eq(a: &[char], b: &[char]) -> (r: bool)
    ensures
        r == (a@ == b@),
{
    if a.len() != b.len() {
        return false;
    }
    let n = a.len();
    let mut i: usize = 0;
    while i < n
        invariant
            n == a@.len(),
            n == b@.len(),
            i <= n,
            forall|j: int| 0 <= j < i ==> a@[j] == b@[j],
        decreases n - i,
    {
        if a[i] != b[i] {
            return false;
        }
        i += 1;
    }
    proof {
        assert(a@ =~= b@);
    }
    true
}

/// The command that a leading token names, if any.
pub fn keyword_of(t: &[char]) -> (r: Option<CommandKind>)
    ensures
        r == spec_command_name(t@),
{
    let w = chars_of("~ping");
    if slice_eq(t, w.as_slice()) {
        return Some(CommandKind::Ping);
    }
    let w = chars_of("~log");
    if slice_eq(t, w.as_slice()) {
        return Some(CommandKind::ShowLog);
    }
    let w = chars_of("~initiate");
    if slice_eq(t, w.as_slice()) {
        return Some(CommandKind::Initiate);
    }
    let w = chars_of("~show");
    if slice_eq(t, w.as_slice()) {
        return Some(CommandKind::Show);
    }
    let w = chars_of("~mov");
    if slice_eq(t, w.as_slice()) {
        return Some(CommandKind::Move);
    }
    let w = chars_of("~stepup");
    if slice_eq(t, w.as_slice()) {
        return Some(CommandKind::StepUp);
    }
    let w = chars_of("~stepdown");
    if slice_eq(t, w.as_slice()) {
        return Some(CommandKind::StepDown);
    }
    let w = chars_of("~capture");
    if slice_eq(t, w.as_slice()) {
        return Some(CommandKind::Capture);
    }
    None
}

/// How many tokens beyond the command name the command declares it needs.
pub fn arity(k: CommandKind) -> (r: usize)
    ensures
        r as int == spec_arity(k),
{
    match k {
        CommandKind::Ping => 0,
        CommandKind::ShowLog => 0,
        CommandKind::Initiate => 0,
        CommandKind::Show => 0,
        CommandKind::Move => 2,
        CommandKind::StepUp => 2,
        CommandKind::StepDown => 1,
        CommandKind::Capture => 1,
    }
}

/// Identifies and resolves the command carried by a raw message.  `None`
/// means the message names no command and is ignored.  Otherwise the message
/// either resolves to a command, or fails its arity check or a coordinate
/// parse and yields the failure to report; nothing is resolved partially.
pub fn parse_command(content: &str) -> (r: Option<Result<Command, CommandFailure>>)
    ensures
        ({
            let plan = spec_plan(spec_tokens(content@));
            match r {
                None => plan is NotACommand,
                Some(rr) => match rr {
                    Ok(cmd) => plan == SpecPlan::Ready(cmd),
                    Err(f) => match plan {
                        SpecPlan::ArgFailure { expected, actual } => (f matches
                            CommandFailure::ArgumentCount { expected: e, actual: a } && e as int
                            == expected && a as int == actual),
                        SpecPlan::CoordFailure { position, raw } => (f matches
                            CommandFailure::CoordinateParse { position: p, raw: rw } && p as int
                            == position && rw@ == raw),
                        _ => false,
                    },
                },
            }
        }),
{
    let ghost stoks = spec_tokens(content@);
    let head_chars = chars_of(content);
    let head_toks = tokenize(head_chars.as_slice());
    proof {
        assert(head_toks.deep_view().len() == head_toks@.len());
    }
    if head_toks.is_empty() {
        return None;
    }
    proof {
        assert(head_toks.deep_view()[0] == head_toks@[0].deep_view());
        assert(head_toks@[0].deep_view() =~= head_toks@[0]@);
    }
    let k = match keyword_of(head_toks[0].as_slice()) {
        None => {
            return None;
        },
        Some(k) => k,
    };
    let want = arity(k);
    let toks = match extract(content, want) {
        Err(f) => {
            return Some(Err(f));
        },
        Ok(t) => t,
    };
    proof {
        assert(toks.deep_view().len() == toks@.len());
        assert forall|j: int| 0 <= j < toks@.len() implies toks.deep_view()[j] =~= toks@[j]@ by {
            assert(toks.deep_view()[j] == toks@[j].deep_view());
        }
    }
    match k {
        CommandKind::Ping => Some(Ok(Command::Ping)),
        CommandKind::ShowLog => Some(Ok(Command::ShowLog)),
        CommandKind::Initiate => Some(Ok(Command::Initiate)),
        CommandKind::Show => Some(Ok(Command::Show)),
        CommandKind::Move => {
            let src = match parse_coord(toks[1].as_slice()) {
                None => {
                    return Some(
                        Err(
                            CommandFailure::CoordinateParse {
                                position: 1,
                                raw: string_from_chars(toks[1].as_slice()),
                            },
                        ),
                    );
                },
                Some(c) => c,
            };
            let dst = match parse_coord(toks[2].as_slice()) {
                None => {
                    return Some(
                        Err(
                            CommandFailure::CoordinateParse {
                                position: 2,
                                raw: string_from_chars(toks[2].as_slice()),
                            },
                        ),
                    );
                },
                Some(c) => c,
            };
            Some(Ok(Command::Move { src, dst }))
        },
        CommandKind::StepUp => {
            let src = match parse_coord(toks[1].as_slice()) {
                None => {
                    return Some(
                        Err(
                            CommandFailure::CoordinateParse {
                                position: 1,
                                raw: string_from_chars(toks[1].as_slice()),
                            },
                        ),
                    );
                },
                Some(c) => c,
            };
            let dst = match parse_coord(toks[2].as_slice()) {
                None => {
                    return Some(
                        Err(
                            CommandFailure::CoordinateParse {
                                position: 2,
                                raw: string_from_chars(toks[2].as_slice()),
                            },
                        ),
                    );
                },
                Some(c) => c,
            };
            Some(Ok(Command::StepUp { src, dst }))
        },
        CommandKind::StepDown => {
            // Declared arity one, coordinate read from the second argument
            // position: with exactly one argument present the missing token
            // is resolved as empty and fails the coordinate parse.
            if toks.len() >= 3 {
                match parse_coord(toks[2].as_slice()) {
                    None => Some(
                        Err(
                            CommandFailure::CoordinateParse {
                                position: 2,
                                raw: string_from_chars(toks[2].as_slice()),
                            },
                        ),
                    ),
                    Some(dst) => Some(Ok(Command::StepDown { dst })),
                }
            } else {
                Some(Err(CommandFailure::CoordinateParse { position: 2, raw: String::new() }))
            }
        },
        CommandKind::Capture => {
            match parse_coord(toks[1].as_slice()) {
                None => Some(
                    Err(
                        CommandFailure::CoordinateParse {
                            position: 1,
                            raw: string_from_chars(toks[1].as_slice()),
                        },
                    ),
                ),
                Some(src) => Some(Ok(Command::Capture { src })),
            }
        },
    }
}

} // verus!

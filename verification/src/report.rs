//! The failure taxonomy of a command and the one user-facing report that each
//! failure produces.  Argument-count and coordinate failures arise before any
//! board access; a rule violation is what the rule engine hands back.  Every
//! failing command yields exactly one report; success paths never produce one.

use vstd::prelude::*;
use vstd::string::StringExecFns;

verus! {

/// A rule violation as the rule engine categorizes it, one variant for each
/// category of the engine's error value.
#[derive(Clone, Copy, Debug, PartialEq, Eq, Structural)]
pub enum Violation {
    MovingFromEmptySquare,
    MovingToNonEmptySquare,
    SteppingOnEmptySquare,
    Tam2ToHop1Zuo1,
    TwoPiecesOnFlight,
    NoPieceOnFlight,
    NoMatchingColorOrProfessionInHop1Zuo1,
    ParachutingToNonEmptySquare,
}

/// The name under which a rule violation is reported to the user.
pub open spec fn spec_violation_name(v: Violation) -> Seq<char> {
    match v {
        Violation::MovingFromEmptySquare => "MovingFromEmptySquare"@,
        Violation::MovingToNonEmptySquare => "MovingToNonEmptySquare"@,
        Violation::SteppingOnEmptySquare => "SteppingOnEmptySquare"@,
        Violation::Tam2ToHop1Zuo1 => "Tam2ToHop1Zuo1"@,
        Violation::TwoPiecesOnFlight => "TwoPiecesOnFlight"@,
        Violation::NoPieceOnFlight => "NoPieceOnFlight"@,
        Violation::NoMatchingColorOrProfessionInHop1Zuo1 => "NoMatchingColorOrProfessionInHop1Zuo1"@,
        Violation::ParachutingToNonEmptySquare => "ParachutingToNonEmptySquare"@,
    }
}

impl Violation {
    /// The name under which this violation is reported to the user.
    pub fn name(&self) -> (r: String)
        ensures
            r@ == spec_violation_name(*self),
    {
        match self {
            Violation::MovingFromEmptySquare => "MovingFromEmptySquare".to_owned(),
            Violation::MovingToNonEmptySquare => "MovingToNonEmptySquare".to_owned(),
            Violation::SteppingOnEmptySquare => "SteppingOnEmptySquare".to_owned(),
            Violation::Tam2ToHop1Zuo1 => "Tam2ToHop1Zuo1".to_owned(),
            Violation::TwoPiecesOnFlight => "TwoPiecesOnFlight".to_owned(),
            Violation::NoPieceOnFlight => "NoPieceOnFlight".to_owned(),
            Violation::NoMatchingColorOrProfessionInHop1Zuo1 => {
                "NoMatchingColorOrProfessionInHop1Zuo1".to_owned()
            },
            Violation::ParachutingToNonEmptySquare => "ParachutingToNonEmptySquare".to_owned(),
        }
    }
}

/// The decimal digit that stands for `d`.
pub open spec fn spec_digit(d: nat) -> char {
    if d == 0 {
        '0'
    } else if d == 1 {
        '1'
    } else if d == 2 {
        '2'
    } else if d == 3 {
        '3'
    } else if d == 4 {
        '4'
    } else if d == 5 {
        '5'
    } else if d == 6 {
        '6'
    } else if d == 7 {
        '7'
    } else if d == 8 {
        '8'
    } else {
        '9'
    }
}

/// The decimal numeral of `n`, most significant digit first.
pub open spec fn spec_decimal(n: nat) -> Seq<char>
    decreases n,
{
    if n < 10 {
        seq![spec_digit(n)]
    } else {
        spec_decimal(n / 10).push(spec_digit(n % 10))
    }
}

/// The decimal digit that stands for `d`.
fn digit_char(d: usize) -> (r: char)
    requires
        d < 10,
    ensures
        r == spec_digit(d as nat),
{
    match d {
        0 => '0',
        1 => '1',
        2 => '2',
        3 => '3',
        4 => '4',
        5 => '5',
        6 => '6',
        7 => '7',
        8 => '8',
        _ => '9',
    }
}

/// Relies on `String`'s `FromIterator` over `char`: collecting characters
/// yields the string of exactly those characters in order.
#[verifier::external_body]
pub fn string_from_chars(v: &[char]) -> (r: String)
    ensures
        r@ == v@,
{
    v.iter().collect()
}

/// Writes `n` in decimal.
pub fn decimal_string(n: usize) -> (r: String)
    ensures
        r@ == spec_decimal(n as nat),
{
    let mut low_digits: Vec<char> = Vec::new();
    let mut m = n;
    if n == 0 {
        proof {
            reveal_strlit("0");
            assert("0"@ =~= seq!['0']);
        }
        return "0".to_owned();
    }
    proof {
        assert(spec_decimal(n as nat) =~= spec_decimal(n as nat) + low_digits@.reverse());
    }
    loop
        invariant_except_break
            m > 0,
            spec_decimal(n as nat) == spec_decimal(m as nat) + low_digits@.reverse(),
        ensures
            spec_decimal(n as nat) == low_digits@.reverse(),
        decreases m,
    {
        let ghost old_digits = low_digits@;
        let ghost old_m = m as nat;
        let d = m % 10;
        low_digits.push(digit_char(d));
        m = m / 10;
        proof {
            assert(low_digits@ =~= old_digits.push(spec_digit(old_m % 10)));
            assert(low_digits@.reverse() =~= seq![spec_digit(old_m % 10)] + old_digits.reverse());
            if old_m < 10 {
                assert(spec_decimal(old_m) =~= seq![spec_digit(old_m)]);
                assert(old_m % 10 == old_m);
                assert(spec_decimal(n as nat) =~= low_digits@.reverse()) by {
                    assert(seq![spec_digit(old_m)] + old_digits.reverse() =~= low_digits@.reverse());
                }
            } else {
                assert(spec_decimal(old_m) =~= spec_decimal(old_m / 10).push(
                    spec_digit(old_m % 10),
                ));
                assert(spec_decimal(old_m) + old_digits.reverse() =~= spec_decimal(old_m / 10)
                    + low_digits@.reverse());
            }
        }
        if m == 0 {
            break;
        }
    }
    let mut out: Vec<char> = Vec::new();
    let k = low_digits.len();
    let mut i: usize = 0;
    while i < k
        invariant
            k == low_digits@.len(),
            i <= k,
            out@ == low_digits@.reverse().take(i as int),
        decreases k - i,
    {
        out.push(low_digits[k - 1 - i]);
        proof {
            assert(out@ =~= low_digits@.reverse().take(i as int + 1));
        }
        i += 1;
    }
    proof {
        assert(out@ =~= low_digits@.reverse());
    }
    string_from_chars(out.as_slice())
}

/// The report for a command whose message carried too few arguments.
pub open spec fn spec_arg_count_report(expected: nat, actual: nat) -> Seq<char> {
    "Not enough arguments. Expected: "@ + spec_decimal(expected) + ", got: "@ + spec_decimal(actual)
}

/// The word under which argument position `position` is reported; the
/// commands read coordinates from the first and the second position only.
pub open spec fn spec_position_word(position: nat) -> Seq<char> {
    if position == 1 {
        "first"@
    } else {
        "second"@
    }
}

/// The report for a command whose argument at `position` is not a coordinate.
pub open spec fn spec_coord_report(position: nat, raw: Seq<char>) -> Seq<char> {
    "The "@ + spec_position_word(position) + " argument is incorrect. Expected a coordinate, got: "@
        + raw
}

/// The report for a command that the rule engine refused.
pub open spec fn spec_rule_report(v: Violation) -> Seq<char> {
    "Invalid move. Reason: "@ + spec_violation_name(v)
}

/// Why a command failed: too few arguments, an argument that is not a
/// coordinate, or a rule violation from the rule engine.
#[derive(Debug, Clone, PartialEq, Eq)]
pub enum CommandFailure {
    /// The message carried fewer arguments than the command expects.
    ArgumentCount { expected: usize, actual: usize },
    /// The argument at `position` (counted from one) is not a coordinate.
    CoordinateParse { position: usize, raw: String },
    /// The rule engine refused the operation.
    Rule { violation: Violation },
}

/// The one user-facing report for a failure.
pub open spec fn spec_failure_report(f: CommandFailure) -> Seq<char> {
    match f {
        CommandFailure::ArgumentCount { expected, actual } => spec_arg_count_report(
            expected as nat,
            actual as nat,
        ),
        CommandFailure::CoordinateParse { position, raw } => spec_coord_report(
            position as nat,
            raw@,
        ),
        CommandFailure::Rule { violation } => spec_rule_report(violation),
    }
}

impl CommandFailure {
    /// The one user-facing report for this failure.
    pub fn report(&self) -> (r: String)
        ensures
            r@ == spec_failure_report(*self),
    {
        match self {
            CommandFailure::ArgumentCount { expected, actual } => {
                let mut s = "Not enough arguments. Expected: ".to_owned();
                s.append(decimal_string(*expected).as_str());
                s.append(", got: ");
                s.append(decimal_string(*actual).as_str());
                s
            },
            CommandFailure::CoordinateParse { position, raw } => {
                let mut s = "The ".to_owned();
                if *position == 1 {
                    s.append("first");
                } else {
                    s.append("second");
                }
                s.append(" argument is incorrect. Expected a coordinate, got: ");
                s.append(raw.as_str());
                s
            },
            CommandFailure::Rule { violation } => {
                let mut s = "Invalid move. Reason: ".to_owned();
                s.append(violation.name().as_str());
                s
            },
        }
    }
}

} // verus!

//! The coordinate grammar: a token names a square of the board as one column
//! letter followed by one row name.  Parsing is total and all-or-nothing: a
//! token that is not exactly a column letter followed by a row name yields no
//! coordinate at all.

use vstd::prelude::*;

verus! {

/// A column of the board, written as a single letter.
#[derive(Clone, Copy, Debug, PartialEq, Eq, Structural)]
pub enum Column {
    K,
    L,
    N,
    T,
    Z,
    X,
    C,
    M,
    P,
}

/// A row of the board, written as one or two letters.
#[derive(Clone, Copy, Debug, PartialEq, Eq, Structural)]
pub enum Row {
    A,
    E,
    I,
    U,
    O,
    Y,
    AI,
    AU,
    IA,
}

/// The column named by a single character, if any.
pub open spec fn spec_column_of(c: char) -> Option<Column> {
    match c {
        'C' => Some(Column::C),
        'K' => Some(Column::K),
        'L' => Some(Column::L),
        'M' => Some(Column::M),
        'N' => Some(Column::N),
        'P' => Some(Column::P),
        'T' => Some(Column::T),
        'X' => Some(Column::X),
        'Z' => Some(Column::Z),
        _ => None,
    }
}

/// The row named by a whole character sequence, if any.
pub open spec fn spec_row_of(s: Seq<char>) -> Option<Row> {
    if s == seq!['A'] {
        Some(Row::A)
    } else if s == seq!['A', 'I'] {
        Some(Row::AI)
    } else if s == seq!['A', 'U'] {
        Some(Row::AU)
    } else if s == seq!['E'] {
        Some(Row::E)
    } else if s == seq!['I'] {
        Some(Row::I)
    } else if s == seq!['O'] {
        Some(Row::O)
    } else if s == seq!['U'] {
        Some(Row::U)
    } else if s == seq!['Y'] {
        Some(Row::Y)
    } else if s == seq!['I', 'A'] {
        Some(Row::IA)
    } else {
        None
    }
}

/// What a whole token names: its first character must name a column and the
/// rest of the token must name a row; otherwise the token names nothing.
pub open spec fn spec_parse_coord(s: Seq<char>) -> Option<(Row, Column)> {
    if s.len() == 0 {
        None
    } else {
        match (spec_column_of(s[0]), spec_row_of(s.skip(1))) {
            (Some(col), Some(row)) => Some((row, col)),
            _ => None,
        }
    }
}

/// The column named by a single character, if any.
pub fn column_of(c: char) -> (r: Option<Column>)
    ensures
        r == spec_column_of(c),
{
    match c {
        'C' => Some(Column::C),
        'K' => Some(Column::K),
        'L' => Some(Column::L),
        'M' => Some(Column::M),
        'N' => Some(Column::N),
        'P' => Some(Column::P),
        'T' => Some(Column::T),
        'X' => Some(Column::X),
        'Z' => Some(Column::Z),
        _ => None,
    }
}

/// The row named by the characters of `s` taken from position `from` on.
pub fn row_of_tail(s: &[char], from: usize) -> (r: Option<Row>)
    requires
        from <= s@.len(),
    ensures
        r == spec_row_of(s@.skip(from as int)),
{
    let ghost tail = s@.skip(from as int);
    let n = s.len();
    if n - from == 1 {
        let c = s[from];
        proof {
            assert(tail =~= seq![c]);
            if c != 'A' {
                assert(tail != seq!['A']) by { assert(seq!['A'][0] == 'A') };
            }
            if c != 'E' {
                assert(tail != seq!['E']) by { assert(seq!['E'][0] == 'E') };
            }
            if c != 'I' {
                assert(tail != seq!['I']) by { assert(seq!['I'][0] == 'I') };
            }
            if c != 'O' {
                assert(tail != seq!['O']) by { assert(seq!['O'][0] == 'O') };
            }
            if c != 'U' {
                assert(tail != seq!['U']) by { assert(seq!['U'][0] == 'U') };
            }
            if c != 'Y' {
                assert(tail != seq!['Y']) by { assert(seq!['Y'][0] == 'Y') };
            }
            assert(tail != seq!['A', 'I'] && tail != seq!['A', 'U'] && tail != seq!['I', 'A']);
        }
        match c {
            'A' => Some(Row::A),
            'E' => Some(Row::E),
            'I' => Some(Row::I),
            'O' => Some(Row::O),
            'U' => Some(Row::U),
            'Y' => Some(Row::Y),
            _ => None,
        }
    } else if n - from == 2 {
        let c0 = s[from];
        let c1 = s[from + 1];
        proof {
            assert(tail =~= seq![c0, c1]);
            assert(tail != seq!['A'] && tail != seq!['E'] && tail != seq!['I'] && tail != seq!['O']
                && tail != seq!['U'] && tail != seq!['Y']);
            if !(c0 == 'A' && c1 == 'I') {
                assert(tail != seq!['A', 'I']) by {
                    assert(seq!['A', 'I'][0] == 'A' && seq!['A', 'I'][1] == 'I');
                };
            }
            if !(c0 == 'A' && c1 == 'U') {
                assert(tail != seq!['A', 'U']) by {
                    assert(seq!['A', 'U'][0] == 'A' && seq!['A', 'U'][1] == 'U');
                };
            }
            if !(c0 == 'I' && c1 == 'A') {
                assert(tail != seq!['I', 'A']) by {
                    assert(seq!['I', 'A'][0] == 'I' && seq!['I', 'A'][1] == 'A');
                };
            }
        }
        if c0 == 'A' && c1 == 'I' {
            Some(Row::AI)
        } else if c0 == 'A' && c1 == 'U' {
            Some(Row::AU)
        } else if c0 == 'I' && c1 == 'A' {
            Some(Row::IA)
        } else {
            None
        }
    } else {
        proof {
            assert(tail.len() != 1 && tail.len() != 2);
        }
        None
    }
}

/// Parses one token into the coordinate it names, or nothing.  Parsing never
/// yields a partly valid coordinate: the whole token must match.
pub fn parse_coord(coord: &[char]) -> (r: Option<(Row, Column)>)
    ensures
        r == spec_parse_coord(coord@),
{
    if coord.is_empty() || coord.len() > 3 {
        proof {
            if coord@.len() > 3 {
                assert(coord@.skip(1).len() > 2);
            }
        }
        return None;
    }
    let column = match column_of(coord[0]) {
        None => {
            return None;
        },
        Some(c) => c,
    };
    let row = match row_of_tail(coord, 1) {
        None => {
            return None;
        },
        Some(r) => r,
    };
    Some((row, column))
}

/// Totality of parsing, the negative half: the empty token and every token
/// longer than three characters name nothing.
pub proof fn lemma_parse_coord_short_or_long(s: Seq<char>)
    requires
        s.len() == 0 || s.len() > 3,
    ensures
        spec_parse_coord(s) is None,
{
    if s.len() > 3 {
        assert(s.skip(1).len() > 2);
    }
}

/// Totality of parsing, the positive half: every nonempty token is one
/// character followed by a remainder, and it names exactly the pair of the
/// column named by that character and the row named by that remainder —
/// all or nothing, with no partial match.
pub proof fn lemma_parse_coord_exact(c: char, rest: Seq<char>)
    ensures
        spec_parse_coord(seq![c] + rest) == (match (spec_column_of(c), spec_row_of(rest)) {
            (Some(col), Some(row)) => Some((row, col)),
            _ => None,
        }),
{
    let s = seq![c] + rest;
    assert(s[0] == c);
    assert(s.skip(1) =~= rest);
}

} // verus!

//! Splitting a raw command message into whitespace-separated tokens, and the
//! arity check that a command makes before it reads its arguments.  The
//! leading command name counts as one token; either the whole token list is
//! handed back intact or the extraction fails before any coordinate parsing.

use vstd::prelude::*;
use crate::report::CommandFailure;
use boolinator::Boolinator;

verus! {

broadcast use vstd::string::group_string_axioms;

/// Whether `c` separates tokens: the characters with the Unicode
/// `White_Space` property.
pub open spec fn spec_is_whitespace(c: char) -> bool {
    c == ' ' || c == '\t' || c == '\n' || c == '\u{B}' || c == '\u{C}' || c == '\r' || c == '\u{85}'
        || c == '\u{A0}' || c == '\u{1680}' || c == '\u{2000}' || c == '\u{2001}' || c == '\u{2002}'
        || c == '\u{2003}' || c == '\u{2004}' || c == '\u{2005}' || c == '\u{2006}' || c
        == '\u{2007}' || c == '\u{2008}' || c == '\u{2009}' || c == '\u{200A}' || c == '\u{2028}'
        || c == '\u{2029}' || c == '\u{202F}' || c == '\u{205F}' || c == '\u{3000}'
}

/// Whether `c` separates tokens.
pub fn is_whitespace_char(c: char) -> (r: bool)
    ensures
        r == spec_is_whitespace(c),
{
    c == ' ' || c == '\t' || c == '\n' || c == '\u{B}' || c == '\u{C}' || c == '\r' || c == '\u{85}'
        || c == '\u{A0}' || c == '\u{1680}' || c == '\u{2000}' || c == '\u{2001}' || c == '\u{2002}'
        || c == '\u{2003}' || c == '\u{2004}' || c == '\u{2005}' || c == '\u{2006}' || c
        == '\u{2007}' || c == '\u{2008}' || c == '\u{2009}' || c == '\u{200A}' || c == '\u{2028}'
        || c == '\u{2029}' || c == '\u{202F}' || c == '\u{205F}' || c == '\u{3000}'
}

/// The tokens of `s` when a token `cur` is already open: a whitespace
/// character closes the open token, any other character extends it.
pub open spec fn tok_rec(s: Seq<char>, cur: Seq<char>) -> Seq<Seq<char>>
    decreases s.len(),
{
    if s.len() == 0 {
        if cur.len() == 0 {
            Seq::empty()
        } else {
            seq![cur]
        }
    } else if spec_is_whitespace(s[0]) {
        if cur.len() == 0 {
            tok_rec(s.skip(1), Seq::empty())
        } else {
            seq![cur] + tok_rec(s.skip(1), Seq::empty())
        }
    } else {
        tok_rec(s.skip(1), cur.push(s[0]))
    }
}

/// The whitespace-separated tokens of `s`, in order.
pub open spec fn spec_tokens(s: Seq<char>) -> Seq<Seq<char>> {
    tok_rec(s, Seq::empty())
}

/// The characters of `s`, in order, as a vector.
pub fn chars_of(s: &str) -> (v: Vec<char>)
    ensures
        v@ == s@,
{
    let mut v: Vec<char> = Vec::new();
    for c in it: s.chars()
        invariant
            it.seq() == s@,
            v@ == it.seq().take(it.index() as int),
    {
        v.push(c);
        proof {
            assert(v@ =~= it.seq().take(it.index() as int + 1));
        }
    }
    proof {
        assert(v@ =~= s@);
    }
    v
}

/// Splits `s` into its whitespace-separated tokens.
pub fn tokenize(s: &[char]) -> (toks: Vec<Vec<char>>)
    ensures
        toks.deep_view() == spec_tokens(s@),
{
    let mut toks: Vec<Vec<char>> = Vec::new();
    let mut cur: Vec<char> = Vec::new();
    let n = s.len();
    let mut i: usize = 0;
    proof {
        assert(s@.skip(0) =~= s@);
        assert(toks.deep_view() + tok_rec(s@, cur@) =~~= spec_tokens(s@));
    }
    while i < n
        invariant
            n == s@.len(),
            i <= n,
            spec_tokens(s@) == toks.deep_view() + tok_rec(s@.skip(i as int), cur@),
        decreases n - i,
    {
        let ghost old_toks = toks.deep_view();
        let ghost old_cur = cur@;
        let ghost rest = s@.skip(i as int);
        proof {
            assert(rest[0] == s@[i as int]);
            assert(rest.skip(1) =~= s@.skip(i as int + 1));
        }
        let c = s[i];
        if is_whitespace_char(c) {
            if !cur.is_empty() {
                toks.push(cur);
                cur = Vec::new();
                proof {
                    assert(toks.deep_view() =~~= old_toks.push(old_cur));
                    assert(old_toks.push(old_cur) + tok_rec(rest.skip(1), cur@) =~~= old_toks + (
                    seq![old_cur] + tok_rec(rest.skip(1), cur@)));
                }
            } else {
                proof {
                    assert(cur@ =~= Seq::<char>::empty());
                }
            }
        } else {
            cur.push(c);
            proof {
                assert(toks.deep_view() =~~= old_toks);
                assert(cur@ =~= old_cur.push(c));
            }
        }
        i += 1;
    }
    proof {
        assert(s@.skip(n as int) =~= Seq::<char>::empty());
    }
    if !cur.is_empty() {
        let ghost old_toks = toks.deep_view();
        let ghost old_cur = cur@;
        toks.push(cur);
        proof {
            assert(toks.deep_view() =~~= old_toks.push(old_cur));
            assert(old_toks.push(old_cur) =~~= old_toks + seq![old_cur]);
        }
    } else {
        proof {
            assert(toks.deep_view() + Seq::<Seq<char>>::empty() =~~= toks.deep_view());
        }
    }
    toks
}

/// Relies on boolinator's `as_some` on `bool`: `true` wraps the given value
/// in `Some`, `false` yields `None`.
pub assume_specification<T>[ <bool as boolinator::Boolinator>::as_some ](b: bool, some: T) -> (r:
    Option<T>)
    ensures
        r == if b {
            Some(some)
        } else {
            None::<T>
        },
;

/// Splits a command message into tokens and checks that at least `expected`
/// tokens follow the leading command name.  Either the whole token list is
/// returned intact, or the extraction fails and reports the expected count
/// beside the count of arguments actually present.
pub fn extract(message: &str, expected: usize) -> (r: Result<Vec<Vec<char>>, CommandFailure>)
    requires
        spec_tokens(message@).len() >= 1,
    ensures
        match r {
            Ok(toks) => toks.deep_view() == spec_tokens(message@) && spec_tokens(message@).len()
                >= expected + 1,
            Err(f) => spec_tokens(message@).len() < expected + 1 && f
                == (CommandFailure::ArgumentCount {
                expected,
                actual: (spec_tokens(message@).len() - 1) as usize,
            }),
        },
{
    let v = chars_of(message);
    let toks = tokenize(v.as_slice());
    let enough: Option<()> = (toks.len() > expected).as_some(());
    match enough {
        Some(_) => Ok(toks),
        None => Err(
            CommandFailure::ArgumentCount { expected, actual: toks.len() - 1 },
        ),
    }
}

} // verus!

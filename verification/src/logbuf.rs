//! The append-only log of raw command messages.  Entries are kept in
//! insertion order, the log only grows, and reading it yields every entry,
//! newline-joined and untruncated.

use vstd::prelude::*;
use vstd::string::StringExecFns;

verus! {

/// The entries joined by single newlines, in order, without truncation.
pub open spec fn spec_joined(entries: Seq<Seq<char>>) -> Seq<char>
    decreases entries.len(),
{
    if entries.len() == 0 {
        Seq::empty()
    } else if entries.len() == 1 {
        entries[0]
    } else {
        entries[0] + seq!['\n'] + spec_joined(entries.skip(1))
    }
}

/// Appending one entry appends a newline and the entry to the joined text,
/// whenever the log was not empty before.
pub proof fn lemma_joined_push(entries: Seq<Seq<char>>, entry: Seq<char>)
    requires
        entries.len() >= 1,
    ensures
        spec_joined(entries.push(entry)) == spec_joined(entries) + seq!['\n'] + entry,
    decreases entries.len(),
{
    let pushed = entries.push(entry);
    if entries.len() == 1 {
        assert(pushed.len() == 2);
        assert(pushed.skip(1) =~= seq![entry]);
        assert(spec_joined(pushed.skip(1)) == entry);
    } else {
        lemma_joined_push(entries.skip(1), entry);
        assert(pushed.skip(1) =~= entries.skip(1).push(entry));
        assert(spec_joined(pushed) == entries[0] + seq!['\n'] + (spec_joined(entries.skip(1))
            + seq!['\n'] + entry));
        assert(entries[0] + seq!['\n'] + (spec_joined(entries.skip(1)) + seq!['\n'] + entry) =~= (
        entries[0] + seq!['\n'] + spec_joined(entries.skip(1))) + seq!['\n'] + entry);
    }
}

/// The process-wide, append-only buffer of raw command messages.
pub struct LogBuffer {
    entries: Vec<String>,
}

impl View for LogBuffer {
    type V = Seq<Seq<char>>;

    closed spec fn view(&self) -> Seq<Seq<char>> {
        self.entries.deep_view()
    }
}

impl LogBuffer {
    /// An empty log.
    pub fn new() -> (r: LogBuffer)
        ensures
            r@ == Seq::<Seq<char>>::empty(),
    {
        let r = LogBuffer { entries: Vec::new() };
        proof {
            assert(r@ =~~= Seq::<Seq<char>>::empty());
        }
        r
    }

    /// Appends one raw message at the end; the log never shrinks and earlier
    /// entries keep their places.
    pub fn append(&mut self, message: String)
        ensures
            final(self)@ == old(self)@.push(message@),
    {
        let ghost before = self@;
        let ghost entry = message@;
        self.entries.push(message);
        proof {
            assert(self@ =~~= before.push(entry));
        }
    }

    /// All entries, newline-joined, in insertion order, without truncation.
    pub fn render_log(&self) -> (r: String)
        ensures
            r@ == spec_joined(self@),
    {
        let mut out = String::new();
        let n = self.entries.len();
        proof {
            assert(self@.len() == n);
            assert(self@.take(0) =~= Seq::<Seq<char>>::empty());
        }
        let mut i: usize = 0;
        while i < n
            invariant
                n == self@.len(),
                n == self.entries@.len(),
                i <= n,
                self@ == self.entries.deep_view(),
                out@ == spec_joined(self@.take(i as int)),
            decreases n - i,
        {
            let ghost done = self@.take(i as int);
            proof {
                assert(self@[i as int] == self.entries@[i as int]@);
            }
            if i == 0 {
                out.append(self.entries[0].as_str());
                proof {
                    assert(self@.take(1) =~= seq![self@[0]]);
                    assert(Seq::<char>::empty() + self@[0] =~= self@[0]);
                }
            } else {
                out.append("\n");
                out.append(self.entries[i].as_str());
                proof {
                    lemma_joined_push(done, self@[i as int]);
                    assert(self@.take(i as int + 1) =~= done.push(self@[i as int]));
                    assert("\n"@ =~= seq!['\n']) by {
                        reveal_strlit("\n");
                    }
                    assert((spec_joined(done) + "\n"@) + self@[i as int] =~= spec_joined(done)
                        + seq!['\n'] + self@[i as int]);
                }
            }
            i += 1;
        }
        proof {
            assert(self@.take(n as int) =~= self@);
        }
        out
    }
}

} // verus!

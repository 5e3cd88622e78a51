//! The append-only log of received messages, rendered read-only by the
//! presentation layer. It is fed by the subscription side and only ever
//! grows; nothing a publish job does touches it.

use vstd::prelude::*;

verus! {

/// The log text for a sequence of lines: each line followed by a newline,
/// in arrival order.
pub open spec fn render_lines(lines: Seq<Seq<char>>) -> Seq<char>
    decreases lines.len(),
{
    if lines.len() == 0 {
        Seq::<char>::empty()
    } else {
        render_lines(lines.drop_last()) + lines.last() + seq!['\n']
    }
}

/// An append-only buffer of received message lines, ordered by arrival.
pub struct InboxLog {
    entries: Vec<String>,
}

impl InboxLog {
    /// The lines received so far, in arrival order.
    pub closed spec fn lines(self) -> Seq<Seq<char>> {
        self.entries@.map_values(|s: String| s@)
    }

    /// An empty log.
    pub fn new() -> (log: InboxLog)
        ensures
            log.lines() =~= Seq::<Seq<char>>::empty(),
    {
        InboxLog { entries: Vec::new() }
    }

    /// Appends one received line; everything already logged stays where it
    /// was.
    pub fn append(&mut self, line: String)
        ensures
            final(self).lines() =~= old(self).lines().push(line@),
    {
        self.entries.push(line);
    }

    /// How many lines have arrived.
    pub fn len(&self) -> (n: usize)
        ensures
            n == self.lines().len(),
    {
        self.entries.len()
    }

    /// The line at position `i`.
    pub fn entry(&self, i: usize) -> (r: &String)
        requires
            i < self.lines().len(),
        ensures
            r@ == self.lines()[i as int],
    {
        &self.entries[i]
    }

    /// The whole log as one text block, one line per received message.
    pub fn render(&self) -> (r: String)
        ensures
            r@ == render_lines(self.lines()),
    {
        proof {
            reveal_strlit("\n");
        }
        let mut out = String::new();
        let mut i: usize = 0;
        proof {
            assert(self.lines().take(0) =~= Seq::<Seq<char>>::empty());
        }
        while i < self.entries.len()
            invariant
                i <= self.lines().len(),
                self.lines().len() == self.entries@.len(),
                out@ == render_lines(self.lines().take(i as int)),
            decreases self.entries@.len() - i,
        {
            let line = &self.entries[i];
            out.append(line.as_str());
            out.append("\n");
            proof {
                reveal_strlit("\n");
                let lv = self.lines();
                assert(lv.take(i + 1).drop_last() =~= lv.take(i as int));
                assert(lv.take(i + 1).last() == lv[i as int]);
                assert("\n"@ =~= seq!['\n']);
                assert(out@ =~= render_lines(lv.take(i + 1)));
            }
            i = i + 1;
        }
        proof {
            assert(self.lines().take(self.lines().len() as int) =~= self.lines());
        }
        out
    }
}

} // verus!

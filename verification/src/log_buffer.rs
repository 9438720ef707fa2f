//! The scrolling log buffer: the accumulated input text together with a
//! bounded index of line-start offsets. Each line read from input is
//! prefixed with `'>'` and appended; its start offset (in characters) is
//! recorded first, and when the index grows past its bound the oldest
//! offsets are dropped in a batch.

use crate::lines::{split_lines, split_lines_exec, views_of};
use vstd::prelude::*;

verus! {

/// Greatest number of line-start offsets the index may hold.
pub const MAX_LINE_STARTS: usize = 200;

/// How many of the oldest offsets leave the index when it overflows.
pub const TRIM_BATCH: usize = 10;

/// How many of the most recent lines are laid out on screen.
pub const DISPLAYED_LINES: usize = 60;

pub struct LogBuffer {
    pub text: String,
    pub line_starts: Vec<usize>,
}

impl LogBuffer {
    /// The index always holds between 1 and `MAX_LINE_STARTS` offsets, in
    /// non-decreasing order, each within the text.
    pub open spec fn wf(self) -> bool {
        &&& 1 <= self.line_starts@.len() <= MAX_LINE_STARTS
        &&& forall|i: int|
            0 <= i < self.line_starts@.len() ==> self.line_starts@[i] <= self.text@.len()
        &&& forall|i: int, j: int|
            0 <= i < j < self.line_starts@.len() ==> self.line_starts@[i] <= self.line_starts@[j]
    }

    /// An empty buffer whose index holds the single offset 0.
    pub fn new() -> (r: LogBuffer)
        ensures
            r.wf(),
            r.text@ == Seq::<char>::empty(),
            r.line_starts@ == seq![0usize],
    {
        let mut starts: Vec<usize> = Vec::new();
        starts.push(0);
        proof {
            assert(starts@ =~= seq![0usize]);
        }
        LogBuffer { text: String::new(), line_starts: starts }
    }

    /// The index after the start of the next line is recorded.
    pub open spec fn starts_after_record(self) -> Seq<usize> {
        self.line_starts@.push(self.text@.len() as usize)
    }

    /// Appends one input line: records the current end of the text as the
    /// new line's start, drops the `TRIM_BATCH` oldest offsets if the index
    /// would overflow, then appends the line prefixed with `'>'`.
    pub fn push_line(&mut self, line: &str)
        requires
            old(self).wf(),
            line@.len() > 0,
        ensures
            final(self).wf(),
            final(self).text@ == old(self).text@ + ">"@ + line@,
            final(self).line_starts@ == (if old(self).starts_after_record().len()
                > MAX_LINE_STARTS {
                old(self).starts_after_record().skip(TRIM_BATCH as int)
            } else {
                old(self).starts_after_record()
            }),
    {
        let start = self.text.as_str().unicode_len();
        self.line_starts.push(start);
        let ghost recorded = self.line_starts@;
        if self.line_starts.len() > MAX_LINE_STARTS {
            let mut k: usize = 0;
            while k < TRIM_BATCH
                invariant
                    k <= TRIM_BATCH,
                    recorded.len() == MAX_LINE_STARTS + 1,
                    self.line_starts@ =~= recorded.skip(k as int),
                    self.text == old(self).text,
                decreases TRIM_BATCH - k,
            {
                self.line_starts.remove(0);
                proof {
                    assert(self.line_starts@ =~= recorded.skip(k + 1));
                }
                k += 1;
            }
        }
        self.text.append(">");
        self.text.append(line);
        proof {
            reveal_strlit(">");
            assert(self.text@ =~= old(self).text@ + ">"@ + line@);
        }
    }

    /// The offset the layout starts from: the start of the oldest line when
    /// fewer than `DISPLAYED_LINES` are indexed, else the start of the
    /// `DISPLAYED_LINES`-th most recent line.
    pub open spec fn display_start_spec(self) -> usize {
        if self.line_starts@.len() < DISPLAYED_LINES {
            self.line_starts@[0]
        } else {
            self.line_starts@[self.line_starts@.len() - DISPLAYED_LINES]
        }
    }

    /// The character offset at which the on-screen text begins.
    pub fn display_start(&self) -> (r: usize)
        requires
            self.wf(),
        ensures
            r == self.display_start_spec(),
    {
        if self.line_starts.len() < DISPLAYED_LINES {
            self.line_starts[0]
        } else {
            self.line_starts[self.line_starts.len() - DISPLAYED_LINES]
        }
    }

    /// The lines that are laid out on screen: the text from the display
    /// start onward, split at `'\n'`.
    pub fn visible_lines(&self) -> (r: Vec<String>)
        requires
            self.wf(),
        ensures
            views_of(r@) == split_lines(self.text@.skip(self.display_start_spec() as int)),
    {
        let start = self.display_start();
        let len = self.text.as_str().unicode_len();
        let tail = self.text.as_str().substring_char(start, len);
        proof {
            assert(tail@ =~= self.text@.skip(self.display_start_spec() as int));
        }
        split_lines_exec(tail)
    }
}

} // verus!

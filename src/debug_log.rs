use vstd::prelude::*;
use crate::text::push_char;

verus! {

/// How many lines the debug log keeps.
pub const DEBUG_LOG_CAPACITY: usize = 20;

/// How many of the newest lines the debug pane shows.
pub const DEBUG_PANE_LINES: usize = 6;

/// `log` with `line` appended, the oldest line dropped when that makes it
/// longer than the capacity.
pub open spec fn bounded_push(log: Seq<Seq<char>>, line: Seq<char>) -> Seq<Seq<char>> {
    let l = log.push(line);
    if l.len() > DEBUG_LOG_CAPACITY {
        l.drop_first()
    } else {
        l
    }
}

/// The last `n` lines of `log` (all of them when it has fewer).
pub open spec fn newest(log: Seq<Seq<char>>, n: nat) -> Seq<Seq<char>> {
    if log.len() <= n {
        log
    } else {
        log.subrange(log.len() - n, log.len() as int)
    }
}

/// The lines joined with a line break between each two.
pub open spec fn joined(lines: Seq<Seq<char>>) -> Seq<char>
    decreases lines.len(),
{
    if lines.len() == 0 {
        Seq::empty()
    } else if lines.len() == 1 {
        lines[0]
    } else {
        joined(lines.drop_last()) + seq!['\n'] + lines.last()
    }
}

/// A bounded log of lines, oldest first.
pub struct DebugLog {
    pub lines: Vec<String>,
}

impl View for DebugLog {
    type V = Seq<Seq<char>>;

    open spec fn view(&self) -> Seq<Seq<char>> {
        self.lines@.map_values(|s: String| s@)
    }
}

impl DebugLog {
    pub open spec fn wf(&self) -> bool {
        self.lines.len() <= DEBUG_LOG_CAPACITY
    }

    /// An empty log.
    pub fn new() -> (r: DebugLog)
        ensures
            r@ == Seq::<Seq<char>>::empty(),
            r.wf(),
    {
        DebugLog { lines: Vec::new() }
    }

    /// Appends `line`, evicting the oldest line when the log is full.
    pub fn push(&mut self, line: String)
        requires
            old(self).wf(),
        ensures
            final(self)@ == bounded_push(old(self)@, line@),
            final(self).wf(),
    {
        self.lines.push(line);
        if self.lines.len() > DEBUG_LOG_CAPACITY {
            let _ = self.lines.remove(0);
        }
        proof {
            let l = old(self)@.push(line@);
            if l.len() > DEBUG_LOG_CAPACITY {
                assert(self@ =~= l.drop_first());
            } else {
                assert(self@ =~= l);
            }
        }
    }

    /// The newest `n` lines, oldest first, joined by line breaks.
    pub fn tail_text(&self, n: usize) -> (r: String)
        ensures
            r@ == joined(newest(self@, n as nat)),
    {
        let len = self.lines.len();
        let start: usize = if len <= n {
            0
        } else {
            len - n
        };
        let mut out = String::new();
        let mut i: usize = start;
        proof {
            assert(self@.subrange(start as int, start as int) =~= Seq::<Seq<char>>::empty());
        }
        while i < len
            invariant
                start <= i <= len,
                len == self.lines.len(),
                out@ == joined(self@.subrange(start as int, i as int)),
            decreases len - i,
        {
            let ghost prev = self@.subrange(start as int, i as int);
            let ghost next_lines = self@.subrange(start as int, i + 1);
            assert(next_lines.drop_last() =~= prev);
            assert(next_lines.last() == self.lines@[i as int]@);
            if i > start {
                push_char(&mut out, '\n');
            }
            out.append(self.lines[i].as_str());
            i = i + 1;
        }
        proof {
            assert(self@.subrange(start as int, len as int) =~= newest(self@, n as nat));
        }
        out
    }
}

} // verus!

//! The bounded per-tunnel log buffer: capacity 500 lines, evicting the
//! oldest 100 in one block once the capacity is exceeded, so that appends
//! stay amortized constant-time.

use vstd::prelude::*;

verus! {

/// Most lines a buffer holds.
pub const LOG_CAPACITY: usize = 500;

/// How many of the oldest lines leave at once when the capacity is exceeded.
pub const LOG_EVICT: usize = 100;

/// One append on the abstract buffer: push the line, then drop the oldest
/// block if the buffer has grown past its capacity.
pub open spec fn append_model(s: Seq<Seq<char>>, line: Seq<char>) -> Seq<Seq<char>> {
    let grown = s.push(line);
    if grown.len() > LOG_CAPACITY {
        grown.skip(LOG_EVICT as int)
    } else {
        grown
    }
}

/// A whole run of appends, oldest first.
pub open spec fn append_all(s: Seq<Seq<char>>, lines: Seq<Seq<char>>) -> Seq<Seq<char>>
    decreases lines.len(),
{
    if lines.len() == 0 {
        s
    } else {
        append_all(append_model(s, lines[0]), lines.skip(1))
    }
}

pub struct LogBuffer {
    entries: Vec<String>,
}

impl View for LogBuffer {
    type V = Seq<Seq<char>>;

    closed spec fn view(&self) -> Seq<Seq<char>> {
        self.entries.deep_view()
    }
}

impl LogBuffer {
    pub open spec fn wf(&self) -> bool {
        self@.len() <= LOG_CAPACITY
    }

    pub fn new() -> (r: LogBuffer)
        ensures
            r@ == Seq::<Seq<char>>::empty(),
            r.wf(),
    {
        let r = LogBuffer { entries: Vec::new() };
        assert(r@ =~= Seq::<Seq<char>>::empty());
        r
    }

    pub fn len(&self) -> (r: usize)
        ensures
            r == self@.len(),
    {
        self.entries.len()
    }

    pub fn append(&mut self, line: String)
        requires
            old(self).wf(),
        ensures
            final(self)@ == append_model(old(self)@, line@),
            final(self).wf(),
            final(self)@.len() > 0 && final(self)@.last() == line@,
    {
        self.entries.push(line);
        assert(self.entries.deep_view() =~= old(self)@.push(line@));
        if self.entries.len() > LOG_CAPACITY {
            let mut kept: Vec<String> = Vec::new();
            let mut j: usize = LOG_EVICT;
            while j < self.entries.len()
                invariant
                    LOG_EVICT <= j <= self.entries.len(),
                    self.entries.deep_view() == old(self)@.push(line@),
                    kept@.len() == j - LOG_EVICT,
                    forall|k: int| 0 <= k < kept@.len()
                        ==> kept@[k]@ == self.entries@[k + LOG_EVICT]@,
                decreases self.entries.len() - j,
            {
                kept.push(self.entries[j].clone());
                j = j + 1;
            }
            assert(kept.deep_view() =~= old(self)@.push(line@).skip(LOG_EVICT as int)) by {
                assert(forall|k: int| 0 <= k < kept@.len()
                    ==> kept.deep_view()[k] == #[trigger] kept@[k]@);
                assert(forall|k: int| 0 <= k < kept@.len()
                    ==> self.entries.deep_view()[k + LOG_EVICT] == #[trigger] self.entries@[
                    k + LOG_EVICT]@);
            }
            self.entries = kept;
        }
    }

    /// A snapshot copy of the buffered lines, oldest first.
    pub fn snapshot(&self) -> (r: Vec<String>)
        ensures
            r.deep_view() == self@,
    {
        let mut r: Vec<String> = Vec::new();
        let mut i: usize = 0;
        while i < self.entries.len()
            invariant
                i <= self.entries.len(),
                r@.len() == i,
                forall|k: int| 0 <= k < i ==> r@[k]@ == self.entries@[k]@,
            decreases self.entries.len() - i,
        {
            r.push(self.entries[i].clone());
            i = i + 1;
        }
        assert(r.deep_view() =~= self.entries.deep_view()) by {
            assert(forall|k: int| 0 <= k < r@.len() ==> r.deep_view()[k] == #[trigger] r@[k]@);
            assert(forall|k: int| 0 <= k < r@.len()
                ==> self.entries.deep_view()[k] == #[trigger] self.entries@[k]@);
        }
        r
    }
}

/// However many lines are appended, the buffer never grows past its
/// capacity, and the line appended last is always the last element.
pub proof fn lemma_log_buffer_bounded(s: Seq<Seq<char>>, lines: Seq<Seq<char>>)
    requires
        s.len() <= LOG_CAPACITY,
    ensures
        append_all(s, lines).len() <= LOG_CAPACITY,
        lines.len() > 0 ==> append_all(s, lines).len() > 0
            && append_all(s, lines).last() == lines.last(),
    decreases lines.len(),
{
    if lines.len() > 0 {
        let s1 = append_model(s, lines[0]);
        assert(s1.len() <= LOG_CAPACITY);
        assert(s1.len() > 0 && s1.last() == lines[0]);
        lemma_log_buffer_bounded(s1, lines.skip(1));
        if lines.len() == 1 {
            assert(append_all(s, lines) == s1);
        } else {
            assert(lines.skip(1).last() == lines.last());
        }
    }
}

} // verus!

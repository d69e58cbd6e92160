//! The high-score table: a set of entries kept in descending score order
//! and truncated to a fixed maximum count.  Reading and writing the table
//! to disk is the caller's business; the ordering and truncation rules
//! live here.

use vstd::prelude::*;

verus! {

use crate::clock::now_stamp;

/// How many entries the table keeps.
pub const MAX_HIGH_SCORE_ENTRIES: usize = 10;

/// One record: the score, a human-readable timestamp, and the difficulty
/// label the round was played under.
#[derive(Debug, Clone)]
pub struct HighScoreEntry {
    pub score: u32,
    pub date: String,
    pub difficulty: String,
}

impl HighScoreEntry {
    /// A fresh entry for a round that just ended, stamped with the
    /// current UTC time.
    pub fn new(score: u32, difficulty: String) -> (r: HighScoreEntry)
        ensures
            r.score == score,
            r.difficulty == difficulty,
            r.date@.len() >= 16,
    {
        HighScoreEntry { score, date: now_stamp(), difficulty }
    }
}

/// Scores never increase along the sequence.
pub open spec fn spec_sorted_desc(s: Seq<HighScoreEntry>) -> bool {
    forall|i: int, j: int| 0 <= i < j < s.len() ==> (#[trigger] s[i]).score >= (#[trigger] s[j]).score
}

/// `s` cut down to at most `max` entries.
pub open spec fn spec_truncated(s: Seq<HighScoreEntry>, max: int) -> Seq<HighScoreEntry> {
    if s.len() <= max {
        s
    } else {
        s.subrange(0, max)
    }
}

/// The persisted table: entries in descending score order, at most
/// `max_entries` of them.
#[derive(Debug, Clone)]
pub struct HighScores {
    pub scores: Vec<HighScoreEntry>,
    pub max_entries: usize,
}

impl HighScores {
    /// Ordered descending and within the size cap.
    pub open spec fn wf(self) -> bool {
        &&& spec_sorted_desc(self.scores@)
        &&& self.scores@.len() <= self.max_entries
        &&& self.max_entries >= 1
    }

    /// The best score on record, if any.  Under the table's ordering it
    /// bounds every entry.
    pub fn best(&self) -> (r: Option<u32>)
        requires
            self.wf(),
        ensures
            r == (if self.scores@.len() == 0 {
                Option::<u32>::None
            } else {
                Some(self.scores@[0].score)
            }),
            r matches Some(b) ==> forall|i: int|
                0 <= i < self.scores@.len() ==> (#[trigger] self.scores@[i]).score <= b,
    {
        if self.scores.len() == 0 {
            None
        } else {
            Some(self.scores[0].score)
        }
    }

    /// Whether a round's score ties or beats everything on record — what
    /// the game-over screen celebrates.  An empty table makes any score a
    /// record.
    pub fn is_new_record(&self, score: u32) -> (r: bool)
        requires
            self.wf(),
        ensures
            r == (self.scores@.len() == 0 || score >= self.scores@[0].score),
    {
        if self.scores.len() == 0 {
            true
        } else {
            score >= self.scores[0].score
        }
    }

    /// Files a new entry: it is inserted at its rank — after any entry
    /// with the same score — and the table is cut back to the maximum
    /// count, dropping the lowest scores.
    pub fn record(&mut self, entry: HighScoreEntry)
        requires
            old(self).wf(),
        ensures
            final(self).max_entries == old(self).max_entries,
            exists|i: int|
                {
                    &&& 0 <= i <= old(self).scores@.len()
                    &&& (forall|j: int|
                        0 <= j < i ==> (#[trigger] old(self).scores@[j]).score >= entry.score)
                    &&& (i < old(self).scores@.len() ==> old(self).scores@[i].score < entry.score)
                    &&& final(self).scores@ == spec_truncated(
                        old(self).scores@.insert(i, entry),
                        old(self).max_entries as int,
                    )
                },
            final(self).wf(),
    {
        let ghost s0 = self.scores@;
        let mut idx: usize = 0;
        while idx < self.scores.len() && self.scores[idx].score >= entry.score
            invariant
                0 <= idx <= self.scores@.len(),
                *self == *old(self),
                forall|j: int| 0 <= j < idx ==> (#[trigger] self.scores@[j]).score >= entry.score,
            decreases self.scores@.len() - idx,
        {
            idx = idx + 1;
        }
        let ghost pos = idx as int;
        self.scores.insert(idx, entry);
        proof {
            s0.insert_ensures(pos, entry);
            assert forall|a: int, b: int|
                0 <= a < b < self.scores@.len() implies (#[trigger] self.scores@[a]).score >= (
            #[trigger] self.scores@[b]).score by {
                if a < pos {
                    assert(self.scores@[a] == s0[a]);
                } else if a > pos {
                    assert(self.scores@[a] == s0[a - 1]);
                }
                if b < pos {
                    assert(self.scores@[b] == s0[b]);
                } else if b > pos {
                    assert(self.scores@[b] == s0[b - 1]);
                }
            }
        }
        if self.scores.len() > self.max_entries {
            let ghost s1 = self.scores@;
            let max = self.max_entries;
            self.scores.truncate(max);
            proof {
                assert forall|a: int, b: int|
                    0 <= a < b < self.scores@.len() implies (#[trigger] self.scores@[a]).score
                    >= (#[trigger] self.scores@[b]).score by {
                    assert(self.scores@[a] == s1[a]);
                    assert(self.scores@[b] == s1[b]);
                }
            }
        }
    }
}

impl Default for HighScores {
    /// An empty table capped at the fixed maximum.
    fn default() -> (r: Self)
        ensures
            r.scores@.len() == 0,
            r.max_entries == MAX_HIGH_SCORE_ENTRIES,
            r.wf(),
    {
        HighScores { scores: Vec::new(), max_entries: MAX_HIGH_SCORE_ENTRIES }
    }
}

} // verus!

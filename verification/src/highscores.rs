//! High score leaderboard: the top entries of a run history, kept sorted by
//! score in non-increasing order. Storage of the leaderboard is the host's
//! business; the ranking rules live here.

use vstd::prelude::*;

verus! {

/// Maximum number of high scores to keep.
pub const MAX_HIGH_SCORES: usize = 10;

/// A single high score entry.
#[derive(Debug, Clone, Copy, PartialEq, Eq, Structural)]
pub struct HighScoreEntry {
    /// Player's score.
    pub score: u64,
    /// Wave reached.
    pub wave: u32,
    /// Unix timestamp in milliseconds when achieved.
    pub timestamp: u64,
}

/// High score leaderboard.
#[derive(Debug, Clone)]
pub struct HighScores {
    pub entries: Vec<HighScoreEntry>,
}

/// Scores never increase along the list.
pub open spec fn sorted_by_score_desc(s: Seq<HighScoreEntry>) -> bool {
    forall|i: int, j: int| 0 <= i <= j < s.len() ==> s[i].score >= s[j].score
}

/// The position a new score is inserted at: before the first entry it
/// strictly beats, or at the end if it beats none.
pub open spec fn insert_position(s: Seq<HighScoreEntry>, score: u64) -> nat
    decreases s.len(),
{
    if s.len() == 0 {
        0nat
    } else if score > s[0].score {
        0nat
    } else {
        1 + insert_position(s.drop_first(), score)
    }
}

pub proof fn lemma_insert_position_le_len(s: Seq<HighScoreEntry>, score: u64)
    ensures
        insert_position(s, score) <= s.len(),
    decreases s.len(),
{
    if s.len() > 0 && !(score > s[0].score) {
        lemma_insert_position_le_len(s.drop_first(), score);
    }
}

/// Entries before the insert position are not beaten by the new score;
/// entries from it on are strictly beaten, provided the list is sorted.
pub proof fn lemma_insert_position_splits(s: Seq<HighScoreEntry>, score: u64)
    requires
        sorted_by_score_desc(s),
    ensures
        forall|i: int| 0 <= i < insert_position(s, score) ==> s[i].score >= score,
        forall|i: int| insert_position(s, score) <= i < s.len() ==> score > s[i].score,
    decreases s.len(),
{
    lemma_insert_position_le_len(s, score);
    if s.len() > 0 && !(score > s[0].score) {
        let rest = s.drop_first();
        assert(sorted_by_score_desc(rest)) by {
            assert(forall|i: int, j: int|
                0 <= i <= j < rest.len() ==> rest[i] == s[i + 1] && rest[j] == s[j + 1]);
        }
        lemma_insert_position_splits(rest, score);
        assert forall|i: int| 0 <= i < insert_position(s, score) implies s[i].score >= score by {
            if i > 0 {
                assert(rest[i - 1] == s[i]);
            }
        }
        assert forall|i: int|
            insert_position(s, score) <= i < s.len() implies score > s[i].score by {
            assert(rest[i - 1] == s[i]);
        }
    }
}

impl HighScores {
    /// A leaderboard is well formed when it holds at most the maximum
    /// number of entries, sorted by score in non-increasing order.
    pub open spec fn well_formed(self) -> bool {
        &&& sorted_by_score_desc(self.entries@)
        &&& self.entries@.len() <= MAX_HIGH_SCORES
    }

    /// Create an empty leaderboard.
    pub fn new() -> (r: Self)
        ensures
            r.entries@ == Seq::<HighScoreEntry>::empty(),
            r.well_formed(),
    {
        let r = HighScores { entries: Vec::new() };
        proof {
            assert(r.entries@ =~= Seq::<HighScoreEntry>::empty());
        }
        r
    }

    /// A score makes the board when it is positive and either the board has
    /// room or it strictly beats the last (lowest) entry.
    pub open spec fn spec_qualifies(self, score: u64) -> bool {
        &&& score > 0
        &&& {
            ||| self.entries@.len() < MAX_HIGH_SCORES
            ||| score > self.entries@.last().score
        }
    }

    /// Check if a score qualifies for the leaderboard.
    pub fn qualifies(&self, score: u64) -> (r: bool)
        ensures
            r == self.spec_qualifies(score),
    {
        if score == 0 {
            return false;
        }
        if self.entries.len() < MAX_HIGH_SCORES {
            return true;
        }
        let last = self.entries[self.entries.len() - 1];
        score > last.score
    }

    /// The rank a qualifying score would achieve (1-indexed), or `None` if
    /// it does not qualify.
    pub fn potential_rank(&self, score: u64) -> (r: Option<usize>)
        requires
            self.well_formed(),
        ensures
            r == if self.spec_qualifies(score) {
                Some((insert_position(self.entries@, score) + 1) as usize)
            } else {
                None::<usize>
            },
    {
        if !self.qualifies(score) {
            return None;
        }
        proof {
            lemma_insert_position_le_len(self.entries@, score);
        }
        let pos = self.find_insert_position(score);
        Some(pos + 1)
    }

    /// Add a new score to the leaderboard if it qualifies: the entry is
    /// inserted at its rank, and the board is trimmed back to the maximum
    /// length. Returns the rank achieved (1-indexed) or `None` if the score
    /// did not qualify, in which case the board is unchanged.
    pub fn add_score(&mut self, score: u64, wave: u32, timestamp: u64) -> (r: Option<usize>)
        requires
            old(self).well_formed(),
        ensures
            !old(self).spec_qualifies(score) ==> r == None::<usize> && *final(self) == *old(self),
            old(self).spec_qualifies(score) ==> {
                let pos = insert_position(old(self).entries@, score);
                let grown = old(self).entries@.insert(
                    pos as int,
                    HighScoreEntry { score, wave, timestamp },
                );
                &&& r == Some((pos + 1) as usize)
                &&& final(self).entries@ == grown.take(
                    if grown.len() <= MAX_HIGH_SCORES { grown.len() as int } else { MAX_HIGH_SCORES as int },
                )
            },
            final(self).well_formed(),
    {
        if !self.qualifies(score) {
            return None;
        }
        proof {
            lemma_insert_position_le_len(self.entries@, score);
        }
        let entry = HighScoreEntry { score, wave, timestamp };
        let pos = self.find_insert_position(score);
        let ghost grown = old(self).entries@.insert(pos as int, entry);
        self.entries.insert(pos, entry);
        if self.entries.len() > MAX_HIGH_SCORES {
            self.entries.truncate(MAX_HIGH_SCORES);
        }
        proof {
            if grown.len() <= MAX_HIGH_SCORES {
                assert(self.entries@ =~= grown.take(grown.len() as int));
            }
            lemma_insert_position_splits(old(self).entries@, score);
            assert forall|i: int, j: int|
                0 <= i <= j < self.entries@.len() implies self.entries@[i].score
                >= self.entries@[j].score by {
                assert(self.entries@[i] == grown[i]);
                assert(self.entries@[j] == grown[j]);
            }
        }
        Some(pos + 1)
    }

    /// Check if the leaderboard is empty.
    pub fn is_empty(&self) -> (r: bool)
        ensures
            r == (self.entries@.len() == 0),
    {
        self.entries.len() == 0
    }

    /// Get the top score, if any.
    pub fn top_score(&self) -> (r: Option<u64>)
        ensures
            r == if self.entries@.len() > 0 {
                Some(self.entries@[0].score)
            } else {
                None::<u64>
            },
    {
        if self.entries.len() > 0 {
            Some(self.entries[0].score)
        } else {
            None
        }
    }

    /// First index whose entry the new score strictly beats, or the length
    /// if it beats none.
    fn find_insert_position(&self, score: u64) -> (pos: usize)
        ensures
            pos == insert_position(self.entries@, score),
    {
        let n = self.entries.len();
        proof {
            assert(self.entries@.skip(0) =~= self.entries@);
        }
        let mut i: usize = 0;
        while i < n
            invariant
                i <= n,
                n == self.entries@.len(),
                insert_position(self.entries@, score) == insert_position(
                    self.entries@.skip(i as int),
                    score,
                ) + i,
            decreases n - i,
        {
            let ghost tail = self.entries@.skip(i as int);
            assert(tail[0] == self.entries@[i as int]);
            if score > self.entries[i].score {
                return i;
            }
            proof {
                assert(tail.drop_first() =~= self.entries@.skip(i + 1));
            }
            i += 1;
        }
        proof {
            assert(self.entries@.skip(n as int) =~= Seq::<HighScoreEntry>::empty());
        }
        n
    }
}

} // verus!

//! The pure part of leaderboard maintenance.
//!
//! The score list is kept sorted by score, highest first, and capped at a
//! fixed number of entries. Adding a score inserts the new entry after
//! every entry that scores at least as much (so earlier entries win ties)
//! and then drops whatever falls past the cap. Reading and writing the
//! stored list, and showing it, belong to the caller.

use vstd::prelude::*;

verus! {

/// One row of the leaderboard: a player name and a final score.
#[derive(Debug, Clone)]
pub struct LeaderboardEntry {
    pub name: String,
    pub score: u32,
}

/// How many entries the leaderboard keeps.
pub const LEADERBOARD_CAP: usize = 10;

/// The scores run highest first.
pub open spec fn sorted_desc(s: Seq<LeaderboardEntry>) -> bool {
    forall|i: int, j: int| 0 <= i <= j < s.len() ==> #[trigger] s[i].score >= #[trigger] s[j].score
}

/// Where an entry scoring `x` is inserted: right after the longest prefix
/// of entries scoring at least `x`.
pub open spec fn insert_index(s: Seq<LeaderboardEntry>, x: u32) -> int
    decreases s.len(),
{
    if s.len() == 0 {
        0
    } else if s[0].score >= x {
        1 + insert_index(s.drop_first(), x)
    } else {
        0
    }
}

/// `insert_index` is the first position whose entry scores below `x`, or
/// the length when no entry does.
pub proof fn lemma_insert_index(s: Seq<LeaderboardEntry>, x: u32)
    ensures
        0 <= insert_index(s, x) <= s.len(),
        forall|j: int| 0 <= j < insert_index(s, x) ==> #[trigger] s[j].score >= x,
        insert_index(s, x) < s.len() ==> s[insert_index(s, x)].score < x,
    decreases s.len(),
{
    if s.len() > 0 && s[0].score >= x {
        lemma_insert_index(s.drop_first(), x);
        assert forall|j: int| 0 <= j < insert_index(s, x) implies #[trigger] s[j].score >= x by {
            if j > 0 {
                assert(s.drop_first()[j - 1].score >= x);
            }
        }
    }
}

/// What the list looks like after a score is added: the new entry at its
/// insertion point, then everything past the cap dropped.
pub open spec fn with_score(s: Seq<LeaderboardEntry>, e: LeaderboardEntry) -> Seq<LeaderboardEntry> {
    let grown = s.insert(insert_index(s, e.score), e);
    if grown.len() <= LEADERBOARD_CAP {
        grown
    } else {
        grown.take(LEADERBOARD_CAP as int)
    }
}

/// Add one score to a sorted leaderboard, keeping it sorted and capped.
pub fn insert_score(entries: &mut Vec<LeaderboardEntry>, name: String, score: u32)
    requires
        sorted_desc(old(entries)@),
    ensures
        final(entries)@ == with_score(old(entries)@, (LeaderboardEntry { name, score })),
        sorted_desc(final(entries)@),
        final(entries)@.len() == (if old(entries)@.len() < LEADERBOARD_CAP {
            old(entries)@.len() as int + 1
        } else {
            LEADERBOARD_CAP as int
        }),
{
    proof {
        lemma_insert_index(entries@, score);
    }
    let mut i: usize = 0;
    while i < entries.len() && entries[i].score >= score
        invariant
            0 <= i <= entries@.len(),
            forall|j: int| 0 <= j < i ==> #[trigger] entries@[j].score >= score,
        decreases entries@.len() - i,
    {
        i += 1;
    }
    proof {
        lemma_insert_index(entries@, score);
        let k = insert_index(entries@, score);
        if i < k {
            assert(entries@[i as int].score >= score);
        }
        if k < i {
            assert(entries@[k].score < score);
            assert(entries@[k].score >= score);
        }
        assert(i as int == k);
    }
    entries.insert(i, LeaderboardEntry { name, score });
    proof {
        assert(sorted_desc(entries@)) by {
            let s = old(entries)@;
            let k = insert_index(s, score);
            lemma_insert_index(s, score);
            assert forall|a: int, b: int| 0 <= a <= b < entries@.len() implies #[trigger] entries@[a].score
                >= #[trigger] entries@[b].score by {
                if a < k && b > k {
                    assert(entries@[a] == s[a] && entries@[b] == s[b - 1]);
                }
            }
        }
    }
    if entries.len() > LEADERBOARD_CAP {
        entries.truncate(LEADERBOARD_CAP);
    }
}

} // verus!

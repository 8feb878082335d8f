//! Leaderboard system for tracking high scores
//!
//! Game times are counted in microseconds and timestamps in milliseconds
//! since the Unix epoch.

use vstd::prelude::*;
use vstd::string::StringExecFns;

use crate::text::{decimal, push_decimal, push_two_digits, two_digits};

verus! {

/// Maximum number of high score entries to keep
pub const MAX_LEADERBOARD_ENTRIES: usize = 10;

/// A single high score entry
#[derive(Debug, Clone)]
pub struct LeaderboardEntry {
    /// Player name
    pub name: String,
    /// Final score
    pub score: u32,
    /// Level reached
    pub level: u32,
    /// Total lines cleared
    pub lines_cleared: u32,
    /// Game duration
    pub game_time: u64,
    /// When this score was achieved
    pub timestamp: i64,
}

/// The local clock's current reading, in milliseconds since the Unix epoch.
///
/// Calls `chrono::Local::now()` and reads it with `timestamp_millis()`.
/// `Local::now` is `Utc::now` moved to the local offset, and `Utc::now`
/// panics on a system clock set before the Unix epoch, so a reading that
/// comes back is never negative. Which reading it is, is whatever the clock
/// says.
#[verifier::external_body]
fn current_timestamp_millis() -> (millis: i64)
    ensures
        millis >= 0,
{
    chrono::Local::now().timestamp_millis()
}

/// Whole minutes and the seconds past them, "m:ss".
pub open spec fn minutes_seconds_text(game_time: u64) -> Seq<char> {
    decimal((game_time / 60_000_000) as nat) + seq![':'] + two_digits(
        ((game_time / 1_000_000) % 60) as nat,
    )
}

impl LeaderboardEntry {
    /// Create a new leaderboard entry, stamped with the current time
    pub fn new(name: String, score: u32, level: u32, lines_cleared: u32, game_time: u64) -> (entry:
        Self)
        ensures
            entry.name == name,
            entry.score == score,
            entry.level == level,
            entry.lines_cleared == lines_cleared,
            entry.game_time == game_time,
            entry.timestamp >= 0,
    {
        LeaderboardEntry {
            name,
            score,
            level,
            lines_cleared,
            game_time,
            timestamp: current_timestamp_millis(),
        }
    }

    /// Format the game time as minutes:seconds
    pub fn formatted_time(&self) -> (text: String)
        ensures
            text@ == minutes_seconds_text(self.game_time),
    {
        let minutes = self.game_time / 60_000_000;
        let seconds = (self.game_time / 1_000_000) % 60;
        let mut text = String::new();
        push_decimal(&mut text, minutes);
        proof {
            reveal_strlit(":");
        }
        text.append(":");
        push_two_digits(&mut text, seconds);
        text
    }
}

/// Scores never rise down the list.
pub open spec fn scores_descending(entries: Seq<LeaderboardEntry>) -> bool {
    forall|i: int, j: int| 0 <= i < j < entries.len() ==> entries[i].score >= entries[j].score
}

/// `p` is where a score goes in the list: before the first entry it beats,
/// or at the end when it beats none.
pub open spec fn is_insert_position(entries: Seq<LeaderboardEntry>, score: u32, p: int) -> bool {
    &&& 0 <= p <= entries.len()
    &&& p < entries.len() ==> score > entries[p].score
    &&& forall|j: int| 0 <= j < p ==> !(score > #[trigger] entries[j].score)
}

/// Where a score goes in the list.
pub open spec fn insert_position(entries: Seq<LeaderboardEntry>, score: u32) -> int {
    choose|p: int| is_insert_position(entries, score, p)
}

/// A score makes the board when there is room or it beats the last entry.
pub open spec fn score_qualifies(entries: Seq<LeaderboardEntry>, score: u32) -> bool {
    entries.len() < MAX_LEADERBOARD_ENTRIES || score > entries.last().score
}

/// The list after an entry is put in its place and the list is cut back to
/// the maximum length.
pub open spec fn with_entry(entries: Seq<LeaderboardEntry>, entry: LeaderboardEntry) -> Seq<
    LeaderboardEntry,
> {
    let all = entries.insert(insert_position(entries, entry.score), entry);
    if all.len() > MAX_LEADERBOARD_ENTRIES {
        all.take(MAX_LEADERBOARD_ENTRIES as int)
    } else {
        all
    }
}

/// The insert position exists and is the only one.
pub proof fn lemma_insert_position(entries: Seq<LeaderboardEntry>, score: u32, p: int)
    requires
        is_insert_position(entries, score, p),
    ensures
        insert_position(entries, score) == p,
{
    let c = insert_position(entries, score);
    assert(is_insert_position(entries, score, c));
    if c < p {
        assert(!(score > entries[c].score));
    }
    if p < c {
        assert(!(score > entries[p].score));
    }
}

/// Where a score goes in the list.
fn find_insert_position(entries: &Vec<LeaderboardEntry>, score: u32) -> (p: usize)
    ensures
        p == insert_position(entries@, score),
        p <= entries@.len(),
{
    let mut i: usize = 0;
    while i < entries.len()
        invariant
            i <= entries@.len(),
            forall|j: int| 0 <= j < i ==> !(score > #[trigger] entries@[j].score),
        decreases entries@.len() - i,
    {
        if score > entries[i].score {
            proof {
                lemma_insert_position(entries@, score, i as int);
            }
            return i;
        }
        i = i + 1;
    }
    proof {
        lemma_insert_position(entries@, score, i as int);
    }
    i
}

/// The leaderboard containing all high score entries
#[derive(Debug, Clone)]
pub struct Leaderboard {
    /// List of high score entries, sorted by score (highest first)
    pub entries: Vec<LeaderboardEntry>,
}

impl Leaderboard {
    /// Create a new empty leaderboard
    pub fn new() -> (board: Self)
        ensures
            board.entries@ == Seq::<LeaderboardEntry>::empty(),
    {
        Leaderboard { entries: Vec::new() }
    }

    /// Check if a score qualifies for the leaderboard
    pub fn qualifies_for_leaderboard(&self, score: u32) -> (qualifies: bool)
        ensures
            qualifies == score_qualifies(self.entries@, score),
    {
        // Always qualifies if we have room
        if self.entries.len() < MAX_LEADERBOARD_ENTRIES {
            return true;
        }
        // Qualifies if score is higher than the lowest entry
        score > self.entries[self.entries.len() - 1].score
    }

    /// Add a new entry to the leaderboard
    /// Returns the position (1-based) of the new entry, or None if it didn't make the board
    pub fn add_entry(&mut self, entry: LeaderboardEntry) -> (place: Option<usize>)
        ensures
            final(self).entries@ == with_entry(old(self).entries@, entry),
            place == (if insert_position(old(self).entries@, entry.score)
                < MAX_LEADERBOARD_ENTRIES {
                Some((insert_position(old(self).entries@, entry.score) + 1) as usize)
            } else {
                None::<usize>
            }),
    {
        // Find the correct position to insert this entry
        let position = find_insert_position(&self.entries, entry.score);
        // Insert at the correct position
        self.entries.insert(position, entry);
        // Trim to maximum entries
        if self.entries.len() > MAX_LEADERBOARD_ENTRIES {
            self.entries.truncate(MAX_LEADERBOARD_ENTRIES);
        }
        // Return the position if it made it into the leaderboard
        if position < MAX_LEADERBOARD_ENTRIES {
            Some(position + 1)  // Convert to 1-based indexing
        } else {
            None
        }
    }

    /// Get the rank for a given score (what position it would be at)
    pub fn get_rank_for_score(&self, score: u32) -> (rank: Option<usize>)
        ensures
            rank == (if score_qualifies(self.entries@, score) {
                Some((insert_position(self.entries@, score) + 1) as usize)
            } else {
                None::<usize>
            }),
    {
        if !self.qualifies_for_leaderboard(score) {
            return None;
        }
        let position = find_insert_position(&self.entries, score);
        proof {
            assert(self.entries@.len() == self.entries.len());
            lemma_first_beaten(self.entries@, score);
            if self.entries@.len() >= MAX_LEADERBOARD_ENTRIES {
                assert(score > self.entries@[self.entries@.len() - 1].score);
                assert(position < self.entries@.len());
            }
        }
        Some(position + 1)  // Convert to 1-based indexing
    }
}

impl Default for Leaderboard {
    fn default() -> (board: Self)
        ensures
            board.entries@ == Seq::<LeaderboardEntry>::empty(),
    {
        Self::new()
    }
}

/// Adding an entry keeps the list ranked, best first, and never longer than
/// the maximum.
pub proof fn law_add_keeps_ranked(entries: Seq<LeaderboardEntry>, entry: LeaderboardEntry)
    requires
        scores_descending(entries),
    ensures
        scores_descending(with_entry(entries, entry)),
        with_entry(entries, entry).len() <= MAX_LEADERBOARD_ENTRIES,
{
    let p = insert_position(entries, entry.score);
    lemma_first_beaten(entries, entry.score);
    let all = entries.insert(p, entry);
    assert forall|i: int, j: int| 0 <= i < j < all.len() implies all[i].score >= all[j].score by {
        if j < p {
            assert(all[i] == entries[i] && all[j] == entries[j]);
        } else if j == p {
            assert(all[i] == entries[i]);
            assert(!(entry.score > entries[i].score));
        } else if i < p {
            assert(all[i] == entries[i] && all[j] == entries[j - 1]);
            assert(entries[p].score >= entries[j - 1].score);
        } else if i == p {
            assert(all[j] == entries[j - 1]);
            assert(entry.score > entries[p].score);
            assert(entries[p].score >= entries[j - 1].score);
        } else {
            assert(all[i] == entries[i - 1] && all[j] == entries[j - 1]);
        }
    }
}

/// Some place in the list is the insert position of a score.
pub proof fn lemma_first_beaten(entries: Seq<LeaderboardEntry>, score: u32)
    ensures
        is_insert_position(entries, score, insert_position(entries, score)),
    decreases entries.len(),
{
    if entries.len() == 0 {
        assert(is_insert_position(entries, score, 0));
    } else {
        let rest = entries.drop_last();
        lemma_first_beaten(rest, score);
        let p = insert_position(rest, score);
        if p < rest.len() {
            assert(rest[p] == entries[p]);
            assert forall|j: int| 0 <= j < p implies !(score > #[trigger] entries[j].score) by {
                assert(rest[j] == entries[j]);
            }
            assert(is_insert_position(entries, score, p));
        } else {
            assert forall|j: int| 0 <= j < p implies !(score > #[trigger] entries[j].score) by {
                assert(rest[j] == entries[j]);
            }
            if score > entries.last().score {
                assert(is_insert_position(entries, score, p));
            } else {
                assert(is_insert_position(entries, score, entries.len() as int));
            }
        }
    }
}

/// On a ranked board of at most the maximum length, the rank reported for a
/// score is exactly the place an entry with that score takes when added: a
/// qualifying entry is placed at that rank, and a score that does not qualify
/// would fall off the end.
pub proof fn law_rank_is_place_taken(entries: Seq<LeaderboardEntry>, entry: LeaderboardEntry)
    requires
        scores_descending(entries),
        entries.len() <= MAX_LEADERBOARD_ENTRIES,
    ensures
        score_qualifies(entries, entry.score) <==> insert_position(entries, entry.score)
            < MAX_LEADERBOARD_ENTRIES,
        score_qualifies(entries, entry.score) ==> with_entry(entries, entry)[insert_position(
            entries,
            entry.score,
        )] == entry,
{
    lemma_first_beaten(entries, entry.score);
    let p = insert_position(entries, entry.score);
    if entries.len() == MAX_LEADERBOARD_ENTRIES && !(entry.score > entries.last().score) {
        if p < entries.len() {
            assert(entries[p].score >= entries.last().score);
        }
    }
}

/// How many entries of the list score at least `score`.
pub open spec fn count_at_least(entries: Seq<LeaderboardEntry>, score: u32) -> int
    decreases entries.len(),
{
    if entries.len() == 0 {
        0
    } else {
        count_at_least(entries.drop_last(), score) + if entries.last().score >= score {
            1int
        } else {
            0int
        }
    }
}

/// On a ranked list, a score goes right after every entry that scores at
/// least as much.
pub proof fn lemma_insert_position_counts(entries: Seq<LeaderboardEntry>, score: u32)
    requires
        scores_descending(entries),
    ensures
        insert_position(entries, score) == count_at_least(entries, score),
    decreases entries.len(),
{
    if entries.len() == 0 {
        lemma_insert_position(entries, score, 0);
    } else {
        let rest = entries.drop_last();
        assert(scores_descending(rest)) by {
            assert forall|i: int, j: int| 0 <= i < j < rest.len() implies rest[i].score
                >= rest[j].score by {
                assert(rest[i] == entries[i] && rest[j] == entries[j]);
            }
        }
        lemma_insert_position_counts(rest, score);
        lemma_first_beaten(rest, score);
        let q = insert_position(rest, score);
        assert forall|j: int| 0 <= j < q implies !(score > #[trigger] entries[j].score) by {
            assert(rest[j] == entries[j]);
        }
        if q < rest.len() {
            assert(rest[q] == entries[q]);
            assert(entries[q].score >= entries.last().score);
            lemma_insert_position(entries, score, q);
        } else if entries.last().score >= score {
            lemma_insert_position(entries, score, entries.len() as int);
        } else {
            lemma_insert_position(entries, score, q);
        }
    }
}

/// Adding an entry to a ranked board of at most the maximum length puts it
/// right after the `p` entries that score at least as much, keeps the rest
/// after it, and cuts the list back to the maximum length; the place reported
/// is `p + 1` when `p` is within the maximum, and the entry then stands
/// there.
pub proof fn law_add_places_after_equal_or_better(
    entries: Seq<LeaderboardEntry>,
    entry: LeaderboardEntry,
)
    requires
        scores_descending(entries),
        entries.len() <= MAX_LEADERBOARD_ENTRIES,
    ensures
        ({
            let p = count_at_least(entries, entry.score);
            let all = entries.take(p) + seq![entry] + entries.skip(p);
            &&& insert_position(entries, entry.score) == p
            &&& with_entry(entries, entry) == (if all.len() > MAX_LEADERBOARD_ENTRIES {
                all.take(MAX_LEADERBOARD_ENTRIES as int)
            } else {
                all
            })
            &&& p < MAX_LEADERBOARD_ENTRIES ==> with_entry(entries, entry)[p] == entry
        }),
{
    lemma_insert_position_counts(entries, entry.score);
    lemma_first_beaten(entries, entry.score);
    let p = count_at_least(entries, entry.score);
    let all = entries.take(p) + seq![entry] + entries.skip(p);
    assert(entries.insert(p, entry) =~= all);
}

} // verus!

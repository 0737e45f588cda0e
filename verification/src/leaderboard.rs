//! The bounded, score-sorted leaderboard: at most `CAPACITY` entries, sorted
//! non-increasing by score, ties keeping their relative insertion order.

use vstd::prelude::*;

verus! {

/// Number of entries the leaderboard can hold.
pub const CAPACITY: usize = 10;

/// One leaderboard entry: a participant identity and the score it submitted.
/// Entries are immutable once created and are ordered only by score.
#[derive(Clone, Copy, Debug, PartialEq, Eq, Structural)]
pub struct ScoreEntry {
    pub user: u64,
    pub score: u32,
}

/// Name of the single persistent slot that holds the leaderboard snapshot.
/// The storage substrate itself is an external collaborator; this crate only
/// fixes the key under which the snapshot lives.
#[derive(Clone, Copy, Debug, PartialEq, Eq, Structural)]
pub enum DataKey {
    Leaderboard,
}

/// The sequence is sorted non-increasing by score.
pub open spec fn sorted_desc(s: Seq<ScoreEntry>) -> bool {
    forall|i: int, j: int| 0 <= i <= j < s.len() ==> s[i].score >= s[j].score
}

/// Index of the first entry whose score is strictly lower than `score`,
/// or the length of the sequence if there is none. A new entry goes right
/// there, after every equal-or-higher entry, which keeps ties stable.
pub open spec fn insert_pos(s: Seq<ScoreEntry>, score: u32) -> int
    decreases s.len(),
{
    if s.len() == 0 {
        0
    } else if s[0].score < score {
        0
    } else {
        1 + insert_pos(s.drop_first(), score)
    }
}

/// The sequence truncated to the leaderboard capacity.
pub open spec fn cap_board(s: Seq<ScoreEntry>) -> Seq<ScoreEntry> {
    if s.len() <= CAPACITY {
        s
    } else {
        s.take(CAPACITY as int)
    }
}

/// The board after inserting `e`: `e` goes before the first strictly lower
/// entry, and whatever then stands beyond the capacity is discarded.
pub open spec fn insert_spec(s: Seq<ScoreEntry>, e: ScoreEntry) -> Seq<ScoreEntry> {
    cap_board(s.take(insert_pos(s, e.score)) + seq![e] + s.skip(insert_pos(s, e.score)))
}

/// `insert_pos` is a position within the sequence, every entry before it
/// scores at least `score`, and the entry at it (if any) scores below.
pub proof fn lemma_insert_pos_props(s: Seq<ScoreEntry>, score: u32)
    ensures
        0 <= insert_pos(s, score) <= s.len(),
        forall|k: int| 0 <= k < insert_pos(s, score) ==> s[k].score >= score,
        insert_pos(s, score) < s.len() ==> s[insert_pos(s, score)].score < score,
    decreases s.len(),
{
    if s.len() == 0 {
    } else if s[0].score < score {
    } else {
        lemma_insert_pos_props(s.drop_first(), score);
        let p = insert_pos(s, score);
        assert forall|k: int| 0 <= k < p implies s[k].score >= score by {
            if k > 0 {
                assert(s.drop_first()[k - 1] == s[k]);
            }
        }
        if p < s.len() {
            assert(s.drop_first()[p - 1] == s[p]);
        }
    }
}

proof fn lemma_adjacent_sorted_step(s: Seq<ScoreEntry>, i: int, j: int)
    requires
        forall|k: int| 0 <= k < s.len() - 1 ==> #[trigger] s[k].score >= s[k + 1].score,
        0 <= i <= j < s.len(),
    ensures
        s[i].score >= s[j].score,
    decreases j - i,
{
    if i < j {
        lemma_adjacent_sorted_step(s, i, j - 1);
        assert(s[j - 1].score >= s[j].score);
    }
}

/// A sequence whose adjacent entries are in order is sorted.
pub proof fn lemma_adjacent_sorted(s: Seq<ScoreEntry>)
    requires
        forall|k: int| 0 <= k < s.len() - 1 ==> #[trigger] s[k].score >= s[k + 1].score,
    ensures
        sorted_desc(s),
{
    assert forall|i: int, j: int| 0 <= i <= j < s.len() implies s[i].score >= s[j].score by {
        lemma_adjacent_sorted_step(s, i, j);
    }
}

/// After an insertion the board is still sorted non-increasing and still
/// holds at most `CAPACITY` entries.
pub proof fn lemma_insert_preserves_wf(s: Seq<ScoreEntry>, e: ScoreEntry)
    requires
        sorted_desc(s),
        s.len() <= CAPACITY,
    ensures
        sorted_desc(insert_spec(s, e)),
        insert_spec(s, e).len() <= CAPACITY,
{
    lemma_insert_pos_props(s, e.score);
    let p = insert_pos(s, e.score);
    let t = s.take(p) + seq![e] + s.skip(p);
    assert forall|i: int, j: int| 0 <= i <= j < t.len() implies t[i].score >= t[j].score by {
        if i < p {
            assert(t[i] == s[i]);
        }
        if j < p {
            assert(t[j] == s[j]);
        }
        if i > p {
            assert(t[i] == s[i - 1]);
        }
        if j > p {
            assert(t[j] == s[j - 1]);
        }
    }
    assert(sorted_desc(t));
    let r = insert_spec(s, e);
    if t.len() <= CAPACITY {
        assert(r == t);
    } else {
        assert(r == t.take(CAPACITY as int));
        assert forall|i: int, j: int| 0 <= i <= j < r.len() implies r[i].score >= r[j].score by {
            assert(r[i] == t[i]);
            assert(r[j] == t[j]);
        }
    }
}

/// The board never shrinks: an insertion grows it by one entry until the
/// capacity is reached, and holds it there — an entry leaves only by
/// capacity eviction.
pub proof fn lemma_insert_length(s: Seq<ScoreEntry>, e: ScoreEntry)
    requires
        s.len() <= CAPACITY,
    ensures
        insert_spec(s, e).len() == if s.len() < CAPACITY {
            s.len() + 1
        } else {
            s.len()
        },
{
    lemma_insert_pos_props(s, e.score);
}

/// Build the board that `insert_spec` describes.
pub(crate) fn insert_sorted(board: &Vec<ScoreEntry>, entry: ScoreEntry) -> (r: Vec<ScoreEntry>)
    requires
        sorted_desc(board@),
        board@.len() <= CAPACITY,
    ensures
        r@ == insert_spec(board@, entry),
        sorted_desc(r@),
        r@.len() <= CAPACITY,
{
    let ghost s = board@;
    proof {
        lemma_insert_pos_props(s, entry.score);
        lemma_insert_preserves_wf(s, entry);
    }
    let ghost p = insert_pos(s, entry.score);

    let mut pos: usize = 0;
    while pos < board.len() && board[pos].score >= entry.score
        invariant
            board@ == s,
            pos <= s.len(),
            forall|k: int| 0 <= k < pos ==> s[k].score >= entry.score,
        decreases s.len() - pos,
    {
        pos += 1;
    }
    proof {
        if pos < p {
            assert(s[pos as int].score >= entry.score);
        }
        if pos > p {
            assert(s[p].score >= entry.score);
        }
        assert(pos == p);
    }

    if pos >= CAPACITY {
        // The board is full and every kept entry scores at least as much:
        // the new entry falls straight off the end.
        let mut r: Vec<ScoreEntry> = Vec::new();
        let mut i: usize = 0;
        while i < board.len()
            invariant
                board@ == s,
                i <= s.len(),
                r@ == s.take(i as int),
            decreases s.len() - i,
        {
            r.push(board[i]);
            i += 1;
        }
        proof {
            assert(r@ =~= s);
            let t = s.take(p) + seq![entry] + s.skip(p);
            assert(t.len() > CAPACITY);
            assert forall|k: int| 0 <= k < CAPACITY implies t.take(CAPACITY as int)[k] == s[k] by {
                assert(t[k] == s.take(p)[k]);
            }
            assert(s =~= t.take(CAPACITY as int));
        }
        return r;
    }

    let mut r: Vec<ScoreEntry> = Vec::new();
    let mut i: usize = 0;
    while i < pos
        invariant
            board@ == s,
            i <= pos,
            pos <= s.len(),
            r@ == s.take(i as int),
        decreases pos - i,
    {
        r.push(board[i]);
        i += 1;
    }
    r.push(entry);
    assert(r@ =~= s.take(p) + seq![entry]);

    let mut j: usize = pos;
    while j < board.len() && r.len() < CAPACITY
        invariant
            board@ == s,
            pos <= j <= s.len(),
            p == pos,
            r@ == s.take(p) + seq![entry] + s.subrange(p, j as int),
            r@.len() == j + 1,
            r@.len() <= CAPACITY,
        decreases s.len() - j,
    {
        proof {
            assert(s.subrange(p, j as int).push(s[j as int]) =~= s.subrange(p, j + 1));
        }
        r.push(board[j]);
        j += 1;
    }

    proof {
        let t = s.take(p) + seq![entry] + s.skip(p);
        if j == s.len() {
            assert(s.subrange(p, j as int) =~= s.skip(p));
            assert(r@ =~= t);
            assert(t.len() == s.len() + 1);
            assert(t.len() <= CAPACITY);
        } else {
            assert(r@.len() == CAPACITY);
            assert forall|k: int| 0 <= k < CAPACITY implies r@[k] == t.take(CAPACITY as int)[k] by {
                if k < p {
                    assert(r@[k] == s.take(p)[k]);
                    assert(t[k] == s.take(p)[k]);
                } else if k > p {
                    assert(r@[k] == s.subrange(p, j as int)[k - p - 1]);
                    assert(t[k] == s.skip(p)[k - p - 1]);
                }
            }
            assert(r@ =~= t.take(CAPACITY as int));
        }
    }
    r
}

/// The leaderboard itself: one process-wide snapshot of ranked entries.
/// Its view is the sequence of entries, best first.
pub struct ZKLeaderboard {
    pub(crate) board: Vec<ScoreEntry>,
}

impl View for ZKLeaderboard {
    type V = Seq<ScoreEntry>;

    closed spec fn view(&self) -> Seq<ScoreEntry> {
        self.board@
    }
}

impl ZKLeaderboard {
    /// The board invariant: never more than `CAPACITY` entries, always
    /// sorted non-increasing by score.
    pub open spec fn wf(&self) -> bool {
        self@.len() <= CAPACITY && sorted_desc(self@)
    }

    /// Within the crate, the view is the stored vector of entries.
    pub(crate) proof fn lemma_view(&self)
        ensures
            self@ == self.board@,
    {
    }

    /// An empty leaderboard: the state before the first submission.
    pub fn new() -> (r: ZKLeaderboard)
        ensures
            r.wf(),
            r@ == Seq::<ScoreEntry>::empty(),
    {
        ZKLeaderboard { board: Vec::new() }
    }

    /// Rebuild a leaderboard from a stored snapshot. Accepts the entries
    /// exactly when they already satisfy the board invariant — at most
    /// `CAPACITY` of them, sorted non-increasing — and refuses anything else.
    pub fn from_entries(entries: Vec<ScoreEntry>) -> (r: Option<ZKLeaderboard>)
        ensures
            match r {
                Some(b) => b.wf() && b@ == entries@
                    && entries@.len() <= CAPACITY && sorted_desc(entries@),
                None => !(entries@.len() <= CAPACITY && sorted_desc(entries@)),
            },
    {
        if entries.len() > CAPACITY {
            return None;
        }
        let mut i: usize = 0;
        while i + 1 < entries.len()
            invariant
                i <= entries@.len(),
                entries@.len() <= CAPACITY,
                forall|k: int| 0 <= k < i ==> #[trigger] entries@[k].score >= entries@[k + 1].score,
            decreases entries@.len() - i,
        {
            if entries[i].score < entries[i + 1].score {
                proof {
                    assert(!sorted_desc(entries@));
                }
                return None;
            }
            i += 1;
        }
        proof {
            lemma_adjacent_sorted(entries@);
        }
        Some(ZKLeaderboard { board: entries })
    }

    /// Read-only snapshot of the current entries, best first. The result is
    /// a function of the board alone, so repeated reads without an
    /// intervening insertion return identical sequences.
    pub fn get_scores(&self) -> (r: Vec<ScoreEntry>)
        ensures
            r@ == self@,
    {
        let mut r: Vec<ScoreEntry> = Vec::new();
        let mut i: usize = 0;
        while i < self.board.len()
            invariant
                i <= self.board@.len(),
                r@ == self.board@.take(i as int),
            decreases self.board@.len() - i,
        {
            r.push(self.board[i]);
            i += 1;
        }
        proof {
            assert(r@ =~= self.board@);
        }
        r
    }

    /// Insert an entry: it goes immediately before the first strictly lower
    /// entry, after every equal-or-higher one, and anything pushed beyond
    /// the capacity is discarded.
    pub fn insert(&mut self, entry: ScoreEntry)
        requires
            old(self).wf(),
        ensures
            final(self).wf(),
            final(self)@ == insert_spec(old(self)@, entry),
    {
        self.board = insert_sorted(&self.board, entry);
    }
}

/// Reads of an unchanged board agree: any two snapshots that `get_scores`
/// may return for the same board are the same sequence.
pub proof fn lemma_get_scores_idempotent(
    b: ZKLeaderboard,
    r1: Seq<ScoreEntry>,
    r2: Seq<ScoreEntry>,
)
    requires
        r1 == b@,
        r2 == b@,
    ensures
        r1 == r2,
{
}

} // verus!

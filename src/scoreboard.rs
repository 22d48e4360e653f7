use vstd::prelude::*;

use crate::text::{chars_of, decimal, find_char, lemma_find_char_at, lemma_parse_decimal, parse_u32, parse_u32_range, push_decimal};

verus! {

/// Most entries a leaderboard keeps.
pub const MAX_ENTRIES: usize = 10;

/// A leaderboard line as a mathematical value.
pub ghost struct ScoreRecord {
    pub name: Seq<char>,
    pub score: u32,
}

/// One finished run: who played and what it scored.
#[derive(Clone, Debug)]
pub struct ScoreEntry {
    pub name: String,
    pub score: u32,
}

impl View for ScoreEntry {
    type V = ScoreRecord;

    open spec fn view(&self) -> ScoreRecord {
        ScoreRecord { name: self.name@, score: self.score }
    }
}

/// The line an entry is stored as: the score in decimal, `|`, then the name.
pub open spec fn serialized(e: ScoreRecord) -> Seq<char> {
    decimal(e.score as nat) + seq!['|'] + e.name
}

/// The entry a stored line holds: the text before the first `|` is the score, as
/// `str::parse::<u32>` reads it, and everything after it is the name.
pub open spec fn parse_record(line: Seq<char>) -> Option<ScoreRecord> {
    let k = find_char(line, '|');
    if k >= line.len() {
        None
    } else {
        match parse_u32(line.take(k)) {
            Some(v) => Some(ScoreRecord { name: line.skip(k + 1), score: v }),
            None => None,
        }
    }
}

impl ScoreEntry {
    pub fn serialize(&self) -> (r: String)
        ensures
            r@ == serialized(self@),
    {
        let mut r = String::new();
        push_decimal(&mut r, self.score as u64);
        proof {
            reveal_strlit("|");
        }
        r.append("|");
        r.append(self.name.as_str());
        assert(r@ =~= serialized(self@));
        r
    }

    pub fn parse(line: &str) -> (r: Option<ScoreEntry>)
        ensures
            r is Some <==> parse_record(line@) is Some,
            r is Some ==> parse_record(line@) == Some(r->0@),
    {
        let chars = chars_of(line);
        let n = chars.len();
        let mut k: usize = 0;
        while k < n && chars[k] != '|'
            invariant
                chars@ == line@,
                n == chars@.len(),
                k <= n,
                forall|j: int| 0 <= j < k ==> chars@[j] != '|',
            decreases n - k,
        {
            k = k + 1;
        }
        proof {
            lemma_find_char_at(line@, '|', k as int);
        }
        if k == n {
            return None;
        }
        assert(chars@.subrange(0, k as int) =~= line@.take(k as int));
        match parse_u32_range(&chars, 0, k) {
            Some(score) => {
                let name = line.substring_char(k + 1, n).to_owned();
                assert(name@ =~= line@.skip(k + 1));
                Some(ScoreEntry { name, score })
            },
            None => None,
        }
    }
}

/// Parsing what `serialize` wrote gives the entry back.
pub proof fn score_entry_round_trip(e: ScoreRecord)
    ensures
        parse_record(serialized(e)) == Some(e),
{
    let d = decimal(e.score as nat);
    let line = serialized(e);
    lemma_parse_decimal(e.score as nat);
    assert forall|j: int| 0 <= j < d.len() implies line[j] != '|' by {
        assert(line[j] == d[j]);
        assert(crate::text::is_digit(d[j]));
    }
    lemma_find_char_at(line, '|', d.len() as int);
    assert(line.take(d.len() as int) =~= d);
    assert(line.skip(d.len() + 1 as int) =~= e.name);
}


/// Position at which an entry of `score` joins `s`: after every leading entry that
/// scores at least as much.
pub open spec fn rank(s: Seq<ScoreRecord>, score: u32) -> int
    decreases s.len(),
{
    if s.len() == 0 {
        0
    } else if s[0].score >= score {
        1 + rank(s.drop_first(), score)
    } else {
        0
    }
}

/// `s` with `e` inserted at its rank, cut back to `MAX_ENTRIES`.
pub open spec fn ranked_insert(s: Seq<ScoreRecord>, e: ScoreRecord) -> Seq<ScoreRecord> {
    let t = s.insert(rank(s, e.score), e);
    if t.len() > MAX_ENTRIES {
        t.take(MAX_ENTRIES as int)
    } else {
        t
    }
}

/// The board built by entering the records of `s` one after another.
pub open spec fn ranked(s: Seq<ScoreRecord>) -> Seq<ScoreRecord>
    decreases s.len(),
{
    if s.len() == 0 {
        s
    } else {
        ranked_insert(ranked(s.drop_last()), s.last())
    }
}

/// The records of the lines that parse, in order.
pub open spec fn parsed_records(lines: Seq<Seq<char>>) -> Seq<ScoreRecord>
    decreases lines.len(),
{
    if lines.len() == 0 {
        Seq::empty()
    } else {
        let rest = parsed_records(lines.drop_last());
        match parse_record(lines.last()) {
            Some(r) => rest.push(r),
            None => rest,
        }
    }
}

pub open spec fn sorted_desc(s: Seq<ScoreRecord>) -> bool {
    forall|i: int, j: int| 0 <= i < j < s.len() ==> s[i].score >= s[j].score
}

proof fn lemma_rank_at(s: Seq<ScoreRecord>, score: u32, k: int)
    requires
        0 <= k <= s.len(),
        forall|j: int| 0 <= j < k ==> s[j].score >= score,
        k < s.len() ==> s[k].score < score,
    ensures
        rank(s, score) == k,
    decreases s.len(),
{
    if s.len() > 0 && k > 0 {
        let t = s.drop_first();
        assert forall|j: int| 0 <= j < k - 1 implies t[j].score >= score by {
            assert(t[j] == s[j + 1]);
        }
        lemma_rank_at(t, score, k - 1);
    }
}

proof fn lemma_rank_bounds(s: Seq<ScoreRecord>, score: u32)
    ensures
        0 <= rank(s, score) <= s.len(),
        forall|j: int| 0 <= j < rank(s, score) ==> s[j].score >= score,
        sorted_desc(s) ==> forall|j: int| rank(s, score) <= j < s.len() ==> s[j].score < score,
    decreases s.len(),
{
    if s.len() > 0 && s[0].score >= score {
        let t = s.drop_first();
        lemma_rank_bounds(t, score);
        assert forall|j: int| 0 <= j < rank(s, score) implies s[j].score >= score by {
            if j > 0 {
                assert(s[j] == t[j - 1]);
            }
        }
        if sorted_desc(s) {
            assert(sorted_desc(t)) by {
                assert forall|i: int, j: int| 0 <= i < j < t.len() implies t[i].score >= t[j].score by {
                    assert(t[i] == s[i + 1] && t[j] == s[j + 1]);
                }
            }
            assert forall|j: int| rank(s, score) <= j < s.len() implies s[j].score < score by {
                assert(s[j] == t[j - 1]);
            }
        }
    }
}

/// Entering a record keeps a board sorted from best to worst and within `MAX_ENTRIES`.
pub proof fn ranked_insert_keeps_order(s: Seq<ScoreRecord>, e: ScoreRecord)
    requires
        sorted_desc(s),
    ensures
        sorted_desc(ranked_insert(s, e)),
        ranked_insert(s, e).len() <= MAX_ENTRIES,
        ranked_insert(s, e).len() == if s.len() < MAX_ENTRIES { s.len() + 1 } else { MAX_ENTRIES as nat },
{
    lemma_rank_bounds(s, e.score);
    let k = rank(s, e.score);
    let t = s.insert(k, e);
    assert forall|i: int, j: int| 0 <= i < j < t.len() implies t[i].score >= t[j].score by {
        if j < k {
        } else if j == k {
        } else if i < k {
            assert(t[j] == s[j - 1]);
        } else if i == k {
            assert(t[j] == s[j - 1]);
        } else {
            assert(t[i] == s[i - 1] && t[j] == s[j - 1]);
        }
    }
}

/// Building a board from any records gives one sorted from best to worst, within `MAX_ENTRIES`.
pub proof fn ranked_is_sorted(s: Seq<ScoreRecord>)
    ensures
        sorted_desc(ranked(s)),
        ranked(s).len() <= MAX_ENTRIES,
        ranked(s).len() == if s.len() < MAX_ENTRIES { s.len() } else { MAX_ENTRIES as nat },
    decreases s.len(),
{
    if s.len() > 0 {
        ranked_is_sorted(s.drop_last());
        ranked_insert_keeps_order(ranked(s.drop_last()), s.last());
    }
}

/// The best runs so far, best first, at most `MAX_ENTRIES` of them.
#[derive(Debug)]
pub struct Leaderboard {
    entries: Vec<ScoreEntry>,
}

impl View for Leaderboard {
    type V = Seq<ScoreRecord>;

    closed spec fn view(&self) -> Seq<ScoreRecord> {
        self.entries@.map_values(|e: ScoreEntry| e@)
    }
}

impl Default for Leaderboard {
    fn default() -> (r: Leaderboard)
        ensures
            r@ == Seq::<ScoreRecord>::empty(),
            r.wf(),
    {
        let r = Leaderboard { entries: Vec::new() };
        assert(r@ =~= Seq::<ScoreRecord>::empty());
        r
    }
}

impl Leaderboard {
    /// Sorted from best to worst, and no longer than `MAX_ENTRIES`.
    pub open spec fn wf(&self) -> bool {
        sorted_desc(self@) && self@.len() <= MAX_ENTRIES
    }

    fn insert_entry(&mut self, entry: ScoreEntry)
        ensures
            final(self)@ == ranked_insert(old(self)@, entry@),
    {
        let ghost s = self@;
        let n = self.entries.len();
        let mut k: usize = 0;
        while k < n && self.entries[k].score >= entry.score
            invariant
                s == self@,
                n == s.len(),
                k <= n,
                forall|j: int| 0 <= j < k ==> s[j].score >= entry.score,
            decreases n - k,
        {
            k = k + 1;
        }
        proof {
            lemma_rank_at(s, entry.score, k as int);
        }
        let ghost e = entry@;
        self.entries.insert(k, entry);
        assert(self@ =~= s.insert(k as int, e));
        if self.entries.len() > MAX_ENTRIES {
            self.entries.truncate(MAX_ENTRIES);
            assert(self@ =~= s.insert(k as int, e).take(MAX_ENTRIES as int));
        }
    }

    /// Records a run and keeps the best `MAX_ENTRIES`, best first.
    pub fn submit(&mut self, name: &str, score: u32)
        ensures
            final(self)@ == ranked_insert(old(self)@, ScoreRecord { name: name@, score }),
            old(self).wf() ==> final(self).wf(),
    {
        self.insert_entry(ScoreEntry { name: name.to_owned(), score });
        proof {
            if old(self).wf() {
                ranked_insert_keeps_order(old(self)@, ScoreRecord { name: name@, score });
            }
        }
    }

    pub fn entries(&self) -> (r: &[ScoreEntry])
        ensures
            r@.map_values(|e: ScoreEntry| e@) == self@,
    {
        self.entries.as_slice()
    }

    /// The board that a stored file holds: each line that parses is entered in turn.
    pub fn from_lines(lines: &Vec<String>) -> (r: Leaderboard)
        ensures
            r@ == ranked(parsed_records(lines@.map_values(|l: String| l@))),
            r.wf(),
    {
        let ghost ls = lines@.map_values(|l: String| l@);
        let mut board = Leaderboard::default();
        let mut i: usize = 0;
        while i < lines.len()
            invariant
                ls == lines@.map_values(|l: String| l@),
                i <= lines.len(),
                board@ == ranked(parsed_records(ls.take(i as int))),
            decreases lines.len() - i,
        {
            assert(ls.take(i + 1 as int).drop_last() =~= ls.take(i as int));
            assert(ls.take(i + 1 as int).last() == lines@[i as int]@);
            match ScoreEntry::parse(lines[i].as_str()) {
                Some(e) => {
                    let ghost before = parsed_records(ls.take(i as int));
                    assert(before.push(e@).drop_last() =~= before);
                    board.insert_entry(e);
                },
                None => {},
            }
            i = i + 1;
        }
        assert(ls.take(lines.len() as int) =~= ls);
        proof {
            ranked_is_sorted(parsed_records(ls));
        }
        board
    }

    /// The lines that store the board, best first.
    pub fn to_lines(&self) -> (r: Vec<String>)
        ensures
            r@.len() == self@.len(),
            forall|i: int| 0 <= i < r@.len() ==> r@[i]@ == serialized(#[trigger] self@[i]),
    {
        let mut r: Vec<String> = Vec::new();
        let mut i: usize = 0;
        while i < self.entries.len()
            invariant
                i <= self.entries.len(),
                r@.len() == i,
                forall|j: int| 0 <= j < i ==> r@[j]@ == serialized(#[trigger] self@[j]),
            decreases self.entries.len() - i,
        {
            r.push(self.entries[i].serialize());
            i = i + 1;
        }
        r
    }
}

} // verus!

use vstd::prelude::*;

use crate::text::{chars_of, decimal, find_char, is_digit, lemma_find_char_at, lemma_parse_decimal, parse_u32, parse_u32_range, push_decimal};

verus! {

/// Shot and hit counters of one run.
#[derive(Clone, Copy, Debug, PartialEq, Eq, Structural)]
pub struct RunStats {
    pub shots_fired: u32,
    pub shots_hit: u32,
    pub hits_large_asteroid: u32,
    pub hits_medium_asteroid: u32,
    pub hits_small_asteroid: u32,
    pub hits_large_alien: u32,
    pub hits_small_alien: u32,
}

/// The comma-separated fields of `s`, as `str::split(',')` hands them out.
pub open spec fn fields(s: Seq<char>) -> Seq<Seq<char>>
    decreases s.len(),
{
    let k = find_char(s, ',');
    if 0 <= k < s.len() {
        seq![s.take(k)] + fields(s.skip(k + 1))
    } else {
        seq![s]
    }
}

/// The stored form: the seven counters in decimal, in field order, separated by commas.
pub open spec fn serialized_stats(st: RunStats) -> Seq<char> {
    decimal(st.shots_fired as nat) + seq![','] + decimal(st.shots_hit as nat) + seq![','] + decimal(
        st.hits_large_asteroid as nat,
    ) + seq![','] + decimal(st.hits_medium_asteroid as nat) + seq![','] + decimal(
        st.hits_small_asteroid as nat,
    ) + seq![','] + decimal(st.hits_large_alien as nat) + seq![','] + decimal(st.hits_small_alien as nat)
}

/// The counters that a stored text holds: its first seven comma-separated fields, each
/// read as `str::parse::<u32>` does; fields after the seventh are ignored.
pub open spec fn parse_stats(s: Seq<char>) -> Option<RunStats> {
    let f = fields(s);
    if f.len() >= 7 && parse_u32(f[0]) is Some && parse_u32(f[1]) is Some && parse_u32(f[2]) is Some
        && parse_u32(f[3]) is Some && parse_u32(f[4]) is Some && parse_u32(f[5]) is Some && parse_u32(
        f[6],
    ) is Some {
        Some(
            RunStats {
                shots_fired: parse_u32(f[0])->0,
                shots_hit: parse_u32(f[1])->0,
                hits_large_asteroid: parse_u32(f[2])->0,
                hits_medium_asteroid: parse_u32(f[3])->0,
                hits_small_asteroid: parse_u32(f[4])->0,
                hits_large_alien: parse_u32(f[5])->0,
                hits_small_alien: parse_u32(f[6])->0,
            },
        )
    } else {
        None
    }
}

impl Default for RunStats {
    fn default() -> (r: RunStats)
        ensures
            r == (RunStats {
                shots_fired: 0,
                shots_hit: 0,
                hits_large_asteroid: 0,
                hits_medium_asteroid: 0,
                hits_small_asteroid: 0,
                hits_large_alien: 0,
                hits_small_alien: 0,
            }),
    {
        RunStats {
            shots_fired: 0,
            shots_hit: 0,
            hits_large_asteroid: 0,
            hits_medium_asteroid: 0,
            hits_small_asteroid: 0,
            hits_large_alien: 0,
            hits_small_alien: 0,
        }
    }
}

proof fn lemma_fields_step(s: Seq<char>, pos: int, end: int)
    requires
        0 <= pos <= end <= s.len(),
        forall|j: int| pos <= j < end ==> s[j] != ',',
        end < s.len() ==> s[end] == ',',
    ensures
        end < s.len() ==> fields(s.skip(pos)) == seq![s.subrange(pos, end)] + fields(s.skip(end + 1)),
        end == s.len() ==> fields(s.skip(pos)) == seq![s.subrange(pos, end)],
{
    let t = s.skip(pos);
    assert forall|j: int| 0 <= j < end - pos implies t[j] != ',' by {
        assert(t[j] == s[pos + j]);
    }
    if end < s.len() {
        assert(t[end - pos] == s[end]);
    }
    lemma_find_char_at(t, ',', end - pos);
    assert(t.take(end - pos) =~= s.subrange(pos, end));
    if end < s.len() {
        assert(t.skip(end - pos + 1) =~= s.skip(end + 1));
    }
    if end == s.len() {
        assert(t =~= s.subrange(pos, end));
    }
}

impl RunStats {
    pub fn serialize(&self) -> (r: String)
        ensures
            r@ == serialized_stats(*self),
    {
        proof {
            reveal_strlit(",");
        }
        let mut r = String::new();
        push_decimal(&mut r, self.shots_fired as u64);
        r.append(",");
        push_decimal(&mut r, self.shots_hit as u64);
        r.append(",");
        push_decimal(&mut r, self.hits_large_asteroid as u64);
        r.append(",");
        push_decimal(&mut r, self.hits_medium_asteroid as u64);
        r.append(",");
        push_decimal(&mut r, self.hits_small_asteroid as u64);
        r.append(",");
        push_decimal(&mut r, self.hits_large_alien as u64);
        r.append(",");
        push_decimal(&mut r, self.hits_small_alien as u64);
        assert(r@ =~= serialized_stats(*self));
        r
    }

    pub fn parse(text: &str) -> (r: Option<RunStats>)
        ensures
            r == parse_stats(text@),
    {
        let chars = chars_of(text);
        let n = chars.len();
        let ghost s = text@;
        let mut vals: Vec<u32> = Vec::new();
        let mut pos: usize = 0;
        let mut j: usize = 0;
        assert(s.skip(0) =~= s);
        while j < 7
            invariant
                s == text@,
                chars@ == s,
                n == s.len(),
                pos <= n,
                j <= 7,
                vals@.len() == j,
                j < 7 ==> fields(s).len() == j + fields(s.skip(pos as int)).len(),
                j < 7 ==> forall|i: int|
                    0 <= i < fields(s.skip(pos as int)).len() ==> fields(s)[j + i] == #[trigger] fields(
                        s.skip(pos as int),
                    )[i],
                j == 7 ==> fields(s).len() >= 7,
                forall|i: int| 0 <= i < j ==> parse_u32(fields(s)[i]) == Some(#[trigger] vals@[i]),
            decreases 7 - j,
        {
            let mut end = pos;
            while end < n && chars[end] != ','
                invariant
                    chars@ == s,
                    n == s.len(),
                    pos <= end <= n,
                    forall|i: int| pos <= i < end ==> s[i] != ',',
                decreases n - end,
            {
                end = end + 1;
            }
            proof {
                lemma_fields_step(s, pos as int, end as int);
            }
            let ghost f = fields(s);
            let ghost g = fields(s.skip(pos as int));
            assert(g[0] == s.subrange(pos as int, end as int));
            assert(f[j + 0] == g[0]);
            match parse_u32_range(&chars, pos, end) {
                Some(v) => {
                    vals.push(v);
                },
                None => {
                    proof {
                        if f.len() >= 7 {
                            assert(parse_u32(f[j as int]) is None);
                            if j == 0 {
                                assert(parse_u32(f[0]) is None);
                            } else if j == 1 {
                                assert(parse_u32(f[1]) is None);
                            } else if j == 2 {
                                assert(parse_u32(f[2]) is None);
                            } else if j == 3 {
                                assert(parse_u32(f[3]) is None);
                            } else if j == 4 {
                                assert(parse_u32(f[4]) is None);
                            } else if j == 5 {
                                assert(parse_u32(f[5]) is None);
                            } else {
                                assert(parse_u32(f[6]) is None);
                            }
                        }
                        assert(parse_stats(s) is None);
                    }
                    return None;
                },
            }
            if end == n {
                if j < 6 {
                    assert(f.len() == j + 1);
                    assert(parse_stats(s) is None);
                    return None;
                }
                j = j + 1;
            } else {
                let ghost h = fields(s.skip(end + 1 as int));
                assert forall|i: int| 0 <= i < h.len() implies f[j + 1 + i] == #[trigger] h[i] by {
                    assert(g[1 + i] == h[i]);
                    assert(f[j + (1 + i)] == g[1 + i]);
                }
                pos = end + 1;
                j = j + 1;
            }
        }
        Some(
            RunStats {
                shots_fired: vals[0],
                shots_hit: vals[1],
                hits_large_asteroid: vals[2],
                hits_medium_asteroid: vals[3],
                hits_small_asteroid: vals[4],
                hits_large_alien: vals[5],
                hits_small_alien: vals[6],
            },
        )
    }
}

pub open spec fn no_comma(d: Seq<char>) -> bool {
    forall|i: int| 0 <= i < d.len() ==> #[trigger] d[i] != ','
}

proof fn lemma_fields_cons(d: Seq<char>, rest: Seq<char>)
    requires
        no_comma(d),
    ensures
        fields(d + seq![','] + rest) == seq![d] + fields(rest),
        fields(d) == seq![d],
{
    let s = d + seq![','] + rest;
    assert forall|j: int| 0 <= j < d.len() implies s[j] != ',' by {
        assert(s[j] == d[j]);
    }
    lemma_fields_step(s, 0, d.len() as int);
    assert(s.skip(0) =~= s);
    assert(s.subrange(0, d.len() as int) =~= d);
    assert(s.skip(d.len() + 1 as int) =~= rest);
    lemma_fields_step(d, 0, d.len() as int);
    assert(d.skip(0) =~= d);
    assert(d.subrange(0, d.len() as int) =~= d);
}

proof fn lemma_fields_seven(
    d0: Seq<char>,
    d1: Seq<char>,
    d2: Seq<char>,
    d3: Seq<char>,
    d4: Seq<char>,
    d5: Seq<char>,
    d6: Seq<char>,
)
    requires
        no_comma(d0),
        no_comma(d1),
        no_comma(d2),
        no_comma(d3),
        no_comma(d4),
        no_comma(d5),
        no_comma(d6),
    ensures
        fields(d0 + seq![','] + d1 + seq![','] + d2 + seq![','] + d3 + seq![','] + d4 + seq![','] + d5 + seq![',']
            + d6) == seq![d0, d1, d2, d3, d4, d5, d6],
{
    let c = seq![','];
    let r6 = d6;
    let r5 = d5 + c + r6;
    let r4 = d4 + c + r5;
    let r3 = d3 + c + r4;
    let r2 = d2 + c + r3;
    let r1 = d1 + c + r2;
    let r0 = d0 + c + r1;
    assert(d0 + c + d1 + c + d2 + c + d3 + c + d4 + c + d5 + c + d6 =~= r0);
    lemma_fields_cons(d6, Seq::empty());
    lemma_fields_cons(d5, r6);
    lemma_fields_cons(d4, r5);
    lemma_fields_cons(d3, r4);
    lemma_fields_cons(d2, r3);
    lemma_fields_cons(d1, r2);
    lemma_fields_cons(d0, r1);
    assert(fields(r0) =~= seq![d0, d1, d2, d3, d4, d5, d6]);
}

proof fn lemma_decimal_no_comma(n: u32)
    ensures
        no_comma(decimal(n as nat)),
{
    lemma_parse_decimal(n as nat);
    let d = decimal(n as nat);
    assert forall|i: int| 0 <= i < d.len() implies #[trigger] d[i] != ',' by {
        assert(is_digit(d[i]));
    }
}

proof fn lemma_serialized_fields(st: RunStats)
    ensures
        fields(serialized_stats(st)) == seq![
            decimal(st.shots_fired as nat),
            decimal(st.shots_hit as nat),
            decimal(st.hits_large_asteroid as nat),
            decimal(st.hits_medium_asteroid as nat),
            decimal(st.hits_small_asteroid as nat),
            decimal(st.hits_large_alien as nat),
            decimal(st.hits_small_alien as nat),
        ],
{
    lemma_decimal_no_comma(st.shots_fired);
    lemma_decimal_no_comma(st.shots_hit);
    lemma_decimal_no_comma(st.hits_large_asteroid);
    lemma_decimal_no_comma(st.hits_medium_asteroid);
    lemma_decimal_no_comma(st.hits_small_asteroid);
    lemma_decimal_no_comma(st.hits_large_alien);
    lemma_decimal_no_comma(st.hits_small_alien);
    lemma_fields_seven(
        decimal(st.shots_fired as nat),
        decimal(st.shots_hit as nat),
        decimal(st.hits_large_asteroid as nat),
        decimal(st.hits_medium_asteroid as nat),
        decimal(st.hits_small_asteroid as nat),
        decimal(st.hits_large_alien as nat),
        decimal(st.hits_small_alien as nat),
    );
}

/// Parsing what `serialize` wrote gives the counters back.
pub proof fn run_stats_round_trip(st: RunStats)
    ensures
        parse_stats(serialized_stats(st)) == Some(st),
{
    lemma_serialized_fields(st);
    lemma_parse_decimal(st.shots_fired as nat);
    lemma_parse_decimal(st.shots_hit as nat);
    lemma_parse_decimal(st.hits_large_asteroid as nat);
    lemma_parse_decimal(st.hits_medium_asteroid as nat);
    lemma_parse_decimal(st.hits_small_asteroid as nat);
    lemma_parse_decimal(st.hits_large_alien as nat);
    lemma_parse_decimal(st.hits_small_alien as nat);
}

} // verus!

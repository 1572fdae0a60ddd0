//! A contract's trading sessions, read from the hours text IB sends:
//! ib_async's `ContractDetails.tradingSessions` and `liquidSessions`.
//!
//! The hours are `start-end` pairs split on `;`; empty entries and entries
//! naming CLOSED are skipped. Each stamp is read as Python's
//! `strptime(t, "%Y%m%d:%H%M")` reads it, then placed in the contract's
//! zone.

use vstd::prelude::*;
use crate::error::Error;
use crate::text::{chars_of, i64_text, int_text, nat_text, push_chars, string_of, u128_text};
use jiff::civil::DateTime;
use jiff::tz::TimeZone;
use jiff::Zoned;

verus! {

/// `s` split at each `c`, as `str::split` splits it: the pieces between the
/// separators, empty ones included; an empty text is one empty piece.
pub open spec fn split_on(s: Seq<char>, c: char) -> Seq<Seq<char>>
    decreases s.len(),
{
    if s.len() == 0 {
        seq![Seq::<char>::empty()]
    } else {
        let prev = split_on(s.drop_last(), c);
        if s.last() == c {
            prev.push(Seq::<char>::empty())
        } else {
            prev.update(prev.len() - 1, prev.last().push(s.last()))
        }
    }
}

/// A split has at least one piece.
pub proof fn lemma_split_has_a_piece(s: Seq<char>, c: char)
    ensures
        split_on(s, c).len() >= 1,
    decreases s.len(),
{
    if s.len() > 0 {
        lemma_split_has_a_piece(s.drop_last(), c);
    }
}

/// The pieces of `cs` split at each `c`.
fn split_chars(cs: &Vec<char>, c: char) -> (r: Vec<Vec<char>>)
    ensures
        r@.map_values(|v: Vec<char>| v@) == split_on(cs@, c),
{
    let mut done: Vec<Vec<char>> = Vec::new();
    let mut cur: Vec<char> = Vec::new();
    let mut i: usize = 0;
    assert(cs@.take(0) =~= Seq::<char>::empty());
    assert(done@.map_values(|v: Vec<char>| v@).push(cur@) =~= split_on(cs@.take(0), c));
    while i < cs.len()
        invariant
            i <= cs.len(),
            done@.map_values(|v: Vec<char>| v@).push(cur@) == split_on(cs@.take(i as int), c),
        decreases cs.len() - i,
    {
        let x = cs[i];
        proof {
            assert(cs@.take(i + 1).drop_last() =~= cs@.take(i as int));
            assert(cs@.take(i + 1).last() == x);
        }
        let ghost before = done@.map_values(|v: Vec<char>| v@).push(cur@);
        if x == c {
            let piece = cur;
            done.push(piece);
            cur = Vec::new();
            assert(done@.map_values(|v: Vec<char>| v@).push(cur@) =~= before.push(Seq::<char>::empty()));
        } else {
            cur.push(x);
            assert(done@.map_values(|v: Vec<char>| v@).push(cur@) =~= before.update(
                before.len() - 1,
                before.last().push(x),
            ));
        }
        i += 1;
    }
    assert(cs@.take(cs.len() as int) =~= cs@);
    done.push(cur);
    done
}

/// Whether `e` names CLOSED anywhere.
pub open spec fn names_closed(e: Seq<char>) -> bool {
    exists|i: int| 0 <= i && i + 6 <= e.len() && #[trigger] e.subrange(i, i + 6) == "CLOSED"@
}

/// Whether `cs` names CLOSED anywhere.
fn closed_in(cs: &Vec<char>) -> (r: bool)
    ensures
        r == names_closed(cs@),
{
    let w = chars_of("CLOSED");
    proof {
        reveal_strlit("CLOSED");
    }
    assert(w@.len() == 6);
    let mut i: usize = 0;
    while cs.len() >= 6 && i <= cs.len() - 6
        invariant
            i <= cs.len(),
            w@ == "CLOSED"@,
            w@.len() == 6,
            forall|j: int| 0 <= j < i ==> #[trigger] cs@.subrange(j, j + 6) != w@,
        decreases cs.len() - i,
    {
        let mut k: usize = 0;
        let mut same = true;
        while k < 6
            invariant
                k <= 6,
                i + 6 <= cs.len(),
                w@.len() == 6,
                same == (forall|q: int| 0 <= q < k ==> cs@[i + q] == w@[q]),
            decreases 6 - k,
        {
            if cs[i + k] != w[k] {
                same = false;
            }
            k += 1;
        }
        if same {
            assert(cs@.subrange(i as int, i + 6) =~= w@);
            return true;
        }
        assert(cs@.subrange(i as int, i + 6) != w@) by {
            let q = choose|q: int| 0 <= q < 6 && cs@[i + q] != w@[q];
            assert(cs@.subrange(i as int, i + 6)[q] == cs@[i + q]);
        }
        i += 1;
    }
    assert(!names_closed(cs@)) by {
        if exists|j: int| 0 <= j && j + 6 <= cs@.len() && #[trigger] cs@.subrange(j, j + 6) == "CLOSED"@ {
            let j = choose|j: int| 0 <= j && j + 6 <= cs@.len() && #[trigger] cs@.subrange(j, j + 6) == "CLOSED"@;
            assert(j < i || cs@.len() < 6);
        }
    }
    false
}

/// The entries of `es` that hold a session: not empty and not naming
/// CLOSED.
pub open spec fn kept(es: Seq<Seq<char>>) -> Seq<Seq<char>>
    decreases es.len(),
{
    if es.len() == 0 {
        es
    } else {
        let prev = kept(es.drop_last());
        if es.last().len() > 0 && !names_closed(es.last()) {
            prev.push(es.last())
        } else {
            prev
        }
    }
}

/// The stamps of each session in `hours`: the entries split on `;` that
/// hold a session, each split on `-`.
pub open spec fn session_texts(hours: Seq<char>) -> Seq<Seq<Seq<char>>> {
    kept(split_on(hours, ';')).map_values(|e: Seq<char>| split_on(e, '-'))
}

/// The texts of `pieces`, as strings.
fn strings_of(pieces: &Vec<Vec<char>>) -> (r: Vec<String>)
    ensures
        r@.map_values(|s: String| s@) == pieces@.map_values(|v: Vec<char>| v@),
{
    let mut out: Vec<String> = Vec::new();
    let mut i: usize = 0;
    while i < pieces.len()
        invariant
            i <= pieces.len(),
            out@.len() == i,
            forall|k: int| 0 <= k < i ==> (#[trigger] out@[k])@ == pieces@[k]@,
        decreases pieces.len() - i,
    {
        let s = string_of(&pieces[i]);
        out.push(s);
        i += 1;
    }
    assert(out@.map_values(|s: String| s@) =~= pieces@.map_values(|v: Vec<char>| v@));
    out
}

/// The stamps of each session in `hours`, as ib_async reads them before
/// placing them: entries split on `;`, empty ones and those naming CLOSED
/// skipped, each split on `-`.
pub fn session_stamps(hours: &str) -> (r: Vec<Vec<String>>)
    ensures
        r@.len() == session_texts(hours@).len(),
        forall|i: int| 0 <= i < r@.len() ==> (#[trigger] r@[i])@.map_values(|s: String| s@)
            == session_texts(hours@)[i],
{
    let entries = split_chars(&chars_of(hours), ';');
    let ghost es = entries@.map_values(|v: Vec<char>| v@);
    let mut out: Vec<Vec<String>> = Vec::new();
    let mut i: usize = 0;
    assert(es.take(0) =~= Seq::<Seq<char>>::empty());
    while i < entries.len()
        invariant
            i <= entries.len(),
            es == entries@.map_values(|v: Vec<char>| v@),
            es == split_on(hours@, ';'),
            out@.len() == kept(es.take(i as int)).len(),
            forall|k: int| 0 <= k < out@.len() ==> (#[trigger] out@[k])@.map_values(|s: String| s@)
                == split_on(kept(es.take(i as int))[k], '-'),
        decreases entries.len() - i,
    {
        let e = &entries[i];
        proof {
            assert(es.take(i + 1).drop_last() =~= es.take(i as int));
            assert(es.take(i + 1).last() == e@);
        }
        let closed = closed_in(e);
        if e.len() > 0 && !closed {
            let parts = split_chars(e, '-');
            let texts = strings_of(&parts);
            out.push(texts);
        }
        i += 1;
    }
    assert(es.take(entries.len() as int) =~= es);
    out
}

/// Whether `x` lies in the character class `k`: from `k.0` to `k.1`.
pub open spec fn in_class(k: (char, char), x: char) -> bool {
    k.0 <= x && x <= k.1
}

/// How many alternatives field `k` of `%Y%m%d:%H%M` has.
pub open spec fn alt_count(k: int) -> int {
    if k == 0 {
        1
    } else if k == 1 {
        3
    } else if k == 2 {
        5
    } else if k == 3 {
        1
    } else if k == 4 {
        4
    } else if k == 5 {
        2
    } else {
        0
    }
}

/// Alternative `i` of field `k` of `%Y%m%d:%H%M`, as Python's `strptime`
/// writes each directive as a pattern, tried in this order: `%Y` four
/// digits; `%m` `1[0-2]|0[1-9]|[1-9]`; `%d` `3[01]|[12]\d|0[1-9]|[1-9]| [1-9]`;
/// the colon; `%H` `2[0-3]|[01]\d|\d| \d`; `%M` `[0-5]\d|\d`.
pub open spec fn alt(k: int, i: int) -> Seq<(char, char)> {
    let d = ('0', '9');
    if k == 0 {
        seq![d, d, d, d]
    } else if k == 1 {
        if i == 0 {
            seq![('1', '1'), ('0', '2')]
        } else if i == 1 {
            seq![('0', '0'), ('1', '9')]
        } else {
            seq![('1', '9')]
        }
    } else if k == 2 {
        if i == 0 {
            seq![('3', '3'), ('0', '1')]
        } else if i == 1 {
            seq![('1', '2'), d]
        } else if i == 2 {
            seq![('0', '0'), ('1', '9')]
        } else if i == 3 {
            seq![('1', '9')]
        } else {
            seq![(' ', ' '), ('1', '9')]
        }
    } else if k == 3 {
        seq![(':', ':')]
    } else if k == 4 {
        if i == 0 {
            seq![('2', '2'), ('0', '3')]
        } else if i == 1 {
            seq![('0', '1'), d]
        } else if i == 2 {
            seq![d]
        } else {
            seq![(' ', ' '), d]
        }
    } else {
        if i == 0 {
            seq![('0', '5'), d]
        } else {
            seq![d]
        }
    }
}

/// Whether the pattern `a` matches `s` at `p`.
pub open spec fn alt_at(s: Seq<char>, p: int, a: Seq<(char, char)>) -> bool {
    &&& 0 <= p
    &&& p + a.len() <= s.len()
    &&& forall|q: int| 0 <= q < a.len() ==> in_class(#[trigger] a[q], s[p + q])
}

/// The first match of fields `k` on of `%Y%m%d:%H%M` at `p` in `s`, in the
/// order a backtracking regular expression tries them: where each field
/// ends, or `None`.
pub open spec fn match_from(s: Seq<char>, p: int, k: int) -> Option<Seq<int>>
    decreases 6 - k, 1int, 0int,
{
    if k < 0 || k >= 6 {
        Some(Seq::empty())
    } else {
        match_alt(s, p, k, 0)
    }
}

/// The first match of fields `k` on at `p` whose field `k` takes one of
/// its alternatives from `i` on.
pub open spec fn match_alt(s: Seq<char>, p: int, k: int, i: int) -> Option<Seq<int>>
    decreases 6 - k, 0int, alt_count(k) - i,
{
    if k < 0 || k >= 6 || i < 0 || i >= alt_count(k) {
        None
    } else {
        let a = alt(k, i);
        let rest = match_from(s, p + a.len(), k + 1);
        if alt_at(s, p, a) && rest is Some {
            Some(seq![p + a.len()] + rest->Some_0)
        } else {
            match_alt(s, p, k, i + 1)
        }
    }
}

/// Each alternative takes one to four characters; past the year, at most
/// two.
pub proof fn lemma_alt_len(k: int, i: int)
    requires
        0 <= k < 6,
        0 <= i < alt_count(k),
    ensures
        1 <= alt(k, i).len() <= (if k == 0 { 4int } else { 2int }),
{
}

/// Where the fields of a match end: each after the last, by at most four
/// characters for the year and two for the others, within `s`.
pub open spec fn match_shape(s: Seq<char>, p: int, k: int, es: Seq<int>) -> bool {
    &&& es.len() == 6 - k
    &&& forall|j: int|
        0 <= j < es.len() ==> {
            let prev = if j == 0 { p } else { es[j - 1] };
            &&& prev < #[trigger] es[j]
            &&& es[j] <= prev + (if k + j == 0 { 4int } else { 2int })
            &&& es[j] <= s.len()
        }
}

/// A match has the shape [`match_shape`] states.
pub proof fn lemma_match_shape(s: Seq<char>, p: int, k: int)
    requires
        0 <= p,
        0 <= k <= 6,
    ensures
        match_from(s, p, k) matches Some(es) ==> match_shape(s, p, k, es),
    decreases 6 - k, 1int, 0int,
{
    if k < 6 {
        lemma_alt_shape(s, p, k, 0);
    }
}

/// A match from alternative `i` on has the shape [`match_shape`] states.
pub proof fn lemma_alt_shape(s: Seq<char>, p: int, k: int, i: int)
    requires
        0 <= p,
        0 <= k < 6,
        0 <= i,
    ensures
        match_alt(s, p, k, i) matches Some(es) ==> match_shape(s, p, k, es),
    decreases 6 - k, 0int, alt_count(k) - i,
{
    if i < alt_count(k) {
        let a = alt(k, i);
        lemma_alt_len(k, i);
        lemma_match_shape(s, p + a.len(), k + 1);
        let rest = match_from(s, p + a.len(), k + 1);
        if alt_at(s, p, a) && rest is Some {
            let es = seq![p + a.len()] + rest->Some_0;
            assert forall|j: int| 0 <= j < es.len() implies {
                let prev = if j == 0 { p } else { es[j - 1] };
                &&& prev < #[trigger] es[j]
                &&& es[j] <= prev + (if k + j == 0 { 4int } else { 2int })
                &&& es[j] <= s.len()
            } by {
                if j > 0 {
                    assert(es[j] == rest->Some_0[j - 1]);
                    if j > 1 {
                        assert(es[j - 1] == rest->Some_0[j - 2]);
                    }
                }
            }
        } else {
            lemma_alt_shape(s, p, k, i + 1);
        }
    }
}

/// How many alternatives field `k` has.
fn alt_count_of(k: usize) -> (r: usize)
    requires
        k < 6,
    ensures
        r == alt_count(k as int),
{
    if k == 0 {
        1
    } else if k == 1 {
        3
    } else if k == 2 {
        5
    } else if k == 3 {
        1
    } else if k == 4 {
        4
    } else {
        2
    }
}

/// Alternative `i` of field `k`.
fn alt_of(k: usize, i: usize) -> (r: Vec<(char, char)>)
    requires
        k < 6,
        i < alt_count(k as int),
    ensures
        r@ == alt(k as int, i as int),
{
    let d = ('0', '9');
    let r = if k == 0 {
        vec![d, d, d, d]
    } else if k == 1 {
        if i == 0 {
            vec![('1', '1'), ('0', '2')]
        } else if i == 1 {
            vec![('0', '0'), ('1', '9')]
        } else {
            vec![('1', '9')]
        }
    } else if k == 2 {
        if i == 0 {
            vec![('3', '3'), ('0', '1')]
        } else if i == 1 {
            vec![('1', '2'), d]
        } else if i == 2 {
            vec![('0', '0'), ('1', '9')]
        } else if i == 3 {
            vec![('1', '9')]
        } else {
            vec![(' ', ' '), ('1', '9')]
        }
    } else if k == 3 {
        vec![(':', ':')]
    } else if k == 4 {
        if i == 0 {
            vec![('2', '2'), ('0', '3')]
        } else if i == 1 {
            vec![('0', '1'), d]
        } else if i == 2 {
            vec![d]
        } else {
            vec![(' ', ' '), d]
        }
    } else {
        if i == 0 {
            vec![('0', '5'), d]
        } else {
            vec![d]
        }
    };
    assert(r@ =~= alt(k as int, i as int));
    r
}

/// Whether the pattern `a` matches `s` at `p`.
fn alt_matches(s: &Vec<char>, p: usize, a: &Vec<(char, char)>) -> (r: bool)
    ensures
        r == alt_at(s@, p as int, a@),
{
    if a.len() > s.len() || p > s.len() - a.len() {
        return false;
    }
    let mut q: usize = 0;
    while q < a.len()
        invariant
            q <= a.len(),
            p + a.len() <= s.len(),
            forall|j: int| 0 <= j < q ==> in_class(#[trigger] a@[j], s@[p + j]),
        decreases a.len() - q,
    {
        let k = a[q];
        let x = s[p + q];
        if !(k.0 <= x && x <= k.1) {
            return false;
        }
        q += 1;
    }
    true
}

/// The first match of fields `k` on at `p`: where each field ends.
fn match_fields(s: &Vec<char>, p: usize, k: usize) -> (r: Option<Vec<usize>>)
    requires
        p <= s.len(),
        k <= 6,
    ensures
        match match_from(s@, p as int, k as int) {
            None => r is None,
            Some(es) => r matches Some(v) && v@.map_values(|x: usize| x as int) == es,
        },
    decreases 6 - k, 1int, 0int,
{
    if k >= 6 {
        let v: Vec<usize> = Vec::new();
        assert(v@.map_values(|x: usize| x as int) =~= Seq::<int>::empty());
        return Some(v);
    }
    match_alternatives(s, p, k, 0)
}

/// The first match of fields `k` on at `p`, field `k` taking one of its
/// alternatives from `i` on.
fn match_alternatives(s: &Vec<char>, p: usize, k: usize, i: usize) -> (r: Option<Vec<usize>>)
    requires
        p <= s.len(),
        k < 6,
        i <= alt_count(k as int),
    ensures
        match match_alt(s@, p as int, k as int, i as int) {
            None => r is None,
            Some(es) => r matches Some(v) && v@.map_values(|x: usize| x as int) == es,
        },
    decreases 6 - k, 0int, alt_count(k as int) - i,
{
    if i >= alt_count_of(k) {
        return None;
    }
    let a = alt_of(k, i);
    if alt_matches(s, p, &a) {
        let end = p + a.len();
        match match_fields(s, end, k + 1) {
            Some(rest) => {
                let mut v: Vec<usize> = Vec::new();
                v.push(end);
                let mut q: usize = 0;
                while q < rest.len()
                    invariant
                        q <= rest.len(),
                        v@.len() == q + 1,
                        v@[0] == end,
                        forall|j: int| 0 <= j < q ==> #[trigger] v@[j + 1] == rest@[j],
                    decreases rest.len() - q,
                {
                    v.push(rest[q]);
                    q += 1;
                }
                assert(v@.map_values(|x: usize| x as int) =~= seq![end as int] + rest@.map_values(
                    |x: usize| x as int,
                )) by {
                    assert forall|j: int| 0 < j < v@.len() implies v@[j] == rest@[j - 1] by {
                        assert(v@[(j - 1) + 1] == rest@[j - 1]);
                    }
                }
                return Some(v);
            },
            None => {},
        }
    }
    match_alternatives(s, p, k, i + 1)
}

/// The value of a digit, and 0 for the space a field may lead with.
pub open spec fn digit_of(x: char) -> int {
    if '0' <= x && x <= '9' {
        x as int - '0' as int
    } else {
        0
    }
}

/// The number a field's characters write.
pub open spec fn field_value(t: Seq<char>) -> int
    decreases t.len(),
{
    if t.len() == 0 {
        0
    } else {
        field_value(t.drop_last()) * 10 + digit_of(t.last())
    }
}

/// Ten to the `n`.
pub open spec fn ten_to(n: nat) -> int
    decreases n,
{
    if n == 0 {
        1
    } else {
        10 * ten_to((n - 1) as nat)
    }
}

/// A field of `n` characters writes a number below ten to the `n`.
pub proof fn lemma_field_value_bound(t: Seq<char>)
    ensures
        0 <= field_value(t) < ten_to(t.len()),
    decreases t.len(),
{
    if t.len() > 0 {
        lemma_field_value_bound(t.drop_last());
        let v = field_value(t.drop_last());
        let b = ten_to(t.drop_last().len());
        let d = digit_of(t.last());
        assert(0 <= d <= 9);
        assert(0 <= v * 10 + d < 10 * b) by (nonlinear_arith)
            requires
                0 <= v < b,
                0 <= d <= 9,
        ;
    }
}

/// How many days month `m` of year `y` has.
pub open spec fn days_in(y: int, m: int) -> int {
    if m == 2 {
        if (y % 4 == 0 && y % 100 != 0) || y % 400 == 0 {
            29
        } else {
            28
        }
    } else if m == 4 || m == 6 || m == 9 || m == 11 {
        30
    } else {
        31
    }
}

/// A date and time of day with no zone, to the minute.
#[derive(Clone, Copy, Debug, PartialEq, Eq)]
pub struct CivilStamp {
    /// The year.
    pub year: i64,
    /// The month, from 1.
    pub month: i64,
    /// The day of the month, from 1.
    pub day: i64,
    /// The hour.
    pub hour: i64,
    /// The minute.
    pub minute: i64,
}

/// The text of field `j` of a match ending at `es`.
pub open spec fn field_text(t: Seq<char>, es: Seq<int>, j: int) -> Seq<char> {
    t.subrange(if j == 0 { 0 } else { es[j - 1] }, es[j])
}

/// The refusal of a stamp that does not match the format.
pub open spec fn no_match_text(t: Seq<char>) -> Seq<char> {
    "time data '"@ + t + "' does not match format '%Y%m%d:%H%M'"@
}

/// The refusal of a stamp with characters left past the match.
pub open spec fn unconverted_text(rest: Seq<char>) -> Seq<char> {
    "unconverted data remains: "@ + rest
}

/// The refusal of year 0.
pub open spec fn year_zero_text() -> Seq<char> {
    "year must be in 1..9999, not 0"@
}

/// The refusal of a day past the end of its month.
pub open spec fn day_range_text(d: int, last: int, m: int, y: int) -> Seq<char> {
    "day "@ + int_text(d) + " must be in range 1.."@ + int_text(last) + " for month "@ + int_text(m)
        + " in year "@ + int_text(y)
}

/// What reading `t` as `%Y%m%d:%H%M` gives: the first match, which must
/// take the whole text, then a year from 1 and a day within its month.
pub open spec fn stamp_reading(t: Seq<char>) -> Result<CivilStamp, Seq<char>> {
    match match_from(t, 0, 0) {
        None => Err(no_match_text(t)),
        Some(es) => if es[5] < t.len() {
            Err(unconverted_text(t.skip(es[5])))
        } else {
            let y = field_value(field_text(t, es, 0));
            let m = field_value(field_text(t, es, 1));
            let d = field_value(field_text(t, es, 2));
            let h = field_value(field_text(t, es, 4));
            let mi = field_value(field_text(t, es, 5));
            if y == 0 {
                Err(year_zero_text())
            } else if d > days_in(y, m) {
                Err(day_range_text(d, days_in(y, m), m, y))
            } else {
                Ok(CivilStamp { year: y as i64, month: m as i64, day: d as i64, hour: h as i64, minute: mi as i64 })
            }
        },
    }
}

/// Whether each part of `c` fits what a civil time is made of: a year of
/// four digits, the rest of two.
pub open spec fn stamp_in_range(c: CivilStamp) -> bool {
    &&& 0 <= c.year <= 9999
    &&& 0 <= c.month <= 99
    &&& 0 <= c.day <= 99
    &&& 0 <= c.hour <= 99
    &&& 0 <= c.minute <= 99
}

/// The number `cs[a..b]` writes.
fn value_of(cs: &Vec<char>, a: usize, b: usize) -> (r: i64)
    requires
        a <= b <= cs.len(),
        b - a <= 4,
    ensures
        r == field_value(cs@.subrange(a as int, b as int)),
        0 <= r < ten_to((b - a) as nat),
{
    let mut v: i64 = 0;
    let mut q: usize = a;
    proof {
        assert(cs@.subrange(a as int, a as int) =~= Seq::<char>::empty());
    }
    while q < b
        invariant
            a <= q <= b,
            b <= cs.len(),
            b - a <= 4,
            v == field_value(cs@.subrange(a as int, q as int)),
        decreases b - q,
    {
        proof {
            lemma_field_value_bound(cs@.subrange(a as int, q as int));
            assert(ten_to((q - a) as nat) <= 1000) by {
                reveal_with_fuel(ten_to, 4);
            }
            assert(cs@.subrange(a as int, q + 1).drop_last() =~= cs@.subrange(a as int, q as int));
        }
        let x = cs[q];
        let d: i64 = if '0' <= x && x <= '9' { (x as u32 - '0' as u32) as i64 } else { 0 };
        assert(d == digit_of(x));
        v = v * 10 + d;
        q += 1;
    }
    proof {
        lemma_field_value_bound(cs@.subrange(a as int, b as int));
    }
    v
}

/// How many days month `m` of year `y` has.
fn days_of(y: i64, m: i64) -> (r: i64)
    ensures
        r == days_in(y as int, m as int),
{
    if m == 2 {
        if (y % 4 == 0 && y % 100 != 0) || y % 400 == 0 {
            29
        } else {
            28
        }
    } else if m == 4 || m == 6 || m == 9 || m == 11 {
        30
    } else {
        31
    }
}

/// `cs[a..]`.
fn tail_of(cs: &Vec<char>, a: usize) -> (r: Vec<char>)
    requires
        a <= cs.len(),
    ensures
        r@ == cs@.skip(a as int),
{
    let mut out: Vec<char> = Vec::new();
    let mut q: usize = a;
    while q < cs.len()
        invariant
            a <= q <= cs.len(),
            out@ == cs@.subrange(a as int, q as int),
        decreases cs.len() - q,
    {
        out.push(cs[q]);
        q += 1;
        assert(out@ =~= cs@.subrange(a as int, q as int));
    }
    assert(out@ =~= cs@.skip(a as int));
    out
}

/// Reads `t` as Python's `strptime(t, "%Y%m%d:%H%M")` reads it: the first
/// match of the format's patterns, which must take the whole text, then a
/// year from 1 and a day within its month; else `Err(Value)` with Python's
/// words.
pub fn read_stamp(t: &str) -> (r: Result<CivilStamp, Error>)
    ensures
        match stamp_reading(t@) {
            Ok(c) => r == Ok::<CivilStamp, Error>(c),
            Err(m) => r matches Err(Error::Value(x)) && x@ == m,
        },
        r matches Ok(c) ==> stamp_in_range(c),
{
    let cs = chars_of(t);
    proof {
        lemma_match_shape(cs@, 0, 0);
    }
    match match_fields(&cs, 0, 0) {
        None => {
            let mut m = String::new();
            push_chars(&mut m, &chars_of("time data '"));
            push_chars(&mut m, &cs);
            push_chars(&mut m, &chars_of("' does not match format '%Y%m%d:%H%M'"));
            Err(Error::Value(m))
        },
        Some(es) => {
            let ghost ev = es@.map_values(|x: usize| x as int);
            assert(match_shape(cs@, 0, 0, ev));
            assert(ev[0] == es@[0] && ev[1] == es@[1] && ev[2] == es@[2] && ev[3] == es@[3] && ev[4] == es@[4] && ev[5] == es@[5]);
            if es[5] < cs.len() {
                let mut m = String::new();
                push_chars(&mut m, &chars_of("unconverted data remains: "));
                push_chars(&mut m, &tail_of(&cs, es[5]));
                return Err(Error::Value(m));
            }
            proof {
                reveal_with_fuel(ten_to, 5);
                assert(ten_to(0) == 1 && ten_to(1) == 10 && ten_to(2) == 100 && ten_to(3) == 1000 && ten_to(4) == 10000);
            }
            let y = value_of(&cs, 0, es[0]);
            let mo = value_of(&cs, es[0], es[1]);
            let d = value_of(&cs, es[1], es[2]);
            let h = value_of(&cs, es[3], es[4]);
            let mi = value_of(&cs, es[4], es[5]);
            if y == 0 {
                let m = chars_of("year must be in 1..9999, not 0");
                return Err(Error::Value(string_of(&m)));
            }
            let last = days_of(y, mo);
            if d > last {
                let mut m = String::new();
                push_chars(&mut m, &chars_of("day "));
                push_chars(&mut m, &i64_text(d));
                push_chars(&mut m, &chars_of(" must be in range 1.."));
                push_chars(&mut m, &i64_text(last));
                push_chars(&mut m, &chars_of(" for month "));
                push_chars(&mut m, &i64_text(mo));
                push_chars(&mut m, &chars_of(" in year "));
                push_chars(&mut m, &i64_text(y));
                return Err(Error::Value(m));
            }
            Ok(CivilStamp { year: y, month: mo, day: d, hour: h, minute: mi })
        },
    }
}

/// A time zone of jiff's.
#[verifier::external_type_specification]
#[verifier::external_body]
pub struct ExTimeZone(TimeZone);

/// A civil date and time of jiff's.
#[verifier::external_type_specification]
#[verifier::external_body]
pub struct ExDateTime(DateTime);

/// A date and time in a zone, of jiff's.
#[verifier::external_type_specification]
#[verifier::external_body]
pub struct ExZoned(Zoned);

/// The zone named `name` in the time zone database: jiff's
/// `TimeZone::get`. Which names it knows, and their rules, rest on the
/// database this machine holds, so nothing is stated of the result but
/// that a failure is `Err(Value)` with jiff's words.
#[verifier::external_body]
fn time_zone(name: &str) -> (r: Result<TimeZone, Error>)
    ensures
        r matches Err(e) ==> e is Value,
{
    match TimeZone::get(name) {
        Ok(tz) => Ok(tz),
        Err(e) => Err(Error::Value(e.to_string())),
    }
}

/// The civil time `c`, at second 0: jiff's `DateTime::new`, which refuses
/// a part out of its range. A failure is `Err(Value)` with jiff's words.
#[verifier::external_body]
fn civil_datetime(c: &CivilStamp) -> (r: Result<DateTime, Error>)
    requires
        stamp_in_range(*c),
    ensures
        r matches Err(e) ==> e is Value,
{
    match DateTime::new(c.year as i16, c.month as i8, c.day as i8, c.hour as i8, c.minute as i8, 0, 0) {
        Ok(dt) => Ok(dt),
        Err(e) => Err(Error::Value(e.to_string())),
    }
}

/// `dt` placed in zone `tz`: jiff's `DateTime::to_zoned`, which takes a
/// time in a gap or a repeated hour as its `compatible` rule does. What it
/// gives rests on the zone's rules in the database, so nothing is stated
/// of it but that a failure is `Err(Value)` with jiff's words.
#[verifier::external_body]
fn in_zone(dt: DateTime, tz: &TimeZone) -> (r: Result<Zoned, Error>)
    ensures
        r matches Err(e) ==> e is Value,
{
    match dt.to_zoned(tz.clone()) {
        Ok(z) => Ok(z),
        Err(e) => Err(Error::Value(e.to_string())),
    }
}

/// A session's start and end, in the contract's zone: ib_async's
/// `TradingSession`.
#[derive(Debug, PartialEq)]
pub struct TradingSession {
    /// `start`.
    pub start: Zoned,
    /// `end`.
    pub end: Zoned,
}

/// The refusal of a session with a start and no end.
pub open spec fn missing_end_text() -> Seq<char> {
    "TradingSession.__new__() missing 1 required positional argument: 'end'"@
}

/// The refusal of a session given `n` arguments, itself counted.
pub open spec fn too_many_text(n: nat) -> Seq<char> {
    "TradingSession.__new__() takes 3 positional arguments but "@ + nat_text(n) + " were given"@
}

/// The session of `times`, as `TradingSession(*times)` makes it: a start
/// and an end, else `Err(Value)` with Python's words.
pub fn session_pair(times: Vec<Zoned>) -> (r: Result<TradingSession, Error>)
    ensures
        times@.len() == 2 ==> (r matches Ok(s) && s.start == times@[0] && s.end == times@[1]),
        times@.len() == 1 ==> (r matches Err(Error::Value(m)) && m@ == missing_end_text()),
        times@.len() != 1 && times@.len() != 2 ==> (r matches Err(Error::Value(m)) && m@
            == too_many_text((times@.len() + 1) as nat)),
{
    let n = times.len();
    if n == 2 {
        let mut times = times;
        let end = times.pop();
        let start = times.pop();
        match (start, end) {
            (Some(start), Some(end)) => Ok(TradingSession { start, end }),
            _ => Err(Error::Value(String::new())),
        }
    } else if n == 1 {
        Err(Error::Value(string_of(&chars_of("TradingSession.__new__() missing 1 required positional argument: 'end'"))))
    } else {
        let mut m = String::new();
        push_chars(&mut m, &chars_of("TradingSession.__new__() takes 3 positional arguments but "));
        push_chars(&mut m, &u128_text(n as u128 + 1));
        push_chars(&mut m, &chars_of(" were given"));
        Err(Error::Value(m))
    }
}

/// Whether every stamp of every session reads.
pub open spec fn stamps_read(texts: Seq<Seq<Seq<char>>>) -> bool {
    forall|i: int, j: int|
        0 <= i < texts.len() && 0 <= j < texts[i].len() ==> (#[trigger] stamp_reading(texts[i][j])) is Ok
}

/// Whether every session has a start and an end.
pub open spec fn pairs_only(texts: Seq<Seq<Seq<char>>>) -> bool {
    forall|i: int| 0 <= i < texts.len() ==> (#[trigger] texts[i]).len() == 2
}

/// The sessions `hours` names, in zone `time_zone_id`: ib_async's
/// `_parseSessions`. Nothing is read where both are empty. Otherwise the
/// zone is looked up, then each session's stamps are read and placed in
/// the zone in turn, and the session made of them; the first failure is
/// `Err(Value)`. So the sessions are given only where every stamp reads
/// and every session has a start and an end.
pub fn parse_sessions(hours: &str, time_zone_id: &str) -> (r: Result<Vec<TradingSession>, Error>)
    ensures
        hours@.len() == 0 && time_zone_id@.len() == 0 ==> (r matches Ok(v) && v@.len() == 0),
        r matches Ok(v) ==> v@.len() == session_texts(hours@).len() && stamps_read(session_texts(hours@))
            && pairs_only(session_texts(hours@)),
        r matches Err(e) ==> e is Value,
{
    if hours.is_empty() && time_zone_id.is_empty() {
        proof {
            let one = split_on(hours@, ';');
            assert(one == seq![Seq::<char>::empty()]);
            assert(one.drop_last() =~= Seq::<Seq<char>>::empty());
            assert(one.last() == Seq::<char>::empty());
            assert(kept(one.drop_last()) == one.drop_last());
            assert(kept(one) =~= Seq::<Seq<char>>::empty());
        }
        return Ok(Vec::new());
    }
    let tz = match time_zone(time_zone_id) {
        Ok(tz) => tz,
        Err(e) => {
            return Err(e);
        },
    };
    let entries = session_stamps(hours);
    let ghost texts = session_texts(hours@);
    let mut out: Vec<TradingSession> = Vec::new();
    let mut i: usize = 0;
    while i < entries.len()
        invariant
            i <= entries.len(),
            hours@.len() > 0 || time_zone_id@.len() > 0,
            entries@.len() == texts.len(),
            texts == session_texts(hours@),
            forall|k: int| 0 <= k < entries@.len() ==> (#[trigger] entries@[k])@.map_values(|s: String| s@)
                == texts[k],
            out@.len() == i,
            forall|k: int, j: int|
                0 <= k < i && 0 <= j < texts[k].len() ==> (#[trigger] stamp_reading(texts[k][j])) is Ok,
            forall|k: int| 0 <= k < i ==> (#[trigger] texts[k]).len() == 2,
        decreases entries.len() - i,
    {
        let parts = &entries[i];
        assert(parts@.map_values(|s: String| s@) == texts[i as int]);
        let mut times: Vec<Zoned> = Vec::new();
        let mut j: usize = 0;
        while j < parts.len()
            invariant
                j <= parts.len(),
                hours@.len() > 0 || time_zone_id@.len() > 0,
                i < texts.len(),
                parts@.map_values(|s: String| s@) == texts[i as int],
                times@.len() == j,
                forall|q: int| 0 <= q < j ==> (#[trigger] stamp_reading(texts[i as int][q])) is Ok,
            decreases parts.len() - j,
        {
            assert(parts@[j as int]@ == texts[i as int][j as int]);
            let stamp = match read_stamp(parts[j].as_str()) {
                Ok(c) => c,
                Err(e) => {
                    return Err(e);
                },
            };
            let dt = match civil_datetime(&stamp) {
                Ok(dt) => dt,
                Err(e) => {
                    return Err(e);
                },
            };
            let z = match in_zone(dt, &tz) {
                Ok(z) => z,
                Err(e) => {
                    return Err(e);
                },
            };
            times.push(z);
            j += 1;
        }
        let n = times.len();
        let session = match session_pair(times) {
            Ok(s) => s,
            Err(e) => {
                return Err(e);
            },
        };
        assert(n == 2);
        out.push(session);
        i += 1;
    }
    Ok(out)
}

} // verus!

//! ib_async's contract parts that hold no number with a fraction: a tag and
//! its value, a combo's leg, and the key a contract's ticker is held under.

use vstd::prelude::*;
use crate::error::Error;
use crate::text::{chars_of, concat, push_chars};

verus! {

/// A tag and its value: ib_async's `TagValue`.
#[derive(Clone, Debug, PartialEq, Eq)]
pub struct TagValue {
    /// `tag`.
    pub tag: String,
    /// `value`.
    pub value: String,
}

/// One leg of a combo: ib_async's `ComboLeg`.
#[derive(Clone, Debug, PartialEq, Eq)]
pub struct ComboLeg {
    /// `conId`: the leg's contract.
    pub con_id: i64,
    /// `ratio`: the leg's share of the combo.
    pub ratio: i32,
    /// `action`: BUY or SELL.
    pub action: String,
    /// `exchange`.
    pub exchange: String,
    /// `openClose`.
    pub open_close: i32,
    /// `shortSaleSlot`.
    pub short_sale_slot: i32,
    /// `designatedLocation`.
    pub designated_location: String,
    /// `exemptCode`; -1 by default.
    pub exempt_code: i32,
}

impl Default for ComboLeg {
    /// Every field empty or zero, but `exempt_code`, which is -1.
    fn default() -> (r: ComboLeg)
        ensures
            r.con_id == 0,
            r.ratio == 0,
            r.action@.len() == 0,
            r.exchange@.len() == 0,
            r.open_close == 0,
            r.short_sale_slot == 0,
            r.designated_location@.len() == 0,
            r.exempt_code == -1,
    {
        ComboLeg {
            con_id: 0,
            ratio: 0,
            action: String::new(),
            exchange: String::new(),
            open_close: 0,
            short_sale_slot: 0,
            designated_location: String::new(),
            exempt_code: -1,
        }
    }
}

/// A copy of `l`.
pub fn copy_leg(l: &ComboLeg) -> (r: ComboLeg)
    ensures
        r == *l,
{
    ComboLeg {
        con_id: l.con_id,
        ratio: l.ratio,
        action: l.action.clone(),
        exchange: l.exchange.clone(),
        open_close: l.open_close,
        short_sale_slot: l.short_sale_slot,
        designated_location: l.designated_location.clone(),
        exempt_code: l.exempt_code,
    }
}

/// A combo leg as a tuple of its fields in order, ib_async's
/// `dataclassAsTuple(leg)`.
pub type LegKey = (i64, i32, String, String, i32, i32, String, i32);

/// The tuple of a leg's fields.
pub open spec fn leg_key(l: ComboLeg) -> LegKey {
    (
        l.con_id,
        l.ratio,
        l.action,
        l.exchange,
        l.open_close,
        l.short_sale_slot,
        l.designated_location,
        l.exempt_code,
    )
}

/// The tuple of a leg's fields.
pub fn leg_tuple(l: &ComboLeg) -> (r: LegKey)
    ensures
        r == leg_key(*l),
{
    (
        l.con_id,
        l.ratio,
        l.action.clone(),
        l.exchange.clone(),
        l.open_close,
        l.short_sale_slot,
        l.designated_location.clone(),
        l.exempt_code,
    )
}

/// A leg whose `con_id` is `k`.
pub open spec fn with_con_id(k: i64) -> spec_fn(ComboLeg) -> bool {
    |l: ComboLeg| l.con_id == k
}

/// The legs run by `con_id`, upward.
pub open spec fn sorted_by_con_id(s: Seq<ComboLeg>) -> bool {
    forall|i: int, j: int| 0 <= i < j < s.len() ==> (#[trigger] s[i]).con_id <= (#[trigger] s[j]).con_id
}

/// `r` is `orig` sorted by `con_id` as Python's stable `sorted` sorts it:
/// in order of `con_id`, the legs of one `con_id` in their order in `orig`.
pub open spec fn stable_sort_of(orig: Seq<ComboLeg>, r: Seq<ComboLeg>) -> bool {
    &&& r.len() == orig.len()
    &&& sorted_by_con_id(r)
    &&& forall|k: i64| #[trigger] r.filter(with_con_id(k)) == orig.filter(with_con_id(k))
}

/// The filter of `a` then `x` then `b`, where `x` is tagged `k` exactly when
/// `take` says so.
proof fn lemma_filter_three(a: Seq<ComboLeg>, x: ComboLeg, b: Seq<ComboLeg>, p: spec_fn(ComboLeg) -> bool)
    ensures
        (a + seq![x] + b).filter(p) == a.filter(p) + seq![x].filter(p) + b.filter(p),
        seq![x].filter(p) == (if p(x) { seq![x] } else { Seq::<ComboLeg>::empty() }),
{
    Seq::filter_distributes_over_add(a + seq![x], b, p);
    Seq::filter_distributes_over_add(a, seq![x], p);
    reveal_with_fuel(Seq::filter, 2);
    assert(seq![x].drop_last() =~= Seq::<ComboLeg>::empty());
}

/// `legs` sorted by `con_id`, stably: the order Python's `sorted` gives.
pub fn sort_legs(legs: &Vec<ComboLeg>) -> (r: Vec<ComboLeg>)
    ensures
        stable_sort_of(legs@, r@),
{
    let mut r: Vec<ComboLeg> = Vec::new();
    let mut i: usize = 0;
    proof {
        reveal_with_fuel(Seq::filter, 1);
        assert(legs@.take(0) =~= Seq::<ComboLeg>::empty());
        assert forall|k: i64| #[trigger] r@.filter(with_con_id(k)) == legs@.take(0).filter(
            with_con_id(k),
        ) by {}
    }
    while i < legs.len()
        invariant
            i <= legs.len(),
            stable_sort_of(legs@.take(i as int), r@),
        decreases legs.len() - i,
    {
        let x = copy_leg(&legs[i]);
        let mut j: usize = 0;
        while j < r.len() && r[j].con_id <= x.con_id
            invariant
                j <= r.len(),
                forall|m: int| 0 <= m < j ==> (#[trigger] r@[m]).con_id <= x.con_id,
            decreases r.len() - j,
        {
            j += 1;
        }
        let ghost before = r@;
        r.insert(j, x);
        proof {
            let a = before.take(j as int);
            let b = before.skip(j as int);
            assert(before =~= a + b);
            assert(r@ =~= a + seq![x] + b);
            assert forall|m: int| 0 <= m < b.len() implies (#[trigger] b[m]).con_id > x.con_id by {
                if j + m < before.len() {
                    assert(b[m] == before[j + m]);
                    assert(before[j as int].con_id > x.con_id);
                    if m > 0 {
                        assert(before[j as int].con_id <= before[j + m].con_id);
                    }
                }
            }
            let o = legs@.take(i as int);
            let o1 = legs@.take(i + 1);
            assert(o1.drop_last() =~= o);
            assert(o1.last() == x);
            assert forall|k: i64| #[trigger] r@.filter(with_con_id(k)) == o1.filter(with_con_id(k)) by {
                let p = with_con_id(k);
                lemma_filter_three(a, x, b, p);
                Seq::filter_distributes_over_add(a, b, p);
                reveal_with_fuel(Seq::filter, 1);
                if p(x) {
                    assert forall|m: int| 0 <= m < b.len() implies !p(#[trigger] b[m]) by {}
                    b.lemma_all_neg_filter_empty(p);
                    assert(b.filter(p) =~= Seq::<ComboLeg>::empty());
                    assert(before.filter(p) == o.filter(p));
                    assert(r@.filter(p) =~= a.filter(p) + seq![x]);
                    assert(before.filter(p) =~= a.filter(p) + b.filter(p));
                    assert(o1.filter(p) == o.filter(p).push(x));
                    assert(r@.filter(p) =~= o1.filter(p));
                } else {
                    assert(o1.filter(p) == o.filter(p));
                    assert(r@.filter(p) =~= a.filter(p) + b.filter(p));
                }
            }
            assert forall|m: int, n: int| 0 <= m < n < r@.len() implies (#[trigger] r@[m]).con_id <= (#[trigger] r@[n]).con_id by {
                if n < j {
                    assert(r@[m] == before[m] && r@[n] == before[n]);
                } else if n == j {
                    assert(r@[m] == before[m]);
                } else if m < j {
                    assert(r@[m] == before[m] && r@[n] == b[n - j - 1]);
                } else if m == j {
                    assert(r@[n] == b[n - j - 1]);
                } else {
                    assert(r@[m] == before[m - 1] && r@[n] == before[n - 1]);
                }
            }
        }
        i += 1;
    }
    assert(legs@.take(legs@.len() as int) =~= legs@);
    r
}

/// The key tickers are held under: ib_async's `hash(contract)`, the key of
/// its `Wrapper.tickers`.
#[derive(Clone, Debug, PartialEq, Eq, Hash)]
pub enum TickerKey {
    /// `con_id`, negated for a CONTFUT, which shares its front contract's
    /// `con_id`. Widened so that the negation is exact, as Python's is.
    Id(i128),
    /// A BAG: its legs sorted by `con_id`, then its symbol and exchange.
    Bag(Vec<LegKey>, String, String),
}

/// What a contract's ticker key is made of: the fields ib_async's
/// `__hash__` reads.
#[derive(Debug)]
pub struct KeyFields {
    /// `secType`.
    pub sec_type: String,
    /// `conId`.
    pub con_id: i64,
    /// `symbol`.
    pub symbol: String,
    /// `exchange`.
    pub exchange: String,
    /// `comboLegs`.
    pub combo_legs: Vec<ComboLeg>,
}

/// The text of the error for a contract with no `con_id` to be keyed by,
/// given the contract's debug text.
pub open spec fn unhashable_text(described: Seq<char>) -> Seq<char> {
    "Contract "@ + described
        + " can't be hashed because no 'conId' value exists. Qualify contract to populate 'conId'."@
}

impl KeyFields {
    /// Whether the contract has a `con_id` to be keyed by: ib_async's
    /// `isHashable`.
    pub fn is_hashable(&self) -> (r: bool)
        ensures
            r == (self.con_id != 0),
    {
        self.con_id != 0
    }

    /// The key the contract's ticker is held under: ib_async's `__hash__`.
    /// A BAG is keyed by its legs, sorted by `con_id`, with its symbol and
    /// exchange. Any other contract needs a `con_id`, and fails with
    /// `Err(Value)` without one, naming the contract by `described`, its
    /// debug text.
    pub fn ticker_key(&self, described: &str) -> (r: Result<TickerKey, Error>)
        ensures
            self.sec_type@ == "BAG"@ ==> (r matches Ok(TickerKey::Bag(legs, symbol, exchange))
                && symbol@ == self.symbol@ && exchange@ == self.exchange@ && exists|sorted: Seq<
                ComboLeg,
            >|
                stable_sort_of(self.combo_legs@, sorted) && legs@ == sorted.map_values(
                    |l: ComboLeg| leg_key(l),
                )),
            self.sec_type@ != "BAG"@ && self.con_id == 0 ==> (r matches Err(Error::Value(m))
                && m@ == unhashable_text(described@)),
            self.sec_type@ != "BAG"@ && self.con_id != 0 ==> r == Ok::<TickerKey, Error>(
                TickerKey::Id(
                    if self.sec_type@ == "CONTFUT"@ {
                        -(self.con_id as int) as i128
                    } else {
                        self.con_id as i128
                    },
                ),
            ),
    {
        if self.sec_type.as_str().to_owned() == "BAG".to_owned() {
            let sorted = sort_legs(&self.combo_legs);
            let mut legs: Vec<LegKey> = Vec::new();
            let mut i: usize = 0;
            while i < sorted.len()
                invariant
                    i <= sorted.len(),
                    legs@ == sorted@.take(i as int).map_values(|l: ComboLeg| leg_key(l)),
                decreases sorted.len() - i,
            {
                legs.push(leg_tuple(&sorted[i]));
                i += 1;
                assert(legs@ =~= sorted@.take(i as int).map_values(|l: ComboLeg| leg_key(l)));
            }
            assert(sorted@.take(sorted@.len() as int) =~= sorted@);
            return Ok(TickerKey::Bag(legs, self.symbol.clone(), self.exchange.clone()));
        }
        if !self.is_hashable() {
            let mut m = String::new();
            push_chars(&mut m, &chars_of("Contract "));
            push_chars(&mut m, &chars_of(described));
            push_chars(
                &mut m,
                &chars_of(
                    " can't be hashed because no 'conId' value exists. Qualify contract to populate 'conId'.",
                ),
            );
            return Err(Error::Value(m));
        }
        let id = self.con_id as i128;
        if self.sec_type.as_str().to_owned() == "CONTFUT".to_owned() {
            Ok(TickerKey::Id(-id))
        } else {
            Ok(TickerKey::Id(id))
        }
    }
}

/// The filter of a nonempty list: its first leg if it passes, then the
/// filter of the rest.
proof fn lemma_filter_first(s: Seq<ComboLeg>, p: spec_fn(ComboLeg) -> bool)
    requires
        s.len() > 0,
    ensures
        s.filter(p) == (if p(s[0]) { seq![s[0]] } else { Seq::<ComboLeg>::empty() }) + s.drop_first().filter(p),
{
    assert(s =~= seq![s[0]] + s.drop_first());
    Seq::filter_distributes_over_add(seq![s[0]], s.drop_first(), p);
    reveal_with_fuel(Seq::filter, 2);
    assert(seq![s[0]].drop_last() =~= Seq::<ComboLeg>::empty());
}

/// Two lists sorted by `con_id` whose legs of each `con_id` come in the
/// same order are one list.
proof fn lemma_sorted_by_filters(r1: Seq<ComboLeg>, r2: Seq<ComboLeg>)
    requires
        sorted_by_con_id(r1),
        sorted_by_con_id(r2),
        forall|k: i64| #[trigger] r1.filter(with_con_id(k)) == r2.filter(with_con_id(k)),
    ensures
        r1 == r2,
    decreases r1.len() + r2.len(),
{
    if r1.len() == 0 && r2.len() == 0 {
        assert(r1 =~= r2);
    } else if r1.len() == 0 || r2.len() == 0 {
        let s = if r1.len() > 0 { r1 } else { r2 };
        let k = s[0].con_id;
        lemma_filter_first(s, with_con_id(k));
        reveal_with_fuel(Seq::filter, 1);
        assert(r1.filter(with_con_id(k)) == r2.filter(with_con_id(k)));
        assert(false);
    } else {
        let k1 = r1[0].con_id;
        let k2 = r2[0].con_id;
        lemma_filter_first(r1, with_con_id(k1));
        lemma_filter_first(r2, with_con_id(k2));
        if k1 != k2 {
            let (lo, hi, k) = if k1 < k2 { (r1, r2, k1) } else { (r2, r1, k2) };
            assert forall|m: int| 0 <= m < hi.len() implies !with_con_id(k)(#[trigger] hi[m]) by {
                assert(hi[0].con_id <= hi[m].con_id);
            }
            hi.lemma_all_neg_filter_empty(with_con_id(k));
            lemma_filter_first(lo, with_con_id(k));
            assert(lo.filter(with_con_id(k)) == hi.filter(with_con_id(k)));
            assert(false);
        }
        lemma_filter_first(r2, with_con_id(k1));
        assert(r1.filter(with_con_id(k1))[0] == r2.filter(with_con_id(k1))[0]);
        let t1 = r1.drop_first();
        let t2 = r2.drop_first();
        assert forall|k: i64| #[trigger] t1.filter(with_con_id(k)) == t2.filter(with_con_id(k)) by {
            lemma_filter_first(r1, with_con_id(k));
            lemma_filter_first(r2, with_con_id(k));
            assert(r1.filter(with_con_id(k)) == r2.filter(with_con_id(k)));
            if k == k1 {
                assert(t1.filter(with_con_id(k)) =~= r1.filter(with_con_id(k)).drop_first());
                assert(t2.filter(with_con_id(k)) =~= r2.filter(with_con_id(k)).drop_first());
            }
        }
        assert forall|i: int, j: int| 0 <= i < j < t1.len() implies (#[trigger] t1[i]).con_id <= (#[trigger] t1[j]).con_id by {
            assert(t1[i] == r1[i + 1] && t1[j] == r1[j + 1]);
        }
        assert forall|i: int, j: int| 0 <= i < j < t2.len() implies (#[trigger] t2[i]).con_id <= (#[trigger] t2[j]).con_id by {
            assert(t2[i] == r2[i + 1] && t2[j] == r2[j + 1]);
        }
        lemma_sorted_by_filters(t1, t2);
        assert(r1 =~= seq![r1[0]] + t1);
        assert(r2 =~= seq![r2[0]] + t2);
    }
}

/// A BAG's key does not depend on the order of legs of different `con_id`:
/// two lists of legs whose legs of each `con_id` come in the same order
/// sort to one list, so the key of either is the same.
pub proof fn law_bag_key_ignores_leg_order(
    legs1: Seq<ComboLeg>,
    legs2: Seq<ComboLeg>,
    sorted1: Seq<ComboLeg>,
    sorted2: Seq<ComboLeg>,
)
    requires
        forall|k: i64| #[trigger] legs1.filter(with_con_id(k)) == legs2.filter(with_con_id(k)),
        stable_sort_of(legs1, sorted1),
        stable_sort_of(legs2, sorted2),
    ensures
        sorted1 == sorted2,
{
    assert forall|k: i64| #[trigger] sorted1.filter(with_con_id(k)) == sorted2.filter(with_con_id(k)) by {
        assert(sorted1.filter(with_con_id(k)) == legs1.filter(with_con_id(k)));
        assert(sorted2.filter(with_con_id(k)) == legs2.filter(with_con_id(k)));
    }
    lemma_sorted_by_filters(sorted1, sorted2);
}

/// A pair's short name, `symbol` then `currency`: ib_async's `Forex.pair`.
pub fn pair_name(symbol: &str, currency: &str) -> (r: String)
    ensures
        r@ == symbol@ + currency@,
{
    concat(symbol, currency)
}

/// The symbol of provider `p`'s news feed: `"{p}:{p}_ALL"`, as ib_async's
/// news contracts are named.
pub fn news_symbol(provider: &str) -> (r: String)
    ensures
        r@ == provider@ + ":"@ + provider@ + "_ALL"@,
{
    let head = concat(provider, ":");
    let tail = concat(provider, "_ALL");
    let r = concat(head.as_str(), tail.as_str());
    assert(r@ =~= provider@ + ":"@ + provider@ + "_ALL"@);
    r
}

/// What `{:?}` writes for a text: `<str as Debug>::fmt`.
pub uninterp spec fn str_debug(s: Seq<char>) -> Seq<char>;

/// A text as `{:?}` writes it, quoted and escaped: `<str as Debug>::fmt`.
/// What it writes is named, not stated.
#[verifier::external_body]
fn debug_text(s: &str) -> (r: String)
    ensures
        r@ == str_debug(s@),
{
    format!("{s:?}")
}

/// The text of the error for a forex pair that is not six characters.
pub open spec fn bad_pair_text(pair: Seq<char>) -> Seq<char> {
    "a forex pair has 6 characters: "@ + str_debug(pair)
}

/// A currency pair's `symbol` and `currency`, as ib_async's `Forex` splits
/// it: a pair of six characters, such as `EURUSD`, splits into its first
/// three and its last three; an empty pair gives neither. Any other length
/// is `Err(Value)`, where ib_async's assertion fails.
pub fn forex_parts(pair: &str) -> (r: Result<(String, String), Error>)
    ensures
        pair@.len() == 0 ==> (r matches Ok((s, c)) && s@.len() == 0 && c@.len() == 0),
        pair@.len() == 6 ==> (r matches Ok((s, c)) && s@ == pair@.take(3) && c@ == pair@.skip(3)),
        pair@.len() != 0 && pair@.len() != 6 ==> (r matches Err(Error::Value(m)) && m@
            == bad_pair_text(pair@)),
{
    let cs = chars_of(pair);
    if cs.len() == 0 {
        return Ok((String::new(), String::new()));
    }
    if cs.len() != 6 {
        let mut m = String::new();
        push_chars(&mut m, &chars_of("a forex pair has 6 characters: "));
        push_chars(&mut m, &chars_of(debug_text(pair).as_str()));
        return Err(Error::Value(m));
    }
    let mut symbol: Vec<char> = Vec::new();
    let mut currency: Vec<char> = Vec::new();
    let mut i: usize = 0;
    while i < 6
        invariant
            cs@ == pair@,
            cs.len() == 6,
            i <= 6,
            symbol@ == pair@.take(if i < 3 { i as int } else { 3 }),
            currency@ == (if i < 3 { Seq::<char>::empty() } else { pair@.subrange(3, i as int) }),
        decreases 6 - i,
    {
        if i < 3 {
            symbol.push(cs[i]);
        } else {
            currency.push(cs[i]);
        }
        i += 1;
        assert(symbol@ =~= pair@.take(if i < 3 { i as int } else { 3 }));
        assert(currency@ =~= (if i < 3 { Seq::<char>::empty() } else { pair@.subrange(3, i as int) }));
    }
    assert(pair@.subrange(3, 6) =~= pair@.skip(3));
    Ok((crate::text::string_of(&symbol), crate::text::string_of(&currency)))
}

} // verus!

//! An event's slots: its handlers and subscriptions, in connection order,
//! each named by a handler id that the event gives once.

use vstd::prelude::*;

verus! {

/// Names a connected handler or subscription, for `Event::disconnect` and
/// `Event::contains`: what eventkit's `disconnect` and `in` find by the
/// callable itself. An event never gives one id twice.
#[derive(Clone, Copy, Debug, PartialEq, Eq, Hash, Structural)]
pub struct HandlerId(pub u64);

/// The ids of `entries`, in order.
pub open spec fn ids_of<S>(entries: Seq<(HandlerId, S)>) -> Seq<u64> {
    entries.map_values(|e: (HandlerId, S)| e.0.0)
}

/// Whether `entries` holds `id`.
pub open spec fn holds_id<S>(entries: Seq<(HandlerId, S)>, id: u64) -> bool {
    exists|i: int| 0 <= i < entries.len() && (#[trigger] entries[i]).0.0 == id
}

/// `entries` without the one named `id`.
pub open spec fn without_id<S>(entries: Seq<(HandlerId, S)>, id: u64) -> Seq<(HandlerId, S)> {
    entries.filter(|e: (HandlerId, S)| e.0.0 != id)
}

/// `entries` less those whose flag in `keep` is false.
pub open spec fn kept<S>(entries: Seq<(HandlerId, S)>, keep: Seq<bool>) -> Seq<(HandlerId, S)>
    decreases entries.len(),
{
    if entries.len() == 0 || keep.len() == 0 {
        Seq::empty()
    } else {
        let rest = kept(entries.drop_last(), keep.drop_last());
        if keep.last() { rest.push(entries.last()) } else { rest }
    }
}

/// A list of slots in connection order. The ids run strictly upward in the
/// order of the list, each below the next id to be given.
#[verifier::reject_recursive_types(S)]
pub struct Slots<S> {
    entries: Vec<(HandlerId, S)>,
    next: u64,
}

impl<S> Slots<S> {
    /// The slots, in connection order.
    pub closed spec fn view(&self) -> Seq<(HandlerId, S)> {
        self.entries@
    }

    /// The id the next connection is given.
    pub closed spec fn next_id(&self) -> u64 {
        self.next
    }

    /// The ids run strictly upward and stay below the next id.
    pub closed spec fn wf(&self) -> bool {
        &&& forall|i: int, j: int|
            0 <= i < j < self.entries@.len() ==> (#[trigger] self.entries@[i]).0.0
                < (#[trigger] self.entries@[j]).0.0
        &&& forall|i: int| 0 <= i < self.entries@.len() ==> (#[trigger] self.entries@[i]).0.0 < self.next
    }

    /// No slot, and the first id next.
    pub fn new() -> (r: Slots<S>)
        ensures
            r.wf(),
            r.view() == Seq::<(HandlerId, S)>::empty(),
            r.next_id() == 0,
    {
        Slots { entries: Vec::new(), next: 0 }
    }

    /// Appends `slot` under a new id. Once every id has been given, nothing
    /// is connected and the last id is returned, which names no slot.
    pub fn connect(&mut self, slot: S) -> (id: HandlerId)
        requires
            old(self).wf(),
        ensures
            final(self).wf(),
            old(self).next_id() < u64::MAX ==> {
                &&& id.0 == old(self).next_id()
                &&& final(self).view() == old(self).view().push((id, slot))
                &&& final(self).next_id() == old(self).next_id() + 1
            },
            old(self).next_id() == u64::MAX ==> {
                &&& id.0 == u64::MAX
                &&& final(self).view() == old(self).view()
                &&& final(self).next_id() == u64::MAX
            },
            !holds_id(old(self).view(), id.0),
    {
        if self.next == u64::MAX {
            return HandlerId(u64::MAX);
        }
        let id = HandlerId(self.next);
        self.entries.push((id, slot));
        self.next = self.next + 1;
        id
    }

    /// The index of the slot named `id`.
    fn position(&self, id: HandlerId) -> (r: Option<usize>)
        requires
            self.wf(),
        ensures
            r is Some <==> holds_id(self.view(), id.0),
            r matches Some(i) ==> i < self.view().len() && self.view()[i as int].0 == id,
    {
        let mut i: usize = 0;
        while i < self.entries.len()
            invariant
                i <= self.entries.len(),
                forall|k: int| 0 <= k < i ==> (#[trigger] self.entries@[k]).0.0 != id.0,
            decreases self.entries.len() - i,
        {
            if self.entries[i].0.0 == id.0 {
                return Some(i);
            }
            i += 1;
        }
        None
    }

    /// Whether `id` is connected.
    pub fn contains(&self, id: HandlerId) -> (r: bool)
        requires
            self.wf(),
        ensures
            r == holds_id(self.view(), id.0),
    {
        self.position(id).is_some()
    }

    /// Disconnects the slot named `id`, giving it back if it was connected.
    pub fn disconnect(&mut self, id: HandlerId) -> (r: Option<S>)
        requires
            old(self).wf(),
        ensures
            final(self).wf(),
            final(self).next_id() == old(self).next_id(),
            r is Some == holds_id(old(self).view(), id.0),
            final(self).view() == without_id(old(self).view(), id.0),
            !holds_id(final(self).view(), id.0),
    {
        let ghost before = self.entries@;
        match self.position(id) {
            Some(i) => {
                let (_, s) = self.entries.remove(i);
                proof {
                    lemma_without_unique(before, id.0, i as int);
                }
                Some(s)
            },
            None => {
                proof {
                    lemma_without_absent(before, id.0);
                }
                None
            },
        }
    }

    /// The number of slots.
    pub fn len(&self) -> (r: usize)
        ensures
            r == self.view().len(),
    {
        self.entries.len()
    }

    /// Disconnects every slot, giving them back.
    pub fn clear(&mut self) -> (r: Vec<(HandlerId, S)>)
        requires
            old(self).wf(),
        ensures
            final(self).wf(),
            final(self).view() == Seq::<(HandlerId, S)>::empty(),
            final(self).next_id() == old(self).next_id(),
            r@ == old(self).view(),
    {
        let mut out: Vec<(HandlerId, S)> = Vec::new();
        std::mem::swap(&mut out, &mut self.entries);
        out
    }

    /// The slots themselves, in order.
    pub fn entries(&self) -> (r: &Vec<(HandlerId, S)>)
        ensures
            r@ == self.view(),
    {
        &self.entries
    }

    /// Keeps the slots whose flag in `keep` is set, in order, giving the
    /// others back.
    pub fn retain(&mut self, keep: &Vec<bool>) -> (r: Vec<(HandlerId, S)>)
        requires
            old(self).wf(),
            keep.len() == old(self).view().len(),
        ensures
            final(self).wf(),
            final(self).next_id() == old(self).next_id(),
            final(self).view() == kept(old(self).view(), keep@),
    {
        let ghost before = self.entries@;
        let ghost next = self.next;
        let mut old_entries: Vec<(HandlerId, S)> = Vec::new();
        std::mem::swap(&mut old_entries, &mut self.entries);
        let mut dropped: Vec<(HandlerId, S)> = Vec::new();
        let mut out: Vec<(HandlerId, S)> = Vec::new();
        let n = old_entries.len();
        let mut rev: Vec<(HandlerId, S)> = Vec::new();
        // Taken from the back, then put back in order.
        let mut k: usize = n;
        while k > 0
            invariant
                k <= n,
                n == before.len(),
                keep@.len() == n,
                old_entries@ == before.subrange(0, k as int),
                rev@.len() == n - k,
                forall|j: int| 0 <= j < n - k ==> #[trigger] rev@[j] == before[n - 1 - j],
            decreases k,
        {
            let e = old_entries.pop().unwrap();
            rev.push(e);
            k -= 1;
        }
        let mut j: usize = 0;
        while j < n
            invariant
                j <= n,
                n == before.len(),
                keep@.len() == n,
                rev@.len() == n - j,
                forall|t: int| 0 <= t < n - j ==> #[trigger] rev@[t] == before[n - 1 - t],
                out@ == kept(before.subrange(0, j as int), keep@.subrange(0, j as int)),
            decreases n - j,
        {
            let e = rev.pop().unwrap();
            proof {
                assert(e == before[j as int]);
                let b1 = before.subrange(0, j + 1);
                let k1 = keep@.subrange(0, j + 1);
                assert(b1.drop_last() == before.subrange(0, j as int));
                assert(k1.drop_last() == keep@.subrange(0, j as int));
                assert(b1.last() == before[j as int]);
                assert(k1.last() == keep@[j as int]);
            }
            if keep[j] {
                out.push(e);
            } else {
                dropped.push(e);
            }
            j += 1;
        }
        proof {
            assert(before.subrange(0, n as int) == before);
            assert(keep@.subrange(0, n as int) == keep@);
            lemma_kept_sub(before, keep@);
            assert forall|a: int, b: int|
                0 <= a < b < out@.len() implies (#[trigger] out@[a]).0.0 < (#[trigger] out@[b]).0.0
            by {
                lemma_kept_order(before, keep@, a, b);
            }
            assert forall|a: int| 0 <= a < out@.len() implies (#[trigger] out@[a]).0.0 < next by {
                lemma_kept_member(before, keep@, a);
            }
        }
        self.entries = out;
        dropped
    }
}

/// Removing the one entry named `id` is filtering it out, as ids are unique.
proof fn lemma_without_unique<S>(s: Seq<(HandlerId, S)>, id: u64, i: int)
    requires
        0 <= i < s.len(),
        s[i].0.0 == id,
        forall|a: int, b: int| 0 <= a < b < s.len() ==> (#[trigger] s[a]).0.0 < (#[trigger] s[b]).0.0,
    ensures
        s.remove(i) == without_id(s, id),
    decreases s.len(),
{
    let f = |e: (HandlerId, S)| e.0.0 != id;
    reveal_with_fuel(Seq::filter, 1);
    if i == s.len() - 1 {
        assert(s.remove(i) == s.drop_last());
        assert forall|k: int| 0 <= k < s.drop_last().len() implies f(#[trigger] s.drop_last()[k]) by {
            assert(s[k].0.0 < s[i].0.0);
        }
        lemma_filter_all(s.drop_last(), f);
    } else {
        let t = s.drop_last();
        assert forall|a: int, b: int| 0 <= a < b < t.len() implies (#[trigger] t[a]).0.0 < (#[trigger] t[b]).0.0 by {
            assert(t[a] == s[a] && t[b] == s[b]);
        }
        lemma_without_unique(t, id, i);
        assert(s.last().0.0 > id);
        assert(s.remove(i) == t.remove(i).push(s.last()));
    }
}

/// Filtering keeps a sequence whose every entry passes.
proof fn lemma_filter_all<A>(s: Seq<A>, f: spec_fn(A) -> bool)
    requires
        forall|k: int| 0 <= k < s.len() ==> f(#[trigger] s[k]),
    ensures
        s.filter(f) == s,
    decreases s.len(),
{
    reveal_with_fuel(Seq::filter, 1);
    if s.len() > 0 {
        lemma_filter_all(s.drop_last(), f);
        assert(s.drop_last().push(s.last()) == s);
    }
}

/// Filtering out an id no entry has changes nothing.
proof fn lemma_without_absent<S>(s: Seq<(HandlerId, S)>, id: u64)
    requires
        !holds_id(s, id),
    ensures
        without_id(s, id) == s,
{
    let f = |e: (HandlerId, S)| e.0.0 != id;
    assert forall|k: int| 0 <= k < s.len() implies f(#[trigger] s[k]) by {
        if s[k].0.0 == id {
            assert(holds_id(s, id));
        }
    }
    lemma_filter_all(s, f);
}

/// What `kept` keeps is no longer than what it keeps from.
pub proof fn lemma_kept_sub<S>(s: Seq<(HandlerId, S)>, keep: Seq<bool>)
    ensures
        kept(s, keep).len() <= s.len(),
    decreases s.len(),
{
    if s.len() > 0 && keep.len() > 0 {
        lemma_kept_sub(s.drop_last(), keep.drop_last());
    }
}

/// Each entry `kept` keeps is an entry of `s`, at an index no smaller.
proof fn lemma_kept_index<S>(s: Seq<(HandlerId, S)>, keep: Seq<bool>, a: int) -> (i: int)
    requires
        0 <= a < kept(s, keep).len(),
    ensures
        a <= i < s.len(),
        kept(s, keep)[a] == s[i],
    decreases s.len(),
{
    let rest = kept(s.drop_last(), keep.drop_last());
    lemma_kept_sub(s.drop_last(), keep.drop_last());
    if keep.last() && a == rest.len() {
        s.len() - 1
    } else {
        let i = lemma_kept_index(s.drop_last(), keep.drop_last(), a);
        i
    }
}

/// `kept` keeps the entries in their order.
proof fn lemma_kept_order<S>(s: Seq<(HandlerId, S)>, keep: Seq<bool>, a: int, b: int)
    requires
        0 <= a < b < kept(s, keep).len(),
        forall|x: int, y: int| 0 <= x < y < s.len() ==> (#[trigger] s[x]).0.0 < (#[trigger] s[y]).0.0,
    ensures
        kept(s, keep)[a].0.0 < kept(s, keep)[b].0.0,
    decreases s.len(),
{
    let rest = kept(s.drop_last(), keep.drop_last());
    lemma_kept_sub(s.drop_last(), keep.drop_last());
    let t = s.drop_last();
    assert forall|x: int, y: int| 0 <= x < y < t.len() implies (#[trigger] t[x]).0.0 < (#[trigger] t[y]).0.0 by {
        assert(t[x] == s[x] && t[y] == s[y]);
    }
    if keep.last() && b == rest.len() {
        let i = lemma_kept_index(t, keep.drop_last(), a);
        assert(kept(s, keep)[a] == rest[a]);
        assert(i < s.len() - 1);
        assert(s[i].0.0 < s[s.len() - 1].0.0);
    } else {
        lemma_kept_order(t, keep.drop_last(), a, b);
    }
}

/// Each entry `kept` keeps is an entry of `s`.
proof fn lemma_kept_member<S>(s: Seq<(HandlerId, S)>, keep: Seq<bool>, a: int)
    requires
        0 <= a < kept(s, keep).len(),
    ensures
        exists|i: int| 0 <= i < s.len() && kept(s, keep)[a] == #[trigger] s[i],
{
    let i = lemma_kept_index(s, keep, a);
    assert(kept(s, keep)[a] == s[i]);
}

/// Disconnecting what was just connected gives the slots back as they were:
/// the new id names the new slot alone.
pub proof fn law_disconnect_undoes_connect<S>(entries: Seq<(HandlerId, S)>, id: u64, slot: S)
    requires
        !holds_id(entries, id),
    ensures
        holds_id(entries.push((HandlerId(id), slot)), id),
        without_id(entries.push((HandlerId(id), slot)), id) == entries,
{
    let pushed = entries.push((HandlerId(id), slot));
    assert(pushed[entries.len() as int].0.0 == id);
    reveal_with_fuel(Seq::filter, 1);
    assert(pushed.drop_last() == entries);
    lemma_without_absent(entries, id);
}

/// Disconnecting `id` leaves no slot named `id`, so disconnecting it again
/// finds nothing and changes nothing, and leaves every other id connected
/// exactly where it was.
pub proof fn law_disconnect_removes_its_id_alone<S>(entries: Seq<(HandlerId, S)>, id: u64, other: u64)
    requires
        other != id,
    ensures
        !holds_id(without_id(entries, id), id),
        without_id(without_id(entries, id), id) == without_id(entries, id),
        holds_id(without_id(entries, id), other) == holds_id(entries, other),
{
    let f = |e: (HandlerId, S)| e.0.0 != id;
    let w = entries.filter(f);
    assert forall|k: int| 0 <= k < w.len() implies (#[trigger] w[k]).0.0 != id by {
        entries.lemma_filter_pred(f, k);
    }
    lemma_without_absent(w, id);
    if holds_id(w, other) {
        let k = choose|k: int| 0 <= k < w.len() && (#[trigger] w[k]).0.0 == other;
        assert(w.contains(w[k]));
        entries.lemma_filter_contains_rev(f, w[k]);
        let j = choose|j: int| 0 <= j < entries.len() && entries[j] == w[k];
        assert(entries[j].0.0 == other);
    }
    if holds_id(entries, other) {
        let j = choose|j: int| 0 <= j < entries.len() && (#[trigger] entries[j]).0.0 == other;
        entries.lemma_filter_contains(f, j);
        let k = choose|k: int| 0 <= k < w.len() && w[k] == entries[j];
        assert(w[k].0.0 == other);
    }
}

/// A slot just connected under a fresh id is connected, and the slots
/// connected before stay so: connecting adds its own id alone.
pub proof fn law_connect_adds_its_id<S>(entries: Seq<(HandlerId, S)>, id: u64, slot: S, other: u64)
    requires
        !holds_id(entries, id),
    ensures
        holds_id(entries.push((HandlerId(id), slot)), id),
        other != id ==> holds_id(entries.push((HandlerId(id), slot)), other) == holds_id(entries, other),
{
    let pushed = entries.push((HandlerId(id), slot));
    assert(pushed[entries.len() as int].0.0 == id);
    if other != id {
        if holds_id(pushed, other) {
            let k = choose|k: int| 0 <= k < pushed.len() && (#[trigger] pushed[k]).0.0 == other;
            assert(k < entries.len());
            assert(entries[k] == pushed[k]);
        }
        if holds_id(entries, other) {
            let k = choose|k: int| 0 <= k < entries.len() && (#[trigger] entries[k]).0.0 == other;
            assert(pushed[k] == entries[k]);
        }
    }
}

/// Dropping the slots whose listener has gone never brings an id back:
/// an id that no slot holds is held by none of those kept, so a slot
/// disconnected stays disconnected.
pub proof fn law_dropping_slots_adds_no_id<S>(entries: Seq<(HandlerId, S)>, keep: Seq<bool>, id: u64)
    requires
        !holds_id(entries, id),
    ensures
        !holds_id(kept(entries, keep), id),
{
    if holds_id(kept(entries, keep), id) {
        let a = choose|a: int| 0 <= a < kept(entries, keep).len() && (#[trigger] kept(entries, keep)[a]).0.0 == id;
        lemma_kept_member(entries, keep, a);
        let i = choose|i: int| 0 <= i < entries.len() && kept(entries, keep)[a] == #[trigger] entries[i];
        assert(entries[i].0.0 == id);
    }
}

} // verus!

//! The lanes unnumbered questions are asked in: one exchange of a question
//! at a time, later asks waiting behind it in order, and nothing sent while
//! a cancel of the question waits to be confirmed.

use vstd::prelude::*;

verus! {

/// An unnumbered question the session asks: what ib_async's requests
/// without a request id ask.
#[derive(Clone, Debug, PartialEq, Eq)]
pub enum Ask {
    /// The exchanges that answer for market depth.
    MktDepthExchanges,
    /// A market rule, by its id.
    MarketRule(i32),
    /// This client's open orders.
    OpenOrders,
    /// Every open order of the account.
    AllOpenOrders,
    /// The completed orders; `api_only` limits them to the API's.
    CompletedOrders { api_only: bool },
    /// An account's values and portfolio.
    AccountUpdates { account: String },
    /// The positions.
    Positions,
    /// A financial advisor configuration, by its kind.
    Fa(i32),
    /// The scanner's parameters.
    ScannerParameters,
    /// The news providers.
    NewsProviders,
    /// The venue's clock.
    CurrentTime,
}

/// The lane a question is asked in: one per kind of question.
#[derive(Clone, Copy, Debug, PartialEq, Eq, Hash, Structural)]
pub enum Question {
    /// Market depth exchanges.
    MktDepthExchanges,
    /// Market rules.
    MarketRule,
    /// This client's open orders.
    OpenOrders,
    /// Every open order.
    AllOpenOrders,
    /// Completed orders.
    CompletedOrders,
    /// Account updates.
    AccountUpdates,
    /// Positions.
    Positions,
    /// Financial advisor configurations.
    Fa,
    /// Scanner parameters.
    ScannerParameters,
    /// News providers.
    NewsProviders,
    /// The current time.
    CurrentTime,
}

/// The lane of `a`.
pub open spec fn lane_of(a: Ask) -> Question {
    match a {
        Ask::MktDepthExchanges => Question::MktDepthExchanges,
        Ask::MarketRule(_) => Question::MarketRule,
        Ask::OpenOrders => Question::OpenOrders,
        Ask::AllOpenOrders => Question::AllOpenOrders,
        Ask::CompletedOrders { .. } => Question::CompletedOrders,
        Ask::AccountUpdates { .. } => Question::AccountUpdates,
        Ask::Positions => Question::Positions,
        Ask::Fa(_) => Question::Fa,
        Ask::ScannerParameters => Question::ScannerParameters,
        Ask::NewsProviders => Question::NewsProviders,
        Ask::CurrentTime => Question::CurrentTime,
    }
}

/// The number of lanes.
pub open spec fn lane_count() -> nat {
    11
}

/// The index of lane `q`.
pub open spec fn lane_index(q: Question) -> nat {
    match q {
        Question::MktDepthExchanges => 0,
        Question::MarketRule => 1,
        Question::OpenOrders => 2,
        Question::AllOpenOrders => 3,
        Question::CompletedOrders => 4,
        Question::AccountUpdates => 5,
        Question::Positions => 6,
        Question::Fa => 7,
        Question::ScannerParameters => 8,
        Question::NewsProviders => 9,
        Question::CurrentTime => 10,
    }
}

impl Ask {
    /// The lane the question is asked in.
    pub fn lane(&self) -> (r: Question)
        ensures
            r == lane_of(*self),
    {
        match self {
            Ask::MktDepthExchanges => Question::MktDepthExchanges,
            Ask::MarketRule(_) => Question::MarketRule,
            Ask::OpenOrders => Question::OpenOrders,
            Ask::AllOpenOrders => Question::AllOpenOrders,
            Ask::CompletedOrders { .. } => Question::CompletedOrders,
            Ask::AccountUpdates { .. } => Question::AccountUpdates,
            Ask::Positions => Question::Positions,
            Ask::Fa(_) => Question::Fa,
            Ask::ScannerParameters => Question::ScannerParameters,
            Ask::NewsProviders => Question::NewsProviders,
            Ask::CurrentTime => Question::CurrentTime,
        }
    }
}

impl Question {
    /// The lane's index.
    pub fn index(&self) -> (r: usize)
        ensures
            r == lane_index(*self),
    {
        match self {
            Question::MktDepthExchanges => 0,
            Question::MarketRule => 1,
            Question::OpenOrders => 2,
            Question::AllOpenOrders => 3,
            Question::CompletedOrders => 4,
            Question::AccountUpdates => 5,
            Question::Positions => 6,
            Question::Fa => 7,
            Question::ScannerParameters => 8,
            Question::NewsProviders => 9,
            Question::CurrentTime => 10,
        }
    }
}

/// One lane: whether an exchange is out, whether a cancel waits to be
/// confirmed, and the asks waiting, oldest first.
pub struct Lane {
    /// An exchange of the question is out and not yet answered.
    pub in_flight: bool,
    /// A cancel of the question is out and not yet confirmed.
    pub retiring: bool,
    /// The asks waiting their turn, oldest first.
    pub waiting: Vec<Ask>,
}

/// What a lane holds, as values.
pub struct LaneView {
    /// An exchange is out.
    pub in_flight: bool,
    /// A cancel waits to be confirmed.
    pub retiring: bool,
    /// The asks waiting, oldest first.
    pub waiting: Seq<Ask>,
}

impl Lane {
    /// The lane as values.
    pub open spec fn view(&self) -> LaneView {
        LaneView { in_flight: self.in_flight, retiring: self.retiring, waiting: self.waiting@ }
    }
}

/// Whether a lane may send now: nothing out, and no cancel waiting.
pub open spec fn lane_free(l: LaneView) -> bool {
    !l.in_flight && !l.retiring
}

/// A lane after `a` is asked in it, and the ask it sends now, if any.
pub open spec fn ask_step(l: LaneView, a: Ask) -> (LaneView, Option<Ask>) {
    if lane_free(l) {
        (LaneView { in_flight: true, ..l }, Some(a))
    } else {
        (LaneView { waiting: l.waiting.push(a), ..l }, None)
    }
}

/// A lane after its exchange is answered, and the ask it sends next.
pub open spec fn answered_step(l: LaneView) -> (LaneView, Option<Ask>) {
    if !l.retiring && l.waiting.len() > 0 {
        (LaneView { in_flight: true, retiring: false, waiting: l.waiting.drop_first() }, Some(l.waiting[0]))
    } else {
        (LaneView { in_flight: false, ..l }, None)
    }
}

/// A lane after a cancel of its question: nothing out, nothing waiting,
/// and the cancel to be confirmed.
pub open spec fn cancel_step(l: LaneView) -> LaneView {
    LaneView { in_flight: false, retiring: true, waiting: Seq::empty() }
}

/// A lane after its cancel is confirmed, and the ask it sends next.
pub open spec fn retired_step(l: LaneView) -> (LaneView, Option<Ask>) {
    if l.waiting.len() > 0 {
        (LaneView { in_flight: true, retiring: false, waiting: l.waiting.drop_first() }, Some(l.waiting[0]))
    } else {
        (LaneView { retiring: false, ..l }, None)
    }
}

/// What every lane keeps: an ask waits only behind an exchange out or a
/// cancel waiting, and a cancel waiting leaves no exchange out.
pub open spec fn lane_ok(l: LaneView) -> bool {
    &&& l.retiring ==> !l.in_flight
    &&& l.waiting.len() > 0 ==> (l.in_flight || l.retiring)
}

/// The number of asks waiting in `lanes`.
pub open spec fn waiting_total(lanes: Seq<LaneView>) -> nat
    decreases lanes.len(),
{
    if lanes.len() == 0 {
        0
    } else {
        waiting_total(lanes.drop_last()) + lanes.last().waiting.len()
    }
}

/// The lanes a session asks its questions in.
pub struct Lanes {
    lanes: Vec<Lane>,
}

impl Lanes {
    /// The lanes as values, by index.
    pub closed spec fn view(&self) -> Seq<LaneView> {
        self.lanes@.map_values(|l: Lane| l.view())
    }

    /// There is one lane for each kind of question.
    pub closed spec fn wf(&self) -> bool {
        self.lanes@.len() == lane_count()
    }

    /// The lane of `q`, as values.
    pub open spec fn lane(&self, q: Question) -> LaneView {
        self.view()[lane_index(q) as int]
    }

    /// Every lane free and empty.
    pub fn new() -> (r: Lanes)
        ensures
            r.wf(),
            forall|q: Question| #![auto] r.lane(q) == (LaneView { in_flight: false, retiring: false, waiting: Seq::<Ask>::empty() }),
    {
        let mut lanes: Vec<Lane> = Vec::new();
        let mut i: usize = 0;
        while i < 11
            invariant
                i <= 11,
                lanes@.len() == i,
                forall|k: int| 0 <= k < i ==> (#[trigger] lanes@[k]).view() == (LaneView { in_flight: false, retiring: false, waiting: Seq::<Ask>::empty() }),
            decreases 11 - i,
        {
            lanes.push(Lane { in_flight: false, retiring: false, waiting: Vec::new() });
            i += 1;
        }
        let r = Lanes { lanes };
        assert forall|q: Question| #![auto] r.lane(q) == LaneView { in_flight: false, retiring: false, waiting: Seq::<Ask>::empty() } by {
            assert(lane_index(q) < 11);
        }
        r
    }

    /// Takes the lane of `q` out, leaving an empty one in its place.
    fn take(&mut self, q: Question) -> (r: Lane)
        requires
            old(self).wf(),
        ensures
            final(self).wf(),
            r.view() == old(self).lane(q),
            forall|p: Question| p != q ==> #[trigger] final(self).lane(p) == old(self).lane(p),
    {
        let i = q.index();
        let mut out = Lane { in_flight: false, retiring: false, waiting: Vec::new() };
        std::mem::swap(&mut out, &mut self.lanes[i]);
        proof {
            assert forall|p: Question| p != q implies #[trigger] self.lane(p) == old(self).lane(p) by {
                lemma_index_injective(p, q);
            }
        }
        out
    }

    /// Puts `l` back as the lane of `q`.
    fn put(&mut self, q: Question, l: Lane)
        requires
            old(self).wf(),
        ensures
            final(self).wf(),
            final(self).lane(q) == l.view(),
            forall|p: Question| p != q ==> #[trigger] final(self).lane(p) == old(self).lane(p),
    {
        let i = q.index();
        self.lanes.set(i, l);
        proof {
            assert forall|p: Question| p != q implies #[trigger] self.lane(p) == old(self).lane(p) by {
                lemma_index_injective(p, q);
            }
        }
    }

    /// Asks `a` in its lane: sent now when the lane is free, otherwise
    /// waiting behind what is there. Gives the ask to send now, if any.
    pub fn ask(&mut self, a: Ask) -> (r: Option<Ask>)
        requires
            old(self).wf(),
        ensures
            final(self).wf(),
            (final(self).lane(lane_of(a)), r) == ask_step(old(self).lane(lane_of(a)), a),
            forall|p: Question| p != lane_of(a) ==> #[trigger] final(self).lane(p) == old(self).lane(p),
    {
        let q = a.lane();
        let mut l = self.take(q);
        let r = if !l.in_flight && !l.retiring {
            l.in_flight = true;
            Some(a)
        } else {
            l.waiting.push(a);
            None
        };
        self.put(q, l);
        r
    }

    /// The exchange out in the lane of `q` is answered: the oldest ask
    /// waiting, if any, is sent next.
    pub fn answered(&mut self, q: Question) -> (r: Option<Ask>)
        requires
            old(self).wf(),
        ensures
            final(self).wf(),
            (final(self).lane(q), r) == answered_step(old(self).lane(q)),
            forall|p: Question| p != q ==> #[trigger] final(self).lane(p) == old(self).lane(p),
    {
        let mut l = self.take(q);
        let r = if !l.retiring && l.waiting.len() > 0 {
            let next = l.waiting.remove(0);
            l.in_flight = true;
            Some(next)
        } else {
            l.in_flight = false;
            None
        };
        self.put(q, l);
        r
    }

    /// A cancel of `q`: every ask waiting is withdrawn, and the lane sends
    /// nothing more until the cancel is confirmed.
    pub fn cancel(&mut self, q: Question) -> (withdrawn: Vec<Ask>)
        requires
            old(self).wf(),
        ensures
            final(self).wf(),
            final(self).lane(q) == cancel_step(old(self).lane(q)),
            withdrawn@ == old(self).lane(q).waiting,
            forall|p: Question| p != q ==> #[trigger] final(self).lane(p) == old(self).lane(p),
    {
        let mut l = self.take(q);
        let mut withdrawn: Vec<Ask> = Vec::new();
        std::mem::swap(&mut withdrawn, &mut l.waiting);
        l.in_flight = false;
        l.retiring = true;
        self.put(q, l);
        withdrawn
    }

    /// The engine confirms the cancel of `q`: the lane is free again, and
    /// the oldest ask waiting, if any, is sent.
    pub fn retired(&mut self, q: Question) -> (r: Option<Ask>)
        requires
            old(self).wf(),
        ensures
            final(self).wf(),
            (final(self).lane(q), r) == retired_step(old(self).lane(q)),
            forall|p: Question| p != q ==> #[trigger] final(self).lane(p) == old(self).lane(p),
    {
        let mut l = self.take(q);
        l.retiring = false;
        let r = if l.waiting.len() > 0 {
            let next = l.waiting.remove(0);
            l.in_flight = true;
            Some(next)
        } else {
            None
        };
        self.put(q, l);
        r
    }

    /// The number of asks waiting in every lane, up to the largest count.
    pub fn unsent(&self) -> (r: usize)
        requires
            self.wf(),
        ensures
            r == (if waiting_total(self.view()) <= usize::MAX {
                waiting_total(self.view())
            } else {
                usize::MAX as nat
            }),
    {
        let mut n: usize = 0;
        let mut i: usize = 0;
        while i < self.lanes.len()
            invariant
                i <= self.lanes.len(),
                n == (if waiting_total(self.view().take(i as int)) <= usize::MAX {
                    waiting_total(self.view().take(i as int))
                } else {
                    usize::MAX as nat
                }),
            decreases self.lanes.len() - i,
        {
            proof {
                assert(self.view().take(i + 1).drop_last() =~= self.view().take(i as int));
                assert(self.view().take(i + 1).last() == self.lanes@[i as int].view());
            }
            let w = self.lanes[i].waiting.len();
            if n <= usize::MAX - w {
                n = n + w;
            } else {
                n = usize::MAX;
            }
            i += 1;
        }
        assert(self.view().take(self.view().len() as int) =~= self.view());
        n
    }
}

/// Distinct lanes have distinct indices.
pub proof fn lemma_index_injective(p: Question, q: Question)
    ensures
        p != q ==> lane_index(p) != lane_index(q),
        lane_index(p) < lane_count(),
{
}

/// Every step keeps a lane well kept: a lane that starts free and empty
/// never has an ask waiting with nothing out or to be confirmed, and never
/// an exchange out while a cancel waits.
pub proof fn law_steps_keep_lanes(l: LaneView, a: Ask)
    requires
        lane_ok(l),
    ensures
        lane_ok(ask_step(l, a).0),
        lane_ok(answered_step(l).0),
        lane_ok(cancel_step(l)),
        lane_ok(retired_step(l).0) || (l.in_flight && l.waiting.len() == 0),
{
}

/// One exchange of a question at a time, in order: of two asks in a free
/// lane the first is sent and the second waits, and the second is sent
/// when the first is answered.
pub proof fn law_asks_go_one_at_a_time_in_order(l: LaneView, a: Ask, b: Ask)
    requires
        lane_free(l),
        l.waiting.len() == 0,
    ensures
        ask_step(l, a).1 == Some(a),
        ask_step(ask_step(l, a).0, b).1 is None,
        answered_step(ask_step(ask_step(l, a).0, b).0).1 == Some(b),
        answered_step(answered_step(ask_step(ask_step(l, a).0, b).0).0).1 is None,
{
    let l1 = ask_step(l, a).0;
    let l2 = ask_step(l1, b).0;
    assert(l2.waiting == seq![b]);
    assert(answered_step(l2).0.waiting == Seq::<Ask>::empty());
}

/// A cancel withdraws every ask waiting, an ask after it waits until the
/// cancel is confirmed, and the confirmation sends it.
pub proof fn law_a_cancel_holds_the_lane_until_confirmed(l: LaneView, a: Ask)
    ensures
        cancel_step(l).waiting.len() == 0,
        ask_step(cancel_step(l), a).1 is None,
        retired_step(ask_step(cancel_step(l), a).0).1 == Some(a),
        !retired_step(ask_step(cancel_step(l), a).0).0.retiring,
{
    assert(ask_step(cancel_step(l), a).0.waiting == seq![a]);
}

} // verus!

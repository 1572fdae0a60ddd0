//! Shared values updated in place, as ib_async's objects are.
//!
//! ib_async hands out one object and changes it where it lies. Here that
//! object is a [`Live`] handle. While an IB holds it, its events run on the
//! thread that runs the IB; before that, and once no IB holds it, they run
//! on the caller.

use vstd::prelude::*;
use vstd::rwlock::{RwLock, RwLockPredicate};
use std::sync::Arc;

use crate::error::Error;
use crate::event::{share, Event, Rebuild, Rebuilt, Weaken};
use crate::routing::{HolderRef, Job, Route};
use crate::shared::{self, arc_same, WeakArc, Waited};
use std::sync::mpsc::Sender;

verus! {

/// The events a live type carries, made with each object.
pub trait Storage {
    /// The type's events; `()` for a type with none.
    type Events: Send + Sync + 'static;
    /// Makes a new object's events.
    fn events(maker: &Maker) -> Self::Events;
}

/// Makes an object's events.
pub struct Maker(WeakArc<Box<dyn Route>>);

impl Maker {
    /// An object event named `name`, as ib_async names it: run on the
    /// thread that runs an IB while the object is bound, and keeping its
    /// last value with the object held weakly.
    pub fn event<P: Weaken + Clone>(&self, name: &str) -> (r: Event<P>)
        ensures
            r.spec_name() == name@,
            r.has_subs(),
    {
        Event::object(name, self.0.duplicate())
    }
}

/// A type ib_async shares and changes in place, held as [`Live`]: `Ticker`,
/// `Trade`, `PnL`, `PnLSingle`, `BarDataList`, `RealTimeBarList`,
/// `ScanDataList`, `Order`, `CommissionReport` and `BarList`.
pub trait Observed: Storage + Clone + Send + Sync + 'static {}

/// The IBs that hold an object, in the order they took it, none twice.
pub struct HolderList {
    list: RwLock<Vec<HolderRef>, AnyHolders>,
}

/// Any list of holders is acceptable.
pub struct AnyHolders;

impl RwLockPredicate<Vec<HolderRef>> for AnyHolders {
    open spec fn inv(self, v: Vec<HolderRef>) -> bool {
        true
    }
}

/// `list` less the entry at `i`.
fn remove_at(list: &mut Vec<HolderRef>, i: usize)
    requires
        i < old(list).len(),
    ensures
        final(list)@ == old(list)@.remove(i as int),
{
    let _ = list.remove(i);
}

/// The index of the holder `h` in `list`, by identity.
fn index_of(list: &Vec<HolderRef>, h: &HolderRef) -> (r: Option<usize>)
    ensures
        r matches Some(i) ==> i < list.len() && list@[i as int] == *h,
{
    let mut i: usize = 0;
    while i < list.len()
        invariant
            i <= list.len(),
        decreases list.len() - i,
    {
        if arc_same(&list[i], h) {
            return Some(i);
        }
        i += 1;
    }
    None
}

impl Route for HolderList {
    fn post(&self, job: Box<dyn Job>) -> Option<Box<dyn Job>> {
        let holders = self.holders();
        let mut job = job;
        let mut i: usize = 0;
        while i < holders.len()
            invariant
                i <= holders.len(),
            decreases holders.len() - i,
        {
            let h = &holders[i];
            if h.is_active() {
                match h.push_control(job) {
                    Ok(()) => {
                        return None;
                    },
                    Err(back) => {
                        job = back;
                        // Its queue closed meanwhile: it holds the object no
                        // more.
                        let (mut list, w) = self.list.acquire_write();
                        if let Some(k) = index_of(&list, h) {
                            remove_at(&mut list, k);
                        }
                        w.release_write(list);
                    },
                }
            }
            i += 1;
        }
        Some(job)
    }

    fn holders(&self) -> Vec<HolderRef> {
        let r = self.list.acquire_read();
        let list = r.borrow();
        let mut out: Vec<HolderRef> = Vec::new();
        let mut i: usize = 0;
        while i < list.len()
            invariant
                i <= list.len(),
            decreases list.len() - i,
        {
            out.push(share(&list[i]));
            i += 1;
        }
        r.release_read();
        out
    }
}

impl HolderList {
    /// Adds `holder` unless it already holds the object.
    fn bind(&self, holder: HolderRef) {
        let (mut list, w) = self.list.acquire_write();
        if index_of(&list, &holder).is_none() {
            list.push(holder);
        }
        w.release_write(list);
    }

    /// Whether an IB whose queue is open holds the object.
    fn held(&self) -> bool {
        let hs = self.holders();
        let mut i: usize = 0;
        while i < hs.len()
            invariant
                i <= hs.len(),
            decreases hs.len() - i,
        {
            if hs[i].is_active() {
                return true;
            }
            i += 1;
        }
        false
    }

    /// Whether the calling thread runs an IB that holds the object.
    fn on_owner(&self) -> bool {
        let hs = self.holders();
        let mut i: usize = 0;
        while i < hs.len()
            invariant
                i <= hs.len(),
            decreases hs.len() - i,
        {
            if hs[i].on_owner() {
                return true;
            }
            i += 1;
        }
        false
    }

    /// How many IBs hold the object.
    fn count(&self) -> usize {
        let r = self.list.acquire_read();
        let n = r.borrow().len();
        r.release_read();
        n
    }
}

/// An object's value and its revision, bumped by every write.
pub struct CellValue<T> {
    /// The value as last written.
    pub value: Arc<T>,
    /// How many writes the object has taken, up to the largest count.
    pub revision: u64,
}

impl<T> CellValue<T> {
    /// Counts one more write.
    pub fn bump(&mut self)
        ensures
            final(self).value == old(self).value,
            final(self).revision == if old(self).revision < u64::MAX { old(self).revision + 1 } else { u64::MAX as int },
    {
        if self.revision < u64::MAX {
            self.revision = self.revision + 1;
        }
    }
}

/// The refusal of an edit whose object was written while it ran.
pub open spec fn changed_while_editing() -> Seq<char> {
    "the object changed while the edit ran"@
}

/// Whether an edit's copy is written: the object's revision is still the
/// one the edit started from and, where the copy is the program's, no IB
/// holds the object now.
pub open spec fn edit_lands(started: u64, now: u64, unbound: bool, held: bool) -> bool {
    started == now && !(unbound && held)
}

impl<T> CellValue<T> {
    /// Writes an edit's `copy`, counting the write, where [`edit_lands`]:
    /// the edit started at revision `started`, `unbound` says the copy is
    /// the program's, and `held` that an IB holds the object now.
    pub fn accept(&mut self, copy: T, started: u64, unbound: bool, held: bool) -> (r: bool)
        ensures
            r == edit_lands(started, old(self).revision, unbound, held),
            r ==> *final(self).value == copy && final(self).revision == (if old(self).revision
                < u64::MAX {
                old(self).revision + 1
            } else {
                u64::MAX as int
            }),
            !r ==> final(self).value == old(self).value && final(self).revision == old(
                self,
            ).revision,
    {
        if self.revision == started && !(unbound && held) {
            self.value = Arc::new(copy);
            self.bump();
            true
        } else {
            false
        }
    }
}

/// Any value is acceptable.
pub struct AnyValue;

impl<T> RwLockPredicate<CellValue<T>> for AnyValue {
    open spec fn inv(self, v: CellValue<T>) -> bool {
        true
    }
}

/// An object's state: its value, the IBs that hold it, and its events.
#[verifier::reject_recursive_types(T)]
pub struct Cell<T: Observed> {
    value: RwLock<CellValue<T>, AnyValue>,
    holders: Arc<HolderList>,
    route: Arc<Box<dyn Route>>,
    events: T::Events,
}

/// Changes the value behind `a` with `f`, copying it first only while
/// another handle reads it: `Arc::make_mut`, then the crate's own write.
#[verifier::external_body]
fn write_shared<T: Clone, R, F: FnOnce(&mut T) -> R>(a: &mut Arc<T>, f: F) -> R {
    f(Arc::make_mut(a))
}

/// Runs the program's edit `f` on `v`. The edit is the program's code:
/// nothing is claimed of what it does.
#[verifier::external_body]
fn call_edit<T, F: FnOnce(&mut T)>(f: F, v: &mut T) {
    f(v)
}

/// The address of `a`'s value, as an identity.
#[verifier::external_body]
fn address_of<T>(a: &Arc<T>) -> usize {
    Arc::as_ptr(a).addr()
}

/// A shared handle to a value ib_async updates in place. Cloning gives
/// another handle to the same object.
///
/// Reads are snapshots: [`read`](Live::read) gives the value as last
/// written, never a guard. A write while a reader still holds a snapshot
/// copies the value once.
#[verifier::reject_recursive_types(T)]
pub struct Live<T: Observed>(Arc<Cell<T>>);

impl<T: Observed> Clone for Live<T> {
    fn clone(&self) -> (r: Self)
        ensures
            r == *self,
    {
        Live(share(&self.0))
    }
}

impl<T: Observed> Live<T> {
    /// A new object with its events, the program's until an IB holds it: the
    /// ib_async constructor, such as `Trade()` or `BarDataList()`.
    pub fn new(value: T) -> Live<T> {
        let holders = Arc::new(HolderList {
            list: RwLock::new(Vec::new(), Ghost(AnyHolders)),
        });
        let route_box: Box<dyn Route> = Box::new(RouteTo { holders: share(&holders) });
        let route: Arc<Box<dyn Route>> = Arc::new(route_box);
        let maker = Maker(shared::downgrade(&route));
        let events = T::events(&maker);
        Live(Arc::new(Cell {
            value: RwLock::new(CellValue { value: Arc::new(value), revision: 0 }, Ghost(AnyValue)),
            holders,
            route,
            events,
        }))
    }

    /// The object's events.
    pub closed spec fn spec_events(&self) -> T::Events {
        self.0.events
    }

    /// The value as last written: an immutable snapshot.
    pub fn read(&self) -> Arc<T> {
        let r = self.0.value.acquire_read();
        let v = share(&r.borrow().value);
        r.release_read();
        v
    }

    /// Changes the value with `f`, which runs once on a copy with no lock
    /// held; the copy is written only if nothing else wrote the object
    /// meanwhile, else this is `Err(Value)`.
    ///
    /// While an IB holds the object, the write is the owner's: inline on
    /// the thread that runs a holding IB, otherwise a control in a holding
    /// IB's queue that this waits for; `Err(NotConnected)` where that IB
    /// closed before running it. Otherwise it runs on the caller, and is
    /// written only if no IB took the object meanwhile.
    pub fn edit<F: FnOnce(&mut T) + Send + 'static>(&self, f: F) -> (r: Result<(), Error>)
        ensures
            r is Ok || r == Err::<(), Error>(Error::NotConnected) || (r matches Err(Error::Value(m))
                && m@ == changed_while_editing()),
    {
        if self.0.holders.on_owner() {
            return self.edit_here(f, false);
        }
        let given_back = Arc::new(RwLock::new(false, Ghost(AnyFlag)));
        let (tx, rx) = shared::channel();
        let job = EditJob {
            live: self.clone(),
            edit: Some(f),
            given_back: share(&given_back),
            reply: tx,
        };
        let boxed: Box<dyn Job> = Box::new(job);
        match self.post(boxed) {
            None => match shared::wait(&rx) {
                Waited::Got(written) => edit_result(written),
                _ => Err(Error::NotConnected),
            },
            Some(mut back) => {
                // No holder took it: the object was the program's, and the
                // copy is written only if it still is.
                let (_, w) = given_back.acquire_write();
                w.release_write(true);
                back.run();
                match shared::take(&rx) {
                    Waited::Got(written) => edit_result(written),
                    _ => Err(Error::NotConnected),
                }
            },
        }
    }

    /// Runs `f` on a copy with no lock held and writes the copy if the
    /// revision is unchanged and, when the object was the program's, still
    /// no IB holds it. `unbound` is the caller's finding that no IB took the
    /// edit, so the copy is the program's however the object stands now;
    /// otherwise this runs on the owner, and the object was the program's if
    /// no IB with an open queue held it here.
    fn edit_here<F: FnOnce(&mut T)>(&self, f: F, unbound: bool) -> (r: Result<(), Error>)
        ensures
            r is Ok || (r matches Err(Error::Value(m)) && m@ == changed_while_editing()),
    {
        let rd = self.0.value.acquire_read();
        let unbound = unbound || !self.0.holders.held();
        let start = share(&rd.borrow().value);
        let started = rd.borrow().revision;
        rd.release_read();
        let mut copy: T = (*start).clone();
        call_edit(f, &mut copy);
        let (mut cv, w) = self.0.value.acquire_write();
        let held = self.0.holders.held();
        let written = cv.accept(copy, started, unbound, held);
        w.release_write(cv);
        edit_result(written)
    }

    /// A handle that does not keep the object alive.
    pub fn downgrade(&self) -> (r: WeakLive<T>)
        ensures
            r.object() == *self,
    {
        WeakLive(shared::downgrade(&self.0))
    }

    /// Whether `a` and `b` are the same object: ib_async's `is`.
    pub fn ptr_eq(a: &Self, b: &Self) -> (r: bool)
        ensures
            r ==> *a == *b,
    {
        arc_same(&a.0, &b.0)
    }

    /// One write of `f`, the crate's own code, under the object's lock,
    /// bumping its revision.
    pub fn update<R, F: FnOnce(&mut T) -> R>(&self, f: F) -> R {
        let (mut cv, w) = self.0.value.acquire_write();
        cv.bump();
        let r = write_shared(&mut cv.value, f);
        w.release_write(cv);
        r
    }

    /// How many writes the object has taken.
    pub fn revision(&self) -> u64 {
        let r = self.0.value.acquire_read();
        let n = r.borrow().revision;
        r.release_read();
        n
    }

    /// Adds `holder` to the IBs that hold the object, unless it holds it
    /// already.
    pub fn bind(&self, holder: HolderRef) {
        self.0.holders.bind(holder)
    }

    /// How many IBs hold the object.
    pub fn holder_count(&self) -> usize {
        self.0.holders.count()
    }

    /// The object's events.
    pub fn events(&self) -> (r: &T::Events)
        ensures
            *r == self.spec_events(),
    {
        &self.0.events
    }

    /// Admits `job` to the thread that runs the object's first active
    /// holder, or gives it back when no IB holds the object, for the caller
    /// to run.
    pub fn post(&self, job: Box<dyn Job>) -> Option<Box<dyn Job>> {
        self.0.route.post(job)
    }

    /// The object's address, for hashing by identity as ib_async's `id`.
    pub fn addr(&self) -> usize {
        address_of(&self.0)
    }
}

/// What an edit gives: done where its copy was written, else refused as
/// changed meanwhile.
fn edit_result(written: bool) -> (r: Result<(), Error>)
    ensures
        written ==> r is Ok,
        !written ==> (r matches Err(Error::Value(m)) && m@ == changed_while_editing()),
{
    if written {
        Ok(())
    } else {
        Err(Error::Value("the object changed while the edit ran".to_string()))
    }
}

/// Any flag is acceptable.
pub struct AnyFlag;

impl RwLockPredicate<bool> for AnyFlag {
    open spec fn inv(self, v: bool) -> bool {
        true
    }
}

/// An edit posted to the thread that runs a holding IB: it runs the edit
/// there, once, and sends back whether the copy was written. Given back
/// with no IB to take it, it runs on the caller, its copy the program's.
#[verifier::reject_recursive_types(T)]
struct EditJob<T: Observed, F> {
    live: Live<T>,
    edit: Option<F>,
    given_back: Arc<RwLock<bool, AnyFlag>>,
    reply: Sender<bool>,
}

impl<T: Observed, F: FnOnce(&mut T) + Send + 'static> Job for EditJob<T, F> {
    fn run(&mut self) {
        let f = self.edit.take();
        if let Some(f) = f {
            let rd = self.given_back.acquire_read();
            let unbound = *rd.borrow();
            rd.release_read();
            let r = self.live.edit_here(f, unbound);
            shared::send(&self.reply, r.is_ok());
        }
    }
}

/// The route an object's events take: its holders.
pub struct RouteTo {
    holders: Arc<HolderList>,
}

impl Route for RouteTo {
    fn post(&self, job: Box<dyn Job>) -> Option<Box<dyn Job>> {
        self.holders.post(job)
    }

    fn holders(&self) -> Vec<HolderRef> {
        self.holders.holders()
    }
}

/// A handle to a [`Live`] object that does not keep it alive: what a
/// handler captures to refer to its own object.
#[verifier::reject_recursive_types(T)]
pub struct WeakLive<T: Observed>(WeakArc<Cell<T>>);

impl<T: Observed> Clone for WeakLive<T> {
    fn clone(&self) -> (r: Self)
        ensures
            r.object() == self.object(),
    {
        WeakLive(self.0.duplicate())
    }
}

impl<T: Observed> WeakLive<T> {
    /// The object the handle was made from.
    pub closed spec fn object(&self) -> Live<T> {
        Live(self.0.target())
    }

    /// The object, while any [`Live`] handle to it remains.
    pub fn upgrade(&self) -> (r: Option<Live<T>>)
        ensures
            r matches Some(l) ==> l == self.object(),
    {
        match self.0.upgrade() {
            Some(c) => Some(Live(c)),
            None => None,
        }
    }
}

/// Rebuilds a payload that is its object alone.
#[verifier::reject_recursive_types(X)]
pub struct RebuildLive<X: Observed>(WeakLive<X>);

impl<X: Observed> RebuildLive<X> {
    /// The object the payload is rebuilt from.
    pub closed spec fn object(&self) -> Live<X> {
        self.0.object()
    }
}

impl<X: Observed> Rebuild<Live<X>> for RebuildLive<X> {
    open spec fn gives(&self, v: Live<X>) -> bool {
        v == self.object()
    }

    fn rebuild(&self) -> (r: Option<Live<X>>)
        ensures
            r matches Some(l) ==> l == self.object(),
    {
        self.0.upgrade()
    }
}

/// Rebuilds a payload of its object and one value.
#[verifier::reject_recursive_types(X)]
pub struct RebuildLive1<X: Observed, A>(WeakLive<X>, A);

impl<X: Observed, A> RebuildLive1<X, A> {
    /// The object the payload is rebuilt from.
    pub closed spec fn object(&self) -> Live<X> {
        self.0.object()
    }

    /// The value kept with the object.
    pub closed spec fn kept(&self) -> A {
        self.1
    }
}

impl<X: Observed, A: Clone + Send + Sync> Rebuild<(Live<X>, A)> for RebuildLive1<X, A> {
    open spec fn gives(&self, v: (Live<X>, A)) -> bool {
        v.0 == self.object() && cloned(self.kept(), v.1)
    }

    fn rebuild(&self) -> (r: Option<(Live<X>, A)>)
        ensures
            r matches Some((l, a)) ==> l == self.object() && cloned(self.kept(), a),
    {
        match self.0.upgrade() {
            Some(l) => Some((l, self.1.clone())),
            None => None,
        }
    }
}

/// Rebuilds a payload of its object and two values.
#[verifier::reject_recursive_types(X)]
pub struct RebuildLive2<X: Observed, A, B>(WeakLive<X>, A, B);

impl<X: Observed, A, B> RebuildLive2<X, A, B> {
    /// The object the payload is rebuilt from.
    pub closed spec fn object(&self) -> Live<X> {
        self.0.object()
    }

    /// The values kept with the object.
    pub closed spec fn kept(&self) -> (A, B) {
        (self.1, self.2)
    }
}

impl<X: Observed, A: Clone + Send + Sync, B: Clone + Send + Sync> Rebuild<(Live<X>, A, B)> for RebuildLive2<X, A, B> {
    open spec fn gives(&self, v: (Live<X>, A, B)) -> bool {
        v.0 == self.object() && cloned(self.kept().0, v.1) && cloned(self.kept().1, v.2)
    }

    fn rebuild(&self) -> (r: Option<(Live<X>, A, B)>)
        ensures
            r matches Some((l, a, b)) ==> l == self.object() && cloned(self.kept().0, a) && cloned(
                self.kept().1,
                b,
            ),
    {
        match self.0.upgrade() {
            Some(l) => Some((l, self.1.clone(), self.2.clone())),
            None => None,
        }
    }
}

impl<X: Observed> Weaken for Live<X> {
    fn weaken(&self) -> Rebuilt<Self> {
        let rb = RebuildLive(self.downgrade());
        let b: Box<dyn Rebuild<Live<X>>> = Box::new(rb);
        Arc::new(b)
    }
}

impl<X: Observed, A: Clone + Send + Sync + 'static> Weaken for (Live<X>, A) {
    fn weaken(&self) -> Rebuilt<Self> {
        let rb = RebuildLive1(self.0.downgrade(), self.1.clone());
        let b: Box<dyn Rebuild<(Live<X>, A)>> = Box::new(rb);
        Arc::new(b)
    }
}

impl<X: Observed, A: Clone + Send + Sync + 'static, B: Clone + Send + Sync + 'static> Weaken for (Live<X>, A, B) {
    fn weaken(&self) -> Rebuilt<Self> {
        let rb = RebuildLive2(self.0.downgrade(), self.1.clone(), self.2.clone());
        let b: Box<dyn Rebuild<(Live<X>, A, B)>> = Box::new(rb);
        Arc::new(b)
    }
}

} // verus!

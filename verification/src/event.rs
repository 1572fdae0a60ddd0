//! ib_async's events: eventkit's `Event`, its handlers and subscriptions.
//!
//! An event keeps one list of slots in connection order. A handler and a
//! subscription are both slots, as eventkit's `aiter` is a connected
//! listener. `emit` calls a snapshot of that list, so a slot connected or
//! disconnected during an emission takes effect from the next one.

use vstd::prelude::*;
use vstd::rwlock::{RwLock, RwLockPredicate};
use std::sync::Arc;
use std::sync::mpsc::{Receiver, Sender};
use std::time::Duration;

use crate::routing::{HolderRef, Job, Route};
use crate::shared::{self, WeakArc, Waited};
use crate::slots::{holds_id, kept, without_id, HandlerId, Slots};
use crate::text::{chars_of, nat_text, push_chars};

verus! {

/// A handler's panic, as an event's `error_event` carries it: eventkit's
/// `(source, exception)`. It displays as the panic's message, as Python's
/// `str()` of the exception.
#[derive(Clone, Debug, PartialEq, Eq)]
pub struct HandlerError {
    /// The name of the event whose handler panicked.
    pub event: String,
    /// The panic's message.
    pub message: String,
}

impl HandlerError {
    /// The error's text: the panic's message.
    pub fn text(&self) -> (r: String)
        ensures
            r@ == self.message@,
    {
        self.message.clone()
    }
}

/// Why a [`Subscription`] gave no value.
#[derive(Clone, Debug, PartialEq, Eq)]
pub enum RecvError {
    /// Nothing is queued yet (`try_recv`).
    Empty,
    /// The time passed with nothing queued (`recv_timeout`).
    Timeout,
    /// The event is done and every value queued before was received: the
    /// end of eventkit's `aiter`.
    Done,
    /// A blocking receive on the thread that runs the event's IB, which
    /// would wait for itself.
    OwnerThread,
    /// A handler of the event panicked. eventkit's `aiter` raises the
    /// `error_event` value in its consumer, then stops; the subscription
    /// ends after this.
    Handler(HandlerError),
}

/// What a receive error displays as.
pub open spec fn recv_error_text(e: RecvError) -> Seq<char> {
    match e {
        RecvError::Empty => "no value is queued"@,
        RecvError::Timeout => "timed out"@,
        RecvError::Done => "the event is done"@,
        RecvError::OwnerThread => "This event loop is already running"@,
        RecvError::Handler(h) => h.message@,
    }
}

impl RecvError {
    /// The error's text, as `Display` writes it.
    pub fn text(&self) -> (r: String)
        ensures
            r@ == recv_error_text(*self),
    {
        match self {
            RecvError::Empty => "no value is queued".to_string(),
            RecvError::Timeout => "timed out".to_string(),
            RecvError::Done => "the event is done".to_string(),
            RecvError::OwnerThread => "This event loop is already running".to_string(),
            RecvError::Handler(h) => h.message.clone(),
        }
    }
}

/// A connected listener: a handler, or a subscription's end of its queue.
pub trait Slot<T>: Send + Sync {
    /// Hands the listener `v`.
    fn call(&self, v: &T);
    /// Whether whoever connected the listener still listens: false once a
    /// subscription is dropped.
    fn held(&self) -> bool;
}

/// Calls a handler the program connected with `v`. The handler is the
/// program's code: nothing is claimed of what it does.
#[verifier::external_body]
fn call_handler<T, F: Fn(&T)>(f: &F, v: &T) {
    f(v)
}

/// A handler the program connected.
pub struct FnSlot<F>(pub F);

impl<T, F: Fn(&T) + Send + Sync> Slot<T> for FnSlot<F> {
    fn call(&self, v: &T) {
        call_handler(&self.0, v)
    }

    fn held(&self) -> (r: bool)
        ensures
            r,
    {
        true
    }
}

/// An object event's last value, rebuilt while its object lives.
pub trait Rebuild<T>: Send + Sync {
    /// Whether `v` is a value the rebuilder gives back.
    spec fn gives(&self, v: T) -> bool;

    /// The value, or `None` once its object is gone.
    fn rebuild(&self) -> (r: Option<T>)
        ensures
            r matches Some(v) ==> self.gives(v),
    ;
}

/// A shared rebuilder of an object event's last value.
pub type Rebuilt<T> = Arc<Box<dyn Rebuild<T>>>;

/// An object event's payload, which begins with its own object.
pub trait Weaken: Send + Sync + 'static {
    /// The payload with its object held weakly.
    fn weaken(&self) -> Rebuilt<Self>;
}

/// How an event keeps its last value weakly.
pub trait WeakenValue<T>: Send + Sync {
    /// `v` with its object held weakly.
    fn weaken_value(&self, v: &T) -> Rebuilt<T>;
}

/// Keeps a payload weakly by its own `Weaken`.
pub struct ByWeaken;

impl<T: Weaken> WeakenValue<T> for ByWeaken {
    fn weaken_value(&self, v: &T) -> Rebuilt<T> {
        v.weaken()
    }
}

/// A connected listener, shared with the emissions that call it.
pub type Handler<T> = Arc<Box<dyn Slot<T>>>;

/// Another handle to a shared value: `Arc::clone`.
#[verifier::external_body]
pub(crate) fn share<X: ?Sized>(a: &Arc<X>) -> (r: Arc<X>)
    ensures
        r == *a,
{
    a.clone()
}

/// An event's last value.
#[verifier::reject_recursive_types(T)]
pub enum Last<T> {
    /// Nothing emitted yet.
    Nothing,
    /// The last value emitted, shared so that a reader clones it with no
    /// lock held.
    Value(Arc<T>),
    /// An object event's last value, its own object held weakly.
    Rebuild(Rebuilt<T>),
}

/// An event's state: its slots, its last value and whether it is done.
#[verifier::reject_recursive_types(T)]
pub struct EventCore<T> {
    /// The slots in connection order.
    pub slots: Slots<Handler<T>>,
    /// The last value emitted.
    pub last: Last<T>,
    /// `set_done` has run.
    pub done: bool,
}

impl<T> EventCore<T> {
    /// The slots are well formed.
    pub open spec fn wf(&self) -> bool {
        self.slots.wf()
    }

    /// A new event's state: no slot, no value, not done.
    pub fn new() -> (r: EventCore<T>)
        ensures
            r.wf(),
            r.slots.view().len() == 0,
            r.last is Nothing,
            !r.done,
    {
        EventCore { slots: Slots::new(), last: Last::Nothing, done: false }
    }

    /// Records `last` as the last value, and gives the slots an emission
    /// calls, those connected now, in order, with the last value it held
    /// before, for the caller to drop once the lock is released.
    pub fn begin_emit(&mut self, last: Last<T>) -> (r: (Vec<(HandlerId, Handler<T>)>, Last<T>))
        requires
            old(self).wf(),
        ensures
            final(self).wf(),
            final(self).slots == old(self).slots,
            final(self).done == old(self).done,
            final(self).last == last,
            r.0@ == old(self).slots.view(),
            r.1 == old(self).last,
    {
        let mut displaced = last;
        std::mem::swap(&mut self.last, &mut displaced);
        let entries = self.slots.entries();
        let mut r: Vec<(HandlerId, Handler<T>)> = Vec::new();
        let mut i: usize = 0;
        while i < entries.len()
            invariant
                i <= entries.len(),
                entries@ == self.slots.view(),
                r@ == entries@.subrange(0, i as int),
            decreases entries.len() - i,
        {
            let (id, h) = &entries[i];
            r.push((*id, share(h)));
            i += 1;
            assert(r@ == entries@.subrange(0, i as int));
        }
        (r, displaced)
    }

    /// Marks the event done, giving whether it already was.
    pub fn finish(&mut self) -> (was: bool)
        requires
            old(self).wf(),
        ensures
            final(self).wf(),
            final(self).done,
            was == old(self).done,
            final(self).slots == old(self).slots,
            final(self).last == old(self).last,
    {
        let was = self.done;
        self.done = true;
        was
    }

    /// Drops the slots whose listener has gone, keeping the rest in order.
    pub fn prune(&mut self)
        requires
            old(self).wf(),
        ensures
            final(self).wf(),
            final(self).done == old(self).done,
            final(self).slots.next_id() == old(self).slots.next_id(),
            final(self).slots.view().len() <= old(self).slots.view().len(),
            final(self).last == old(self).last,
            exists|keep: Seq<bool>|
                keep.len() == old(self).slots.view().len() && final(self).slots.view() == kept(
                    old(self).slots.view(),
                    keep,
                ),
    {
        let ghost before = self.slots.view();
        let mut keep: Vec<bool> = Vec::new();
        let entries = self.slots.entries();
        let mut i: usize = 0;
        while i < entries.len()
            invariant
                i <= entries.len(),
                keep@.len() == i,
            decreases entries.len() - i,
        {
            keep.push(entries[i].1.held());
            i += 1;
        }
        let _gone = self.slots.retain(&keep);
        proof {
            crate::slots::lemma_kept_sub(before, keep@);
            assert(keep@.len() == before.len() && self.slots.view() == kept(before, keep@));
        }
    }
}

impl<T> EventCore<T> {
    /// Whether `id` names a slot, once the slots whose listener has gone are
    /// dropped.
    pub fn holds(&mut self, id: HandlerId) -> (r: bool)
        requires
            old(self).wf(),
        ensures
            final(self).wf(),
            final(self).done == old(self).done,
            final(self).last == old(self).last,
            final(self).slots.next_id() == old(self).slots.next_id(),
            exists|keep: Seq<bool>|
                keep.len() == old(self).slots.view().len() && final(self).slots.view() == kept(
                    old(self).slots.view(),
                    keep,
                ),
            r == holds_id(final(self).slots.view(), id.0),
    {
        self.prune();
        self.slots.contains(id)
    }

    /// Disconnects the slot named `id`, once the slots whose listener has
    /// gone are dropped, giving it back if it was connected: it is given
    /// exactly when `id` named a slot that was kept.
    pub fn remove(&mut self, id: HandlerId) -> (r: Option<Handler<T>>)
        requires
            old(self).wf(),
        ensures
            final(self).wf(),
            final(self).done == old(self).done,
            final(self).last == old(self).last,
            final(self).slots.next_id() == old(self).slots.next_id(),
            exists|keep: Seq<bool>|
                keep.len() == old(self).slots.view().len() && ({
                    let pruned = kept(old(self).slots.view(), keep);
                    &&& r is Some == holds_id(pruned, id.0)
                    &&& final(self).slots.view() == without_id(pruned, id.0)
                }),
            !holds_id(final(self).slots.view(), id.0),
    {
        let ghost before = self.slots.view();
        self.prune();
        let ghost pruned = self.slots.view();
        let ghost keep = choose|keep: Seq<bool>| keep.len() == before.len() && pruned == kept(before, keep);
        let r = self.slots.disconnect(id);
        assert(keep.len() == before.len() && pruned == kept(before, keep));
        r
    }
}

/// The event's state is well formed.
pub struct CoreWf;

impl<T> RwLockPredicate<EventCore<T>> for CoreWf {
    open spec fn inv(self, c: EventCore<T>) -> bool {
        c.wf()
    }
}

/// Where an event's emissions run.
pub enum Home {
    /// The program's event: on the thread that emits.
    Program,
    /// An IB's event: on the thread that runs the IB, reached from other
    /// threads through the IB's queue.
    Ib(HolderRef),
    /// An object's event: on the thread that runs an IB while the object is
    /// bound, reached through its holders; on the caller once it is the
    /// program's again.
    Object(WeakArc<Box<dyn Route>>),
}

/// Whether two homes are one: both the program's, one IB, or one object's
/// route.
pub open spec fn same_home(a: Home, b: Home) -> bool {
    match (a, b) {
        (Home::Program, Home::Program) => true,
        (Home::Ib(x), Home::Ib(y)) => x == y,
        (Home::Object(x), Home::Object(y)) => x.target() == y.target(),
        _ => false,
    }
}

impl Home {
    /// The same home.
    pub fn duplicate(&self) -> (r: Home)
        ensures
            same_home(r, *self),
    {
        match self {
            Home::Program => Home::Program,
            Home::Ib(h) => Home::Ib(share(h)),
            Home::Object(r) => Home::Object(r.duplicate()),
        }
    }
}

/// An event's fixed parts and its state.
#[verifier::reject_recursive_types(T)]
pub struct EventInner<T> {
    name: String,
    state: RwLock<EventCore<T>, CoreWf>,
    error_event: Option<Event<HandlerError>>,
    done_event: Option<Event<()>>,
    home: Home,
    weaken: Option<Arc<Box<dyn WeakenValue<T>>>>,
}

impl<T> EventInner<T> {
    /// An event's own `error_event` and `done_event` have none of their
    /// own.
    #[verifier::type_invariant]
    spec fn subs_are_plain(self) -> bool {
        &&& (self.error_event matches Some(e) ==> e.0.error_event is None && e.0.done_event is None)
        &&& (self.done_event matches Some(d) ==> d.0.error_event is None && d.0.done_event is None)
    }
}

/// An event that handlers connect to and subscriptions receive from:
/// eventkit's `Event`.
///
/// Cloning gives another handle to the same event. On an IB's event, or on
/// an object event of an object an IB holds, `emit` and `set_done` run on
/// the thread that runs the IB: inline there, and from any other thread as
/// a control in its queue. Any other event runs its slots on the thread
/// that emits.
#[verifier::reject_recursive_types(T)]
pub struct Event<T>(Arc<EventInner<T>>);

impl<T> Clone for Event<T> {
    fn clone(&self) -> (r: Self)
        ensures
            r == *self,
    {
        Event(share(&self.0))
    }
}

/// An event's debug form, `Event { name: "…", slots: n }`.
pub open spec fn debug_form(name: Seq<char>, slots: nat) -> Seq<char> {
    "Event { name: \""@ + name + "\", slots: "@ + nat_text(slots) + " }"@
}

/// The name an event with an empty name takes, as eventkit names an unnamed
/// event after its class.
pub open spec fn event_name(name: Seq<char>) -> Seq<char> {
    if name.len() == 0 { "Event"@ } else { name }
}

/// Emits a value on an event, on the thread that runs it.
#[verifier::reject_recursive_types(T)]
pub struct EmitJob<T: Clone + Send + Sync + 'static> {
    event: Event<T>,
    value: Option<T>,
}

impl<T: Clone + Send + Sync + 'static> EmitJob<T> {
    /// Whether the value is still to be emitted.
    pub closed spec fn pending(&self) -> bool {
        self.value is Some
    }

    /// The event the value is emitted on.
    pub closed spec fn target(&self) -> Event<T> {
        self.event
    }
}

impl<T: Clone + Send + Sync + 'static> Job for EmitJob<T> {
    /// Emits the value, once: the job holds it no more.
    fn run(&mut self)
        ensures
            !final(self).pending(),
            final(self).target() == old(self).target(),
    {
        let v = self.value.take();
        if let Some(v) = v {
            self.event.emit_here(&v);
        }
    }
}

/// Marks an event done, on the thread that runs it.
#[verifier::reject_recursive_types(T)]
pub struct DoneJob<T: Clone + Send + Sync + 'static> {
    event: Option<Event<T>>,
}

impl<T: Clone + Send + Sync + 'static> DoneJob<T> {
    /// Whether the event is still to be marked done.
    pub closed spec fn pending(&self) -> bool {
        self.event is Some
    }
}

impl<T: Clone + Send + Sync + 'static> Job for DoneJob<T> {
    /// Marks the event done, once: the job holds it no more.
    fn run(&mut self)
        ensures
            !final(self).pending(),
    {
        let e = self.event.take();
        if let Some(e) = e {
            e.set_done_here();
        }
    }
}

impl<T: Clone + Send + Sync + 'static> Event<T> {
    /// The event's name.
    pub closed spec fn spec_name(&self) -> Seq<char> {
        self.0.name@
    }

    /// Whether the event has an `error_event` and a `done_event`.
    pub closed spec fn has_subs(&self) -> bool {
        self.0.error_event is Some && self.0.done_event is Some
    }

    /// Where the event's emissions run.
    pub closed spec fn home(&self) -> Home {
        self.0.home
    }

    /// The event's `error_event`.
    pub closed spec fn spec_error_event(&self) -> Option<Event<HandlerError>> {
        self.0.error_event
    }

    /// The event's `done_event`.
    pub closed spec fn spec_done_event(&self) -> Option<Event<()>> {
        self.0.done_event
    }

    /// An event the program owns: eventkit's `Event(name)`. An empty name
    /// is `"Event"`, as eventkit names an unnamed event after its class.
    pub fn new(name: &str) -> (r: Self)
        ensures
            r.spec_name() == event_name(name@),
            r.has_subs(),
    {
        let name = if name.is_empty() { "Event".to_string() } else { name.to_string() };
        Self::build(name, true, Home::Program, None)
    }

    /// An IB's event, run on the thread that runs the IB and reached from
    /// other threads through `holder`'s queue.
    pub fn with_holder(name: &str, holder: HolderRef) -> (r: Self)
        ensures
            r.spec_name() == name@,
            r.has_subs(),
    {
        Self::build(name.to_string(), true, Home::Ib(holder), None)
    }

    /// A helper stage's output event, run where `source`'s emissions run.
    pub fn follows<S: Clone + Send + Sync + 'static>(name: &str, source: &Event<S>) -> (r: Self)
        ensures
            r.spec_name() == name@,
            r.has_subs(),
    {
        Self::build(name.to_string(), true, source.0.home.duplicate(), None)
    }

    /// An object event: routed by its object's holders, and keeping its last
    /// value with its own object held weakly.
    pub fn object(name: &str, route: WeakArc<Box<dyn Route>>) -> (r: Self)
        where T: Weaken,
        ensures
            r.spec_name() == name@,
            r.has_subs(),
    {
        let w: Box<dyn WeakenValue<T>> = Box::new(ByWeaken);
        Self::build(name.to_string(), true, Home::Object(route), Some(Arc::new(w)))
    }

    /// An event with no `error_event` and no `done_event`: what an
    /// event's own sub-events are.
    fn build_plain(name: String, home: Home) -> (r: Self)
        ensures
            r.spec_name() == name@,
            r.spec_error_event() is None,
            r.spec_done_event() is None,
    {
        Event(Arc::new(EventInner {
            name,
            state: RwLock::new(EventCore::new(), Ghost(CoreWf)),
            error_event: None,
            done_event: None,
            home,
            weaken: None,
        }))
    }

    fn build(
        name: String,
        subs: bool,
        home: Home,
        weaken: Option<Arc<Box<dyn WeakenValue<T>>>>,
    ) -> (r: Self)
        ensures
            r.spec_name() == name@,
            subs ==> r.has_subs(),
    {
        let (error_event, done_event) = if subs {
            (
                Some(Event::<HandlerError>::build_plain("error".to_string(), home.duplicate())),
                Some(Event::<()>::build_plain("done".to_string(), home.duplicate())),
            )
        } else {
            (None, None)
        };
        Event(Arc::new(EventInner {
            name,
            state: RwLock::new(EventCore::new(), Ghost(CoreWf)),
            error_event,
            done_event,
            home,
            weaken,
        }))
    }

    /// The event's name: eventkit's `name()`.
    pub fn name(&self) -> (r: &str)
        ensures
            r@ == self.spec_name(),
    {
        self.0.name.as_str()
    }

    /// The event's debug form, `Event { name: "…", slots: n }`.
    pub fn debug_text(&self) -> (r: String)
        ensures
            exists|n: nat| r@ == debug_form(self.spec_name(), n),
    {
        let mut s = "Event { name: \"".to_string();
        push_chars(&mut s, &chars_of(self.0.name.as_str()));
        push_chars(&mut s, &chars_of("\", slots: "));
        let n = self.len();
        push_chars(&mut s, &crate::text::u128_text(n as u128));
        push_chars(&mut s, &chars_of(" }"));
        assert(s@ == debug_form(self.spec_name(), n as nat));
        s
    }

    /// Connects `slot`, giving its id.
    pub fn connect_slot(&self, slot: Handler<T>) -> HandlerId {
        let (mut core, h) = self.0.state.acquire_write();
        let id = core.slots.connect(slot);
        h.release_write(core);
        id
    }

    /// Connects `handler`, called with each value emitted: eventkit's
    /// `connect` and `+=`. A handler that must not keep its object alive
    /// captures a weak handle, since handlers are held strongly.
    pub fn connect<F: Fn(&T) + Send + Sync + 'static>(&self, handler: F) -> HandlerId {
        let b: Box<dyn Slot<T>> = Box::new(FnSlot(handler));
        self.connect_slot(Arc::new(b))
    }

    /// A receiver of every value emitted from now on: eventkit's `aiter`,
    /// `__aiter__` and `__await__`. On a done event it is already ended.
    pub fn subscribe(&self) -> (r: Subscription<T>)
        ensures
            r.event() == *self,
    {
        let (tx, rx) = shared::channel();
        let queue = Arc::new(Queue::new(tx));
        let on_error = match &self.0.error_event {
            Some(e) => {
                let b: Box<dyn Slot<HandlerError>> = Box::new(ErrorSink { queue: shared::downgrade(&queue) });
                Some(e.connect_slot(Arc::new(b)))
            },
            None => None,
        };
        let on_done = match &self.0.done_event {
            Some(e) => {
                let b: Box<dyn Slot<()>> = Box::new(DoneSink { queue: shared::downgrade(&queue) });
                Some(e.connect_slot(Arc::new(b)))
            },
            None => None,
        };
        let b: Box<dyn Slot<T>> = Box::new(ValueSink { queue: shared::downgrade(&queue) });
        let sink: Handler<T> = Arc::new(b);
        let (mut core, h) = self.0.state.acquire_write();
        let on_value = if core.done {
            None
        } else {
            Some(core.slots.connect(sink))
        };
        h.release_write(core);
        let mut sub = Subscription {
            event: self.clone(),
            queue,
            rx,
            on_value,
            on_error,
            on_done,
            end: End::Open,
        };
        if on_value.is_none() {
            sub.queue.push(Item::Done);
            sub.finish();
        }
        sub
    }

    /// Emits `value` to every slot in connection order: eventkit's `emit`,
    /// `__call__` and `emit_threadsafe`. On an event an IB runs, from
    /// another thread, it is a control in the IB's queue.
    pub fn emit(&self, value: &T) {
        if self.runs_here() {
            self.emit_here(value);
        } else {
            let job: Box<dyn Job> = Box::new(EmitJob { event: self.clone(), value: Some(value.clone()) });
            self.post(job);
        }
    }

    /// Marks the event done and emits `done_event`: eventkit's `set_done`.
    /// Handlers stay connected, and a later `emit` still reaches them;
    /// subscriptions end after their queued values. Routed like `emit`.
    pub fn set_done(&self) {
        if self.runs_here() {
            self.set_done_here();
        } else {
            let job: Box<dyn Job> = Box::new(DoneJob { event: Some(self.clone()) });
            self.post(job);
        }
    }

    /// Whether `set_done` has run: eventkit's `done()`.
    pub fn done(&self) -> bool {
        let h = self.0.state.acquire_read();
        let d = h.borrow().done;
        h.release_read();
        d
    }

    /// The last value emitted: eventkit's `value()`. An object event gives
    /// `None` once its object is gone.
    pub fn value(&self) -> Option<T> {
        let h = self.0.state.acquire_read();
        let last = match &h.borrow().last {
            Last::Nothing => Last::Nothing,
            Last::Value(v) => Last::Value(share(v)),
            Last::Rebuild(r) => Last::Rebuild(share(r)),
        };
        h.release_read();
        match last {
            Last::Nothing => None,
            Last::Value(v) => Some((*v).clone()),
            Last::Rebuild(r) => r.rebuild(),
        }
    }

    /// The number of connected handlers and subscriptions: eventkit's
    /// `len(event)`. A dropped subscription no longer counts.
    pub fn len(&self) -> usize {
        let (mut core, h) = self.0.state.acquire_write();
        core.prune();
        let n = core.slots.len();
        h.release_write(core);
        n
    }

    /// Whether nothing is connected. eventkit's `bool(event)` is always
    /// true.
    pub fn is_empty(&self) -> bool {
        self.len() == 0
    }

    /// Whether `id` is connected: eventkit's `in`.
    pub fn contains(&self, id: HandlerId) -> bool {
        let (mut core, h) = self.0.state.acquire_write();
        let r = core.holds(id);
        h.release_write(core);
        r
    }

    /// Disconnects every handler and subscription: eventkit's `clear`. It
    /// runs no slot and takes effect from the next emission.
    pub fn clear(&self) {
        let (mut core, h) = self.0.state.acquire_write();
        let _removed = core.slots.clear();
        h.release_write(core);
    }

    /// Disconnects the handler or subscription `id`: eventkit's
    /// `disconnect` and `-=`. Gives whether it was connected.
    pub fn disconnect(&self, id: HandlerId) -> bool {
        let (mut core, h) = self.0.state.acquire_write();
        let r = core.remove(id);
        h.release_write(core);
        r.is_some()
    }

    /// The event a handler's panic is emitted on: eventkit's `error_event`.
    /// `None` on an `error_event` or `done_event` itself, as in eventkit.
    pub fn error_event(&self) -> (r: Option<&Event<HandlerError>>)
        ensures
            self.has_subs() ==> r is Some,
            match self.spec_error_event() {
                Some(e) => r matches Some(x) && *x == e,
                None => r is None,
            },
            r matches Some(e) ==> e.spec_error_event() is None && e.spec_done_event() is None,
    {
        proof {
            use_type_invariant(&*self.0);
        }
        self.0.error_event.as_ref()
    }

    /// The event `set_done` emits: eventkit's `done_event`. `None` on an
    /// `error_event` or `done_event` itself, as in eventkit.
    pub fn done_event(&self) -> (r: Option<&Event<()>>)
        ensures
            self.has_subs() ==> r is Some,
            match self.spec_done_event() {
                Some(e) => r matches Some(x) && *x == e,
                None => r is None,
            },
            r matches Some(d) ==> d.spec_error_event() is None && d.spec_done_event() is None,
    {
        proof {
            use_type_invariant(&*self.0);
        }
        self.0.done_event.as_ref()
    }

    /// The IB that runs the event's emissions, if any: its own, or the
    /// first holder of its object.
    fn holder(&self) -> (r: Option<HolderRef>)
        ensures
            self.home() is Program ==> r is None,
            self.home() matches Home::Ib(h) ==> r == Some(h),
    {
        match &self.0.home {
            Home::Program => None,
            Home::Ib(h) => Some(share(h)),
            Home::Object(r) => match r.upgrade() {
                Some(r) => {
                    let hs = r.holders();
                    if hs.len() > 0 { Some(share(&hs[0])) } else { None }
                },
                None => None,
            },
        }
    }

    /// Whether emissions run on the calling thread: a program's event, or
    /// the thread that runs the event's IB.
    fn runs_here(&self) -> (r: bool)
        ensures
            self.home() is Program ==> r,
    {
        match &self.0.home {
            Home::Program => true,
            Home::Ib(h) => h.on_owner(),
            Home::Object(r) => match r.upgrade() {
                Some(r) => {
                    let hs = r.holders();
                    let mut i: usize = 0;
                    let mut here = false;
                    while i < hs.len()
                        invariant i <= hs.len(),
                        decreases hs.len() - i,
                    {
                        if hs[i].on_owner() {
                            here = true;
                        }
                        i += 1;
                    }
                    here || hs.len() == 0
                },
                None => true,
            },
        }
    }

    /// The IBs that hold what this event belongs to: its IB, or the holders
    /// of its object; none for the program's own event.
    pub fn holders(&self) -> (r: Vec<HolderRef>)
        ensures
            self.home() is Program ==> r@.len() == 0,
            self.home() matches Home::Ib(h) ==> r@ == seq![h],
    {
        match &self.0.home {
            Home::Program => Vec::new(),
            Home::Ib(h) => {
                let mut v: Vec<HolderRef> = Vec::new();
                v.push(share(h));
                assert(v@ =~= seq![*h]);
                v
            },
            Home::Object(r) => match r.upgrade() {
                Some(r) => r.holders(),
                None => Vec::new(),
            },
        }
    }

    /// Admits `job` to the thread that runs the event through its holder,
    /// or runs it here when no holder takes it.
    fn post(&self, job: Box<dyn Job>) {
        let back = match &self.0.home {
            Home::Program => Some(job),
            Home::Ib(h) => match h.push_control(job) {
                Ok(()) => None,
                Err(j) => Some(j),
            },
            Home::Object(r) => match r.upgrade() {
                Some(r) => r.post(job),
                None => Some(job),
            },
        };
        if let Some(mut j) = back {
            j.run();
        }
    }

    /// Emits on this thread: the last value is recorded, then each slot
    /// connected at the start is called in order.
    pub fn emit_here(&self, value: &T) {
        let last = match &self.0.weaken {
            Some(w) => Last::Rebuild(w.weaken_value(value)),
            None => Last::Value(Arc::new(value.clone())),
        };
        let (mut core, h) = self.0.state.acquire_write();
        let (slots, _displaced) = core.begin_emit(last);
        h.release_write(core);
        let mut i: usize = 0;
        while i < slots.len()
            invariant i <= slots.len(),
            decreases slots.len() - i,
        {
            slots[i].1.call(value);
            i += 1;
        }
    }

    /// Marks the event done on this thread, emitting nothing: what a
    /// `done_event` itself does when its event is done.
    fn mark_done_here(&self) {
        let (mut core, h) = self.0.state.acquire_write();
        let _was = core.finish();
        h.release_write(core);
    }

    /// Marks the event done on this thread, emitting `done_event` the first
    /// time.
    pub fn set_done_here(&self) {
        let (mut core, h) = self.0.state.acquire_write();
        let was = core.finish();
        h.release_write(core);
        if !was {
            if let Some(d) = &self.0.done_event {
                d.emit_here(&());
                d.mark_done_here();
            }
        }
    }
}

/// A subscription's queue end, as a queued item.
#[verifier::reject_recursive_types(T)]
pub enum Item<T> {
    /// An emitted value.
    Value(T),
    /// A handler of the event panicked.
    Error(HandlerError),
    /// The event is done.
    Done,
}

/// The counts a subscription's queue keeps: the values queued and not yet
/// received, and whether its end has been queued.
pub struct QueueCount {
    /// Values queued and not yet received.
    pub queued: u64,
    /// The end has been queued: nothing is queued after it.
    pub ended: bool,
}

/// The counts after `item` is offered to a queue counted by `c`, and whether
/// it is queued: nothing after the end; a value counts one more, up to the
/// largest count; an error or the end closes the queue.
pub open spec fn count_in<T>(c: QueueCount, item: Item<T>) -> (bool, QueueCount) {
    if c.ended {
        (false, c)
    } else {
        match item {
            Item::Value(_) => (
                true,
                QueueCount {
                    queued: if c.queued < u64::MAX { (c.queued + 1) as u64 } else { c.queued },
                    ended: false,
                },
            ),
            _ => (true, QueueCount { queued: c.queued, ended: true }),
        }
    }
}

impl QueueCount {
    /// Counts `item` in, giving whether it is queued: nothing is queued
    /// after the end.
    pub fn take_in<T>(&mut self, item: &Item<T>) -> (r: bool)
        ensures
            (r, *final(self)) == count_in(*old(self), *item),
    {
        if self.ended {
            return false;
        }
        match item {
            Item::Value(_) => {
                if self.queued < u64::MAX {
                    self.queued = self.queued + 1;
                }
            },
            _ => {
                self.ended = true;
            },
        }
        true
    }

    /// Counts a value out, as it is received.
    pub fn received(&mut self)
        ensures
            final(self).queued == if old(self).queued > 0 { old(self).queued - 1 } else { 0 },
            final(self).ended == old(self).ended,
    {
        if self.queued > 0 {
            self.queued = self.queued - 1;
        }
    }
}

/// Any count is acceptable.
pub struct AnyCount;

impl RwLockPredicate<QueueCount> for AnyCount {
    open spec fn inv(self, c: QueueCount) -> bool {
        true
    }
}

/// A subscription's queue: the channel its items go down, and its counts.
/// Items are sent under the count's lock, so they arrive in the order they
/// were admitted.
#[verifier::reject_recursive_types(T)]
pub struct Queue<T> {
    count: RwLock<QueueCount, AnyCount>,
    tx: Sender<Item<T>>,
}

impl<T> Queue<T> {
    /// The channel the queue sends its items on.
    pub closed spec fn sender(&self) -> Sender<Item<T>> {
        self.tx
    }

    /// An empty queue sending on `tx`.
    pub fn new(tx: Sender<Item<T>>) -> (r: Queue<T>)
        ensures
            r.sender() == tx,
    {
        Queue { count: RwLock::new(QueueCount { queued: 0, ended: false }, Ghost(AnyCount)), tx }
    }

    /// Queues a value or the end; nothing after the end.
    pub fn push(&self, item: Item<T>) {
        let (mut c, h) = self.count.acquire_write();
        if c.take_in(&item) {
            shared::send(&self.tx, item);
        }
        h.release_write(c);
    }

    /// Counts a value as received.
    pub fn received(&self) {
        let (mut c, h) = self.count.acquire_write();
        c.received();
        h.release_write(c);
    }

    /// The values queued and not yet received.
    pub fn queued(&self) -> u64 {
        let h = self.count.acquire_read();
        let n = h.borrow().queued;
        h.release_read();
        n
    }
}

/// A subscription's value slot.
#[verifier::reject_recursive_types(T)]
pub struct ValueSink<T> {
    queue: WeakArc<Queue<T>>,
}

impl<T: Clone + Send + Sync> Slot<T> for ValueSink<T> {
    fn call(&self, v: &T) {
        if let Some(q) = self.queue.upgrade() {
            q.push(Item::Value(v.clone()));
        }
    }

    fn held(&self) -> bool {
        self.queue.upgrade().is_some()
    }
}

/// A subscription's slot on its event's `error_event`.
#[verifier::reject_recursive_types(T)]
pub struct ErrorSink<T> {
    queue: WeakArc<Queue<T>>,
}

impl<T: Send> Slot<HandlerError> for ErrorSink<T> {
    fn call(&self, e: &HandlerError) {
        if let Some(q) = self.queue.upgrade() {
            q.push(Item::Error(e.clone()));
        }
    }

    fn held(&self) -> bool {
        self.queue.upgrade().is_some()
    }
}

/// A subscription's slot on its event's `done_event`.
#[verifier::reject_recursive_types(T)]
pub struct DoneSink<T> {
    queue: WeakArc<Queue<T>>,
}

impl<T: Send> Slot<()> for DoneSink<T> {
    fn call(&self, _v: &()) {
        if let Some(q) = self.queue.upgrade() {
            q.push(Item::Done);
        }
    }

    fn held(&self) -> bool {
        self.queue.upgrade().is_some()
    }
}

/// Where a subscription stands in receiving its end.
#[derive(Clone, Copy, Debug, PartialEq, Eq, Structural)]
pub enum End {
    /// Its end has not been received.
    Open,
    /// Its end has been received: every receive from now on is `Done`.
    Received,
}

/// What a receive gives, given where the subscription stands and what came
/// off its queue: a value as it is; a handler's error, once, then the end;
/// the end; once the end is received, `Done` without a look at the queue.
pub open spec fn receive_outcome<T>(end: End, got: Waited<Item<T>>, nothing: RecvError) -> (Result<T, RecvError>, End) {
    match end {
        End::Received => (Err(RecvError::Done), End::Received),
        End::Open => match got {
            Waited::Got(Item::Value(v)) => (Ok(v), End::Open),
            Waited::Got(Item::Error(e)) => (Err(RecvError::Handler(e)), End::Received),
            Waited::Got(Item::Done) => (Err(RecvError::Done), End::Received),
            Waited::Nothing => (Err(nothing), End::Open),
            Waited::Gone => (Err(RecvError::Done), End::Received),
        },
    }
}

/// A receiver of an event's emissions, in order, with no bound: what
/// awaiting or iterating an eventkit `Event` gives.
///
/// It holds a slot on its event; once dropped, the event no longer counts
/// or calls it. When a handler of the event panics, it gives
/// [`RecvError::Handler`] once and then ends. When the event is done, it
/// ends after the values queued before.
#[verifier::reject_recursive_types(T)]
pub struct Subscription<T> {
    event: Event<T>,
    queue: Arc<Queue<T>>,
    rx: Receiver<Item<T>>,
    on_value: Option<HandlerId>,
    on_error: Option<HandlerId>,
    on_done: Option<HandlerId>,
    end: End,
}

impl<T: Clone + Send + Sync + 'static> Subscription<T> {
    /// The event it receives from.
    pub closed spec fn event(&self) -> Event<T> {
        self.event
    }

    /// Where it stands in receiving its end.
    pub closed spec fn end_state(&self) -> End {
        self.end
    }

    /// Settles what came off the queue, leaving the event once the end is
    /// received, as `aiter`'s `finally` disconnects.
    fn settle(&mut self, got: Waited<Item<T>>, nothing: RecvError) -> (r: Result<T, RecvError>)
        ensures
            (r, final(self).end_state()) == receive_outcome(old(self).end_state(), got, nothing),
            final(self).event() == old(self).event(),
    {
        if self.end == End::Received {
            return Err(RecvError::Done);
        }
        match got {
            Waited::Got(Item::Value(v)) => {
                self.queue.received();
                Ok(v)
            },
            Waited::Got(Item::Error(e)) => {
                self.end = End::Received;
                self.finish();
                Err(RecvError::Handler(e))
            },
            Waited::Got(Item::Done) => {
                self.end = End::Received;
                self.finish();
                Err(RecvError::Done)
            },
            Waited::Nothing => Err(nothing),
            Waited::Gone => {
                self.end = End::Received;
                self.finish();
                Err(RecvError::Done)
            },
        }
    }

    /// Whether a blocking receive would wait on the thread that must run
    /// the event.
    fn on_owner(&self) -> (r: bool)
        ensures
            self.event().home() is Program ==> !r,
    {
        match self.event.holder() {
            Some(h) => h.on_owner(),
            None => false,
        }
    }

    /// Waits for the next value. On the thread that runs the event's IB it
    /// fails at once with `OwnerThread`.
    pub fn recv(&mut self) -> (r: Result<T, RecvError>)
        ensures
            final(self).event() == old(self).event(),
            (r == Err::<T, RecvError>(RecvError::OwnerThread) && final(self).end_state() == old(
                self,
            ).end_state()) || exists|got: Waited<Item<T>>|
                (r, final(self).end_state()) == receive_outcome(
                    old(self).end_state(),
                    got,
                    RecvError::Timeout,
                ),
            old(self).end_state() == End::Received ==> r == Err::<T, RecvError>(RecvError::Done),
            r matches Err(RecvError::Done) ==> final(self).end_state() == End::Received,
            r matches Err(RecvError::Handler(_)) ==> final(self).end_state() == End::Received,
    {
        if self.end == End::Received {
            assert(receive_outcome(
                self.end,
                Waited::<Item<T>>::Nothing,
                RecvError::Timeout,
            ) == (Err::<T, RecvError>(RecvError::Done), self.end));
            return Err(RecvError::Done);
        }
        if self.on_owner() {
            return Err(RecvError::OwnerThread);
        }
        let got = shared::wait(&self.rx);
        self.settle(got, RecvError::Timeout)
    }

    /// Waits at most `timeout` for the next value, failing with `Timeout`.
    /// A timeout past what the clock can count waits without a bound. On
    /// the thread that runs the event's IB it fails at once with
    /// `OwnerThread`.
    pub fn recv_timeout(&mut self, timeout: Duration) -> (r: Result<T, RecvError>)
        ensures
            final(self).event() == old(self).event(),
            (r == Err::<T, RecvError>(RecvError::OwnerThread) && final(self).end_state() == old(
                self,
            ).end_state()) || exists|got: Waited<Item<T>>|
                (r, final(self).end_state()) == receive_outcome(
                    old(self).end_state(),
                    got,
                    RecvError::Timeout,
                ),
            old(self).end_state() == End::Received ==> r == Err::<T, RecvError>(RecvError::Done),
            r matches Err(RecvError::Done) ==> final(self).end_state() == End::Received,
            r matches Err(RecvError::Handler(_)) ==> final(self).end_state() == End::Received,
    {
        if self.end == End::Received {
            assert(receive_outcome(
                self.end,
                Waited::<Item<T>>::Nothing,
                RecvError::Timeout,
            ) == (Err::<T, RecvError>(RecvError::Done), self.end));
            return Err(RecvError::Done);
        }
        if self.on_owner() {
            return Err(RecvError::OwnerThread);
        }
        let got = shared::wait_for(&self.rx, timeout);
        self.settle(got, RecvError::Timeout)
    }

    /// Takes the next value if one is queued, failing with `Empty` if not.
    pub fn try_recv(&mut self) -> (r: Result<T, RecvError>)
        ensures
            final(self).event() == old(self).event(),
            exists|got: Waited<Item<T>>|
                (r, final(self).end_state()) == receive_outcome(
                    old(self).end_state(),
                    got,
                    RecvError::Empty,
                ),
            old(self).end_state() == End::Received ==> r == Err::<T, RecvError>(RecvError::Done),
            r matches Err(RecvError::Done) ==> final(self).end_state() == End::Received,
            r matches Err(RecvError::Handler(_)) ==> final(self).end_state() == End::Received,
    {
        if self.end == End::Received {
            assert(receive_outcome(
                self.end,
                Waited::<Item<T>>::Nothing,
                RecvError::Empty,
            ) == (Err::<T, RecvError>(RecvError::Done), self.end));
            return Err(RecvError::Done);
        }
        let got = shared::take(&self.rx);
        self.settle(got, RecvError::Empty)
    }

    /// The next item as an iterator gives it: a value, an error once, then
    /// nothing from its end on.
    pub fn next_item(&mut self) -> (r: Option<Result<T, RecvError>>)
        ensures
            old(self).end_state() == End::Received ==> r is None,
            r is None ==> final(self).end_state() == End::Received,
            r matches Some(Err(_)) ==> final(self).end_state() == End::Received,
            !(r matches Some(Err(RecvError::Done))),
    {
        if self.end == End::Received {
            return None;
        }
        match self.recv() {
            Ok(v) => Some(Ok(v)),
            Err(RecvError::Done) => None,
            Err(e) => {
                self.end = End::Received;
                self.finish();
                Some(Err(e))
            },
        }
    }

    /// The number of values queued and not yet received.
    pub fn len(&self) -> usize {
        let n = self.queue.queued();
        if n <= usize::MAX as u64 { n as usize } else { usize::MAX }
    }

    /// Whether no value is queued.
    pub fn is_empty(&self) -> bool {
        self.len() == 0
    }

    /// Leaves the event: its slots on the event, its `error_event` and its
    /// `done_event` are disconnected.
    fn finish(&mut self)
        ensures
            final(self).event() == old(self).event(),
            final(self).end_state() == old(self).end_state(),
            final(self).on_value is None,
            final(self).on_error is None,
            final(self).on_done is None,
    {
        if let Some(id) = self.on_value.take() {
            self.event.disconnect(id);
        }
        if let Some(id) = self.on_error.take() {
            if let Some(e) = &self.event.0.error_event {
                e.disconnect(id);
            }
        }
        if let Some(id) = self.on_done.take() {
            if let Some(e) = &self.event.0.done_event {
                e.disconnect(id);
            }
        }
    }
}

/// Nothing is queued after a subscription's end: once an error or the end
/// is taken in, every later item is refused and the counts stay.
pub proof fn law_nothing_is_queued_after_the_end<T>(c: QueueCount, end: Item<T>, later: Item<T>)
    requires
        !(end is Value),
    ensures
        count_in(count_in(c, end).1, later) == (false, count_in(c, end).1),
{
}

/// Once a subscription has received its end, every receive gives `Done`,
/// whatever its queue holds, and it stays ended.
pub proof fn law_the_end_is_final<T>(got: Waited<Item<T>>, nothing: RecvError)
    ensures
        receive_outcome(End::Received, got, nothing) == (
            Err::<T, RecvError>(RecvError::Done),
            End::Received,
        ),
{
}

/// A handler's error reaches a subscription once: the receive that takes it
/// gives it and ends the subscription, and every receive after gives `Done`.
pub proof fn law_a_handler_error_comes_once<T>(
    e: HandlerError,
    later: Waited<Item<T>>,
    nothing: RecvError,
)
    ensures
        receive_outcome(End::Open, Waited::Got(Item::<T>::Error(e)), nothing) == (
            Err::<T, RecvError>(RecvError::Handler(e)),
            End::Received,
        ),
        receive_outcome(
            receive_outcome(End::Open, Waited::Got(Item::<T>::Error(e)), nothing).1,
            later,
            nothing,
        ).0 == Err::<T, RecvError>(RecvError::Done),
{
}

/// Values come off a subscription as they were queued, and the end comes
/// after them: a value leaves the subscription open, the end closes it.
pub proof fn law_values_then_the_end<T>(v: T, nothing: RecvError)
    ensures
        receive_outcome(End::Open, Waited::Got(Item::Value(v)), nothing) == (
            Ok::<T, RecvError>(v),
            End::Open,
        ),
        receive_outcome(End::Open, Waited::Got(Item::<T>::Done), nothing) == (
            Err::<T, RecvError>(RecvError::Done),
            End::Received,
        ),
{
}

} // verus!

use std::sync::atomic::{AtomicBool, AtomicUsize, Ordering::SeqCst};
use std::sync::{Arc, Mutex};

use ib_async_dx::event::Event;
use ib_async_dx::Error;
use ib_async_dx::live::{CellValue, Live, Maker, Observed, Storage};
use ib_async_dx::routing::{Holder, HolderRef, Job};

/// An IB's queue, run by hand as the owner.
#[derive(Default)]
struct FakeIb {
    queue: Mutex<Vec<Box<dyn Job>>>,
    closed: AtomicBool,
    /// Set while this thread runs the IB's queue.
    owner: AtomicBool,
}

struct Held(Arc<FakeIb>);

impl Holder for Held {
    fn is_active(&self) -> bool {
        !self.0.closed.load(SeqCst)
    }

    fn push_control(&self, control: Box<dyn Job>) -> Result<(), Box<dyn Job>> {
        if self.0.closed.load(SeqCst) {
            return Err(control);
        }
        self.0.queue.lock().unwrap().push(control);
        Ok(())
    }

    fn on_owner(&self) -> bool {
        self.0.owner.load(SeqCst)
    }
}

impl FakeIb {
    fn new() -> Arc<Self> {
        Arc::default()
    }

    fn queued(&self) -> usize {
        self.queue.lock().unwrap().len()
    }

    /// Runs the queued controls on this thread as the owner.
    fn run(&self) -> usize {
        let controls = std::mem::take(&mut *self.queue.lock().unwrap());
        let n = controls.len();
        self.owner.store(true, SeqCst);
        for mut c in controls {
            c.run();
        }
        self.owner.store(false, SeqCst);
        n
    }
}

/// One holder handle per fake IB, so that binding it twice is binding one
/// IB twice.
fn holder(ib: &Arc<FakeIb>) -> HolderRef {
    let b: Box<dyn Holder> = Box::new(Held(ib.clone()));
    Arc::new(b)
}

/// A live type with object events, for these tests.
#[derive(Clone, Debug, Default, PartialEq)]
struct Thing {
    n: i32,
}

struct ThingEvents {
    status_event: Event<Live<Thing>>,
    update_event: Event<(Live<Thing>, bool)>,
    fill_event: Event<(Live<Thing>, i32, String)>,
}

impl Storage for Thing {
    type Events = ThingEvents;
    fn events(m: &Maker) -> ThingEvents {
        ThingEvents {
            status_event: m.event("statusEvent"),
            update_event: m.event("updateEvent"),
            fill_event: m.event("fillEvent"),
        }
    }
}

impl Observed for Thing {}

struct Noop;

impl Job for Noop {
    fn run(&mut self) {}
}

#[test]
fn post_goes_through_a_holder_or_comes_back() {
    let t = Live::new(Thing::default());
    assert!(t.post(Box::new(Noop)).is_some());
    let ib = FakeIb::new();
    t.bind(holder(&ib));
    assert!(t.post(Box::new(Noop)).is_none());
    assert_eq!(ib.queued(), 1);
}

#[test]
fn a_push_that_comes_back_drops_that_holder_and_tries_the_next() {
    let t = Live::new(Thing::default());
    let (a, b) = (FakeIb::new(), FakeIb::new());
    let ha = holder(&a);
    t.bind(ha.clone());
    t.bind(holder(&b));
    // `a` reads as active, but its push comes back: closing under us.
    struct Closing(Arc<FakeIb>);
    impl Holder for Closing {
        fn is_active(&self) -> bool {
            true
        }
        fn push_control(&self, control: Box<dyn Job>) -> Result<(), Box<dyn Job>> {
            Err(control)
        }
        fn on_owner(&self) -> bool {
            false
        }
    }
    let c: Box<dyn Holder> = Box::new(Closing(a.clone()));
    let u = Live::new(Thing::default());
    u.bind(Arc::new(c));
    u.bind(holder(&b));
    assert!(u.post(Box::new(Noop)).is_none());
    assert_eq!(b.queued(), 1);
    assert_eq!(u.holder_count(), 1);
    drop(t);
}

#[test]
fn addr_is_the_objects_identity() {
    let (a, b) = (Live::new(Thing::default()), Live::new(Thing::default()));
    assert_eq!(a.addr(), a.clone().addr());
    assert_ne!(a.addr(), b.addr());
}

#[test]
fn binding_twice_holds_once() {
    let t = Live::new(Thing::default());
    let ib = FakeIb::new();
    let h = holder(&ib);
    t.bind(h.clone());
    t.bind(h);
    assert_eq!(t.holder_count(), 1);
}

#[test]
fn update_bumps_the_revision_and_copies_only_for_a_reader() {
    let t = Live::new(Thing::default());
    let first = Arc::as_ptr(&t.read());
    t.update(|v| v.n = 1);
    assert_eq!(Arc::as_ptr(&t.read()), first);
    let held = t.read();
    t.update(|v| v.n = 2);
    assert_eq!(held.n, 1);
    assert_eq!(t.read().n, 2);
    assert_eq!(t.revision(), 2);
    assert_eq!(format!("{:?}", *t.read()), "Thing { n: 2 }");
}

#[test]
fn new_makes_the_objects_events_by_their_names() {
    let t = Live::new(Thing::default());
    let e = t.events();
    assert_eq!(e.status_event.name(), "statusEvent");
    assert_eq!(e.update_event.name(), "updateEvent");
    assert_eq!(e.fill_event.name(), "fillEvent");
    assert!(e.update_event.error_event().is_some());
    assert!(e.update_event.value().is_none());
}

#[test]
fn an_object_events_value_is_gone_with_its_object() {
    let t = Live::new(Thing::default());
    let e = t.events();
    let (status, update, fill) = (
        e.status_event.clone(),
        e.update_event.clone(),
        e.fill_event.clone(),
    );
    let seen = Arc::new(Mutex::new(0));
    let (seen2, weak) = (seen.clone(), t.downgrade());
    update.connect(move |(obj, _)| {
        if weak.upgrade().is_some_and(|w| Live::ptr_eq(obj, &w)) {
            *seen2.lock().unwrap() += 1;
        }
    });
    status.emit(&t);
    update.emit(&(t.clone(), true));
    fill.emit(&(t.clone(), 3, "x".to_owned()));
    assert_eq!(*seen.lock().unwrap(), 1);
    assert!(Live::ptr_eq(&status.value().unwrap(), &t));
    let (obj, flag) = update.value().unwrap();
    assert!(Live::ptr_eq(&obj, &t) && flag);
    drop(obj);
    let (obj, n, s) = fill.value().unwrap();
    assert!(Live::ptr_eq(&obj, &t) && n == 3 && s == "x");
    drop(obj);

    let weak = t.downgrade();
    drop(t);
    assert!(weak.upgrade().is_none());
    assert!(status.value().is_none());
    assert!(update.value().is_none());
    assert!(fill.value().is_none());
}

#[test]
fn a_bound_objects_events_run_on_the_owner() {
    let t = Live::new(Thing::default());
    let ib = FakeIb::new();
    t.bind(holder(&ib));
    let ev = t.events().update_event.clone();
    let on = Arc::new(Mutex::new(Vec::new()));
    let (on2, ib2) = (on.clone(), ib.clone());
    ev.connect(move |_| on2.lock().unwrap().push(ib2.owner.load(SeqCst)));
    let done = Arc::new(AtomicBool::new(false));
    let (done2, ib3) = (done.clone(), ib.clone());
    ev.done_event()
        .unwrap()
        .connect(move |_| done2.store(ib3.owner.load(SeqCst), SeqCst));

    ev.emit(&(t.clone(), false));
    ev.set_done();
    assert!(on.lock().unwrap().is_empty());
    assert!(!ev.done());
    assert_eq!(ib.run(), 2);
    assert_eq!(*on.lock().unwrap(), vec![true]);
    assert!(done.load(SeqCst));

    ib.closed.store(true, SeqCst);
    ev.emit(&(t.clone(), false));
    assert_eq!(*on.lock().unwrap(), vec![true, false]);
}

#[test]
fn an_unbound_edit_that_loses_to_a_bind_or_a_write_writes_nothing() {
    let t = Live::new(Thing::default());
    let ib = FakeIb::new();
    let (t2, h) = (t.clone(), holder(&ib));
    let r = t.edit(move |v| {
        v.n = 5;
        t2.bind(h.clone());
    });
    assert!(matches!(r, Err(Error::Value(_))));
    assert_eq!(t.read().n, 0);

    let u = Live::new(Thing::default());
    let runs = Arc::new(AtomicUsize::new(0));
    let (u2, runs2) = (u.clone(), runs.clone());
    let r = u.edit(move |v| {
        runs2.fetch_add(1, SeqCst);
        v.n = 5;
        u2.update(|w| w.n = 7);
    });
    assert!(matches!(r, Err(Error::Value(m)) if m == "the object changed while the edit ran"));
    assert_eq!(u.read().n, 7);
    assert_eq!(runs.load(SeqCst), 1);
}

#[test]
fn a_bound_edit_whose_closure_writes_the_object_keeps_that_write() {
    let t = Live::new(Thing::default());
    let ib = FakeIb::new();
    t.bind(holder(&ib));
    let runs = Arc::new(AtomicUsize::new(0));
    let (t2, runs2) = (t.clone(), runs.clone());
    ib.owner.store(true, SeqCst);
    let r = t.edit(move |v| {
        runs2.fetch_add(1, SeqCst);
        v.n = 1;
        t2.update(|w| w.n = 9);
    });
    ib.owner.store(false, SeqCst);
    assert!(matches!(r, Err(Error::Value(_))));
    assert_eq!(t.read().n, 9);
    assert_eq!(runs.load(SeqCst), 1);
    assert_eq!(ib.queued(), 0);
}

#[test]
fn an_edit_runs_on_the_caller_once_no_holder_is_active() {
    let t = Live::new(Thing::default());
    let ib = FakeIb::new();
    t.bind(holder(&ib));
    ib.closed.store(true, SeqCst);
    t.edit(|v| v.n = 4).unwrap();
    assert_eq!(t.read().n, 4);
    assert_eq!(ib.queued(), 0);

    // A holder handle outlives its IB; an IB that has shut down reads as
    // closed.
    let gone = FakeIb::new();
    t.bind(holder(&gone));
    gone.closed.store(true, SeqCst);
    drop(gone);
    t.edit(|v| v.n = 5).unwrap();
    assert_eq!(t.read().n, 5);
}

/// A holder that is never active and, the first time it is asked, has an
/// open IB take the object.
struct TakenMeanwhile {
    asked: AtomicBool,
    object: Live<Thing>,
    taker: HolderRef,
}

impl Holder for TakenMeanwhile {
    fn is_active(&self) -> bool {
        if !self.asked.swap(true, SeqCst) {
            self.object.bind(self.taker.clone());
        }
        false
    }

    fn push_control(&self, control: Box<dyn Job>) -> Result<(), Box<dyn Job>> {
        Err(control)
    }

    fn on_owner(&self) -> bool {
        false
    }
}

#[test]
fn an_edit_left_to_the_caller_is_not_written_once_an_ib_takes_the_object() {
    // The bind lands after the post found no active holder and before the
    // edit's first lock.
    let t = Live::new(Thing::default());
    let ib = FakeIb::new();
    let h: Box<dyn Holder> = Box::new(TakenMeanwhile {
        asked: AtomicBool::new(false),
        object: t.clone(),
        taker: holder(&ib),
    });
    t.bind(Arc::new(h));
    let r = t.edit(|v| v.n = 1);
    assert!(matches!(r, Err(Error::Value(_))));
    assert_eq!(t.read().n, 0);
    assert_eq!(ib.queued(), 0);
}

#[test]
fn an_edit_lands_only_on_the_revision_it_started_from() {
    let mut cv = CellValue { value: Arc::new(1), revision: 3 };
    assert!(!cv.accept(5, 2, false, false));
    assert_eq!((*cv.value, cv.revision), (1, 3));
    assert!(!cv.accept(5, 3, true, true), "the program's copy, and an IB took the object");
    assert_eq!((*cv.value, cv.revision), (1, 3));
    assert!(cv.accept(5, 3, true, false));
    assert_eq!((*cv.value, cv.revision), (5, 4));
    assert!(cv.accept(6, 4, false, true), "the owner's copy");
    assert_eq!((*cv.value, cv.revision), (6, 5));
}

/// A holder whose IB runs each control at once, as its owner, or drops it
/// unrun.
struct RunsAtOnce {
    ib: Arc<FakeIb>,
    drops: bool,
}

impl Holder for RunsAtOnce {
    fn is_active(&self) -> bool {
        true
    }

    fn push_control(&self, mut control: Box<dyn Job>) -> Result<(), Box<dyn Job>> {
        if !self.drops {
            self.ib.owner.store(true, SeqCst);
            control.run();
            self.ib.owner.store(false, SeqCst);
        }
        Ok(())
    }

    fn on_owner(&self) -> bool {
        self.ib.owner.load(SeqCst)
    }
}

#[test]
fn a_bound_edit_runs_once_through_its_holder() {
    let t = Live::new(Thing::default());
    let ib = FakeIb::new();
    let h: Box<dyn Holder> = Box::new(RunsAtOnce { ib: ib.clone(), drops: false });
    t.bind(Arc::new(h));
    let runs = Arc::new(AtomicUsize::new(0));
    let on = Arc::new(AtomicBool::new(false));
    let (runs2, on2, ib2) = (runs.clone(), on.clone(), ib.clone());
    let r = t.edit(move |v| {
        runs2.fetch_add(1, SeqCst);
        on2.store(ib2.owner.load(SeqCst), SeqCst);
        v.n = 3;
    });
    assert!(r.is_ok());
    assert_eq!(runs.load(SeqCst), 1);
    assert!(on.load(SeqCst));
    assert_eq!(t.read().n, 3);
    assert_eq!(t.revision(), 1);
}

#[test]
fn a_bound_edit_dropped_unrun_is_not_connected() {
    let t = Live::new(Thing::default());
    let h: Box<dyn Holder> = Box::new(RunsAtOnce { ib: FakeIb::new(), drops: true });
    t.bind(Arc::new(h));
    assert!(matches!(t.edit(|v| v.n = 1), Err(Error::NotConnected)));
    assert_eq!(t.read().n, 0);
}

use std::sync::atomic::{AtomicBool, Ordering::SeqCst};
use std::sync::{Arc, Mutex, OnceLock};
use std::time::Duration;

use ib_async_dx::event::{Event, HandlerError, RecvError};
use ib_async_dx::routing::{Holder, HolderRef, Job};

/// An IB's queue, run by hand as the owner.
#[derive(Default)]
struct FakeIb {
    queue: Mutex<Vec<Box<dyn Job>>>,
    closed: AtomicBool,
    /// The test's thread runs the IB, as the thread that runs every IB.
    owner: AtomicBool,
}

/// A holder handle to a shared fake IB.
struct Held(Arc<FakeIb>);

impl Holder for Held {
    fn is_active(&self) -> bool {
        !self.0.closed.load(SeqCst)
    }

    fn push_control(&self, control: Box<dyn Job>) -> Result<(), Box<dyn Job>> {
        if self.0.closed.load(SeqCst) {
            return Err(control);
        }
        self.0.queue.lock().unwrap().push(control);
        Ok(())
    }

    fn on_owner(&self) -> bool {
        self.0.owner.load(SeqCst)
    }
}

impl FakeIb {
    fn new() -> Arc<Self> {
        Arc::default()
    }

    fn holder(self: &Arc<Self>) -> HolderRef {
        let b: Box<dyn Holder> = Box::new(Held(self.clone()));
        Arc::new(b)
    }

    fn queued(&self) -> usize {
        self.queue.lock().unwrap().len()
    }

    fn run(&self) -> usize {
        let controls = std::mem::take(&mut *self.queue.lock().unwrap());
        let n = controls.len();
        self.set_on_owner(true);
        for mut c in controls {
            c.run();
        }
        self.set_on_owner(false);
        n
    }

    fn set_on_owner(&self, on: bool) {
        self.owner.store(on, SeqCst);
    }

    fn on_owner(&self) -> bool {
        self.owner.load(SeqCst)
    }
}

#[test]
fn a_subscription_after_a_nested_emitter_gets_the_inner_value_first() {
    let ev = Event::<i32>::new("e");
    let inner = ev.clone();
    ev.connect(move |v| {
        if *v == 1 {
            inner.emit(&2);
        }
    });
    let mut sub = ev.subscribe();
    ev.emit(&1);
    assert_eq!(sub.try_recv(), Ok(2));
    assert_eq!(sub.try_recv(), Ok(1));
    assert_eq!(sub.try_recv(), Err(RecvError::Empty));
    ev.clear();
}

#[test]
fn slots_changed_during_an_emission_count_from_the_next() {
    let ev = Event::<i32>::new("e");
    let seen = Arc::new(Mutex::new(Vec::new()));
    let third = Arc::new(OnceLock::new());
    let (ev2, seen2, third2) = (ev.clone(), seen.clone(), third.clone());
    ev.connect(move |v| {
        seen2.lock().unwrap().push(format!("first {v}"));
        if *v == 1 {
            let seen3 = seen2.clone();
            ev2.connect(move |v| seen3.lock().unwrap().push(format!("new {v}")));
            if let Some(id) = third2.get() {
                assert!(ev2.disconnect(*id));
            }
        }
    });
    let seen3 = seen.clone();
    let id = ev.connect(move |v| seen3.lock().unwrap().push(format!("third {v}")));
    third.set(id).unwrap();
    ev.emit(&1);
    ev.emit(&2);
    assert_eq!(
        *seen.lock().unwrap(),
        ["first 1", "third 1", "first 2", "new 2"].map(String::from)
    );
    assert!(!ev.contains(id));
    assert_eq!(ev.len(), 2);
    ev.clear();
}

#[test]
fn an_ibs_event_runs_on_the_owner() {
    let ib = FakeIb::new();
    let ev = Event::<i32>::with_holder("updateEvent", ib.holder());
    let on = Arc::new(Mutex::new(Vec::new()));
    let (on2, ib2) = (on.clone(), ib.clone());
    ev.connect(move |v| on2.lock().unwrap().push((*v, ib2.on_owner())));
    let done_on = Arc::new(Mutex::new(None));
    let (done2, ib3) = (done_on.clone(), ib.clone());
    ev.done_event()
        .unwrap()
        .connect(move |_| *done2.lock().unwrap() = Some(ib3.on_owner()));

    ev.emit(&1);
    ev.set_done();
    assert!(on.lock().unwrap().is_empty());
    assert!(!ev.done());
    assert_eq!(ib.queued(), 2);
    assert_eq!(ib.run(), 2);
    assert_eq!(*on.lock().unwrap(), [(1, true)]);
    assert_eq!(*done_on.lock().unwrap(), Some(true));
    assert!(ev.done());

    // On the owner thread it runs inline.
    ib.set_on_owner(true);
    ev.emit(&2);
    ib.set_on_owner(false);
    assert_eq!(*on.lock().unwrap(), [(1, true), (2, true)]);

    // Once the IB's queue is closed, on the caller.
    ib.closed.store(true, SeqCst);
    ev.emit(&3);
    assert_eq!(*on.lock().unwrap(), [(1, true), (2, true), (3, false)]);
}

#[test]
fn done_keeps_handlers_and_emits_done_event_once() {
    let ev = Event::<i32>::new("e");
    let got = Arc::new(Mutex::new(Vec::new()));
    let got2 = got.clone();
    ev.connect(move |v| got2.lock().unwrap().push(*v));
    let dones = Arc::new(Mutex::new(0));
    let dones2 = dones.clone();
    ev.done_event().unwrap().connect(move |_| {
        *dones2.lock().unwrap() += 1;
    });
    ev.set_done();
    ev.set_done();
    assert!(ev.done());
    assert!(ev.done_event().unwrap().done());
    assert_eq!(*dones.lock().unwrap(), 1);
    ev.emit(&1);
    let got3 = got.clone();
    ev.connect(move |v| got3.lock().unwrap().push(*v * 10));
    ev.emit(&2);
    assert_eq!(*got.lock().unwrap(), [1, 2, 20]);
    assert_eq!(ev.value(), Some(2));
}

#[test]
fn a_dropped_subscription_leaves_the_event() {
    let ev = Event::<i32>::new("e");
    assert!(ev.is_empty());
    let sub = ev.subscribe();
    assert_eq!(ev.len(), 1);
    assert_eq!(ev.error_event().unwrap().len(), 1);
    assert_eq!(ev.done_event().unwrap().len(), 1);
    drop(sub);
    assert!(ev.is_empty());
    assert!(ev.error_event().unwrap().is_empty());
    assert!(ev.done_event().unwrap().is_empty());
}

#[test]
fn blocking_receives_fail_on_the_owner_thread() {
    let ib = FakeIb::new();
    let ev = Event::<i32>::with_holder("e", ib.holder());
    let mut sub = ev.subscribe();
    ib.set_on_owner(true);
    assert_eq!(sub.recv(), Err(RecvError::OwnerThread));
    assert_eq!(
        sub.recv_timeout(Duration::from_secs(1)),
        Err(RecvError::OwnerThread)
    );
    assert_eq!(sub.try_recv(), Err(RecvError::Empty));
    ev.emit(&1);
    assert_eq!(sub.try_recv(), Ok(1));
    assert_eq!(sub.next_item(), Some(Err(RecvError::OwnerThread)));
    assert_eq!(sub.next_item(), None);
    ib.set_on_owner(false);
}

#[test]
fn a_subscription_receives_in_order_and_ends_after_its_queue() {
    let ev = Event::<i32>::new("e");
    let mut sub = ev.subscribe();
    assert_eq!(sub.try_recv(), Err(RecvError::Empty));
    assert_eq!(
        sub.recv_timeout(Duration::from_millis(10)),
        Err(RecvError::Timeout)
    );
    // A deadline past what an Instant holds is no deadline.
    ev.emit(&7);
    assert_eq!(sub.recv_timeout(Duration::MAX), Ok(7));
    ev.emit(&1);
    ev.emit(&2);
    assert_eq!(sub.len(), 2);
    ev.set_done();
    ev.emit(&3);
    assert_eq!(sub.recv(), Ok(1));
    assert_eq!(sub.recv(), Ok(2));
    assert_eq!(sub.recv(), Err(RecvError::Done));
    assert_eq!(sub.try_recv(), Err(RecvError::Done));
    assert!(sub.is_empty());

    // On a done event, an ended subscription that holds no slot.
    let mut late = ev.subscribe();
    assert_eq!(late.recv(), Err(RecvError::Done));
    assert_eq!(ev.len(), 0);
}

#[test]
fn value_is_the_last_emitted() {
    let ev = Event::<String>::new("e");
    assert_eq!(ev.value(), None);
    ev.emit(&"a".to_owned());
    ev.emit(&"b".to_owned());
    assert_eq!(ev.value().as_deref(), Some("b"));
    assert_eq!(ev.debug_text(), r#"Event { name: "e", slots: 0 }"#);
}

#[test]
fn an_empty_name_is_events() {
    assert_eq!(Event::<i32>::new("").name(), "Event");
    assert_eq!(Event::<i32>::new("e").name(), "e");
}

#[test]
fn an_ibs_sub_events_run_on_the_owner() {
    let ib = FakeIb::new();
    let ev = Event::<i32>::with_holder("updateEvent", ib.holder());
    let on = Arc::new(Mutex::new(Vec::new()));
    let (o, o2) = (on.clone(), on.clone());
    let (ib2, ib3) = (ib.clone(), ib.clone());
    ev.done_event()
        .unwrap()
        .connect(move |_| o.lock().unwrap().push(ib2.on_owner()));
    ev.error_event()
        .unwrap()
        .connect(move |_| o2.lock().unwrap().push(ib3.on_owner()));
    ev.done_event().unwrap().emit(&());
    ev.error_event().unwrap().emit(&HandlerError {
        event: "e".into(),
        message: "m".into(),
    });
    assert!(on.lock().unwrap().is_empty());
    assert_eq!(ib.run(), 2);
    assert_eq!(*on.lock().unwrap(), [true, true]);
}

#[test]
fn try_recv_alone_leaves_the_event_at_its_end() {
    let ev = Event::<i32>::new("e");
    let mut sub = ev.subscribe();
    ev.set_done();
    assert_eq!(sub.try_recv(), Err(RecvError::Done));
    assert!(ev.is_empty());
    assert!(ev.error_event().unwrap().is_empty());
    assert!(ev.done_event().unwrap().is_empty());
}

#[test]
fn errors_display_as_their_values() {
    let e = HandlerError {
        event: "e".into(),
        message: "boom".into(),
    };
    assert_eq!(e.text(), "boom");
    assert_eq!(RecvError::Handler(e).text(), "boom");
    assert_eq!(RecvError::Timeout.text(), "timed out");
    assert_eq!(RecvError::Done.text(), "the event is done");
}

#[test]
fn a_handler_error_on_error_event_ends_every_subscription_with_it() {
    let ev = Event::<i32>::new("e");
    let mut a = ev.subscribe();
    ev.emit(&1);
    ev.error_event().unwrap().emit(&HandlerError {
        event: "e".into(),
        message: "boom".into(),
    });
    assert_eq!(a.next_item(), Some(Ok(1)));
    let boom = RecvError::Handler(HandlerError {
        event: "e".into(),
        message: "boom".into(),
    });
    assert_eq!(a.next_item(), Some(Err(boom)));
    assert_eq!(a.next_item(), None);
    assert_eq!(a.try_recv(), Err(RecvError::Done));
    assert_eq!(ev.len(), 0);
    assert!(ev.error_event().unwrap().is_empty());
    assert!(ev.done_event().unwrap().is_empty());
}

/// A value whose drop takes its event's lock, which it could not while the
/// event held it: the test would not finish.
#[derive(Clone)]
struct Probe {
    ev: Arc<OnceLock<Event<Probe>>>,
    dropped: Arc<AtomicBool>,
}

impl Drop for Probe {
    fn drop(&mut self) {
        if let Some(ev) = self.ev.get() {
            let _ = ev.len();
            self.dropped.store(true, SeqCst);
        }
    }
}

#[test]
fn removed_slots_and_values_are_dropped_after_the_lock() {
    let cell = Arc::new(OnceLock::new());
    let dropped = Arc::new(AtomicBool::new(false));
    let probe = Probe {
        ev: cell.clone(),
        dropped: dropped.clone(),
    };
    let ev = Event::<Probe>::new("e");
    assert!(cell.set(ev.clone()).is_ok());

    let p = probe.clone();
    let id = ev.connect(move |_| drop(p.clone()));
    assert!(ev.disconnect(id));
    let p = probe.clone();
    ev.connect(move |_| drop(p.clone()));
    ev.clear();

    let mut sub = ev.subscribe();
    ev.emit(&probe);
    ev.emit(&probe);
    drop(sub.try_recv());
    drop(sub);

    // A handler that disconnects itself lives to its emission's end.
    let own = Arc::new(OnceLock::new());
    let (p, own2, ev2) = (probe.clone(), own.clone(), ev.clone());
    let id = ev.connect(move |_| {
        let _keep = &p;
        ev2.disconnect(*own2.get().unwrap());
    });
    own.set(id).unwrap();
    ev.emit(&probe);
    drop(probe);
    assert!(dropped.load(SeqCst));
    assert!(ev.is_empty());
}

/// A value whose clone takes its event's lock, which it could not while
/// the event held it: the test would not finish.
struct CloneProbe {
    ev: Arc<OnceLock<Event<CloneProbe>>>,
    cloned: Arc<AtomicBool>,
}

impl Clone for CloneProbe {
    fn clone(&self) -> Self {
        if let Some(ev) = self.ev.get() {
            let _ = ev.len();
            self.cloned.store(true, SeqCst);
        }
        CloneProbe {
            ev: self.ev.clone(),
            cloned: self.cloned.clone(),
        }
    }
}

#[test]
fn value_clones_after_the_lock() {
    let cell = Arc::new(OnceLock::new());
    let cloned = Arc::new(AtomicBool::new(false));
    let ev = Event::<CloneProbe>::new("e");
    assert!(cell.set(ev.clone()).is_ok());
    ev.emit(&CloneProbe {
        ev: cell.clone(),
        cloned: cloned.clone(),
    });
    assert!(ev.value().is_some());
    assert!(cloned.load(SeqCst));
    ev.clear();
}

//! The std handles the library shares objects through, declared to the
//! verifier: a weak handle, a channel, a duration.

use vstd::prelude::*;
use std::sync::{Arc, Weak};
use std::sync::mpsc::{Receiver, RecvTimeoutError, Sender, TryRecvError};
use std::time::Duration;

verus! {

/// `std::sync::mpsc::Sender`.
#[verifier::external_type_specification]
#[verifier::external_body]
#[verifier::reject_recursive_types(T)]
pub struct ExSender<T>(Sender<T>);

/// `std::sync::mpsc::Receiver`.
#[verifier::external_type_specification]
#[verifier::external_body]
#[verifier::reject_recursive_types(T)]
pub struct ExReceiver<T>(Receiver<T>);

/// A `std::sync::Weak`, which the verifier cannot be told of directly,
/// since it carries an allocator parameter.
#[verifier::external_body]
#[verifier::reject_recursive_types(T)]
pub struct WeakHandle<T: ?Sized> {
    w: Weak<T>,
}

/// A handle to an `Arc`'s value that does not keep it alive, with the
/// `Arc` it was made from as a ghost.
#[verifier::reject_recursive_types(T)]
pub struct WeakArc<T: ?Sized> {
    handle: WeakHandle<T>,
    target: Ghost<Arc<T>>,
}

/// A weak handle to `a`'s value: `Arc::downgrade`.
#[verifier::external_body]
fn weak_handle<T: ?Sized>(a: &Arc<T>) -> WeakHandle<T> {
    WeakHandle { w: Arc::downgrade(a) }
}

/// Another weak handle to the same value: `Weak::clone`.
#[verifier::external_body]
fn clone_handle<T: ?Sized>(h: &WeakHandle<T>) -> WeakHandle<T> {
    WeakHandle { w: h.w.clone() }
}

/// A weak handle to `a`'s value.
pub(crate) fn downgrade<T: ?Sized>(a: &Arc<T>) -> (r: WeakArc<T>)
    ensures
        r.target() == *a,
{
    WeakArc { handle: weak_handle(a), target: Ghost(*a) }
}

impl<T: ?Sized> WeakArc<T> {
    /// The `Arc` the handle was made from.
    pub closed spec fn target(&self) -> Arc<T> {
        self.target@
    }

    /// The value, while a strong handle to it remains: `Weak::upgrade`.
    /// Claimed: what it gives is a handle to the value the weak handle was
    /// made from. Whether a strong handle remains is not claimed.
    #[verifier::external_body]
    pub(crate) fn upgrade(&self) -> (r: Option<Arc<T>>)
        ensures
            r matches Some(a) ==> a == self.target(),
    {
        self.handle.w.upgrade()
    }

    /// Another weak handle to the same value.
    pub(crate) fn duplicate(&self) -> (r: WeakArc<T>)
        ensures
            r.target() == self.target(),
    {
        WeakArc { handle: clone_handle(&self.handle), target: Ghost(self.target@) }
    }
}

/// Whether `a` and `b` are one value: `Arc::ptr_eq`. Claimed: one
/// allocation holds one value.
#[verifier::external_body]
pub(crate) fn arc_same<T: ?Sized>(a: &Arc<T>, b: &Arc<T>) -> (r: bool)
    ensures
        r ==> *a == *b,
{
    Arc::ptr_eq(a, b)
}

/// A new channel: `std::sync::mpsc::channel`.
#[verifier::external_body]
pub(crate) fn channel<T>() -> (Sender<T>, Receiver<T>) {
    std::sync::mpsc::channel()
}

/// Sends `v`; a channel whose receiver is gone drops it: `Sender::send`.
#[verifier::external_body]
pub(crate) fn send<T>(tx: &Sender<T>, v: T) {
    let _ = tx.send(v);
}

/// What waiting on a channel gave.
pub enum Waited<T> {
    /// A value.
    Got(T),
    /// Nothing yet: no value was queued, or the time passed.
    Nothing,
    /// Every sender is gone and nothing is queued.
    Gone,
}

/// Waits for a value: `Receiver::recv`.
#[verifier::external_body]
pub(crate) fn wait<T>(rx: &Receiver<T>) -> Waited<T> {
    match rx.recv() {
        Ok(v) => Waited::Got(v),
        Err(_) => Waited::Gone,
    }
}

/// Waits at most `d` for a value: `Receiver::recv_timeout`, which waits
/// without a bound where `d` past the clock's range.
#[verifier::external_body]
pub(crate) fn wait_for<T>(rx: &Receiver<T>, d: Duration) -> Waited<T> {
    match rx.recv_timeout(d) {
        Ok(v) => Waited::Got(v),
        Err(RecvTimeoutError::Timeout) => Waited::Nothing,
        Err(RecvTimeoutError::Disconnected) => Waited::Gone,
    }
}

/// Takes a queued value, if one is: `Receiver::try_recv`.
#[verifier::external_body]
pub(crate) fn take<T>(rx: &Receiver<T>) -> Waited<T> {
    match rx.try_recv() {
        Ok(v) => Waited::Got(v),
        Err(TryRecvError::Empty) => Waited::Nothing,
        Err(TryRecvError::Disconnected) => Waited::Gone,
    }
}

} // verus!

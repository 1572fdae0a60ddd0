//! Where work runs: an IB's queue of controls, and the routes an object's
//! writes and events take to the IBs that hold it.

use vstd::prelude::*;
use std::sync::Arc;

verus! {

/// Work for the thread that runs an IB: a control in its queue. It runs
/// once.
pub trait Job: Send {
    /// Does the work. A job run a second time does nothing.
    fn run(&mut self);
}

/// An IB, as the holder of bound objects and the home of its events.
pub trait Holder: Send + Sync {
    /// Whether the IB's queue is still open.
    fn is_active(&self) -> bool;
    /// Admits `control` to the IB's queue. Gives it back once the queue is
    /// closed.
    fn push_control(&self, control: Box<dyn Job>) -> Result<(), Box<dyn Job>>;
    /// Whether the calling thread is the one that runs this IB.
    fn on_owner(&self) -> bool;
}

/// A shared handle to an IB as a holder.
pub type HolderRef = Arc<Box<dyn Holder>>;

/// Where an object's writes go: its cell, which knows its holders.
pub trait Route: Send + Sync {
    /// Admits `job` through the first active holder, dropping each holder
    /// whose queue turns out closed. Gives `job` back when no holder is
    /// left, for the caller to run.
    fn post(&self, job: Box<dyn Job>) -> Option<Box<dyn Job>>;
    /// The IBs that hold the object.
    fn holders(&self) -> Vec<HolderRef>;
}

} // verus!

//! `loop_until`'s decisions: when it waits for the next network read, for
//! how long, and what each look at its condition yields; and how a method
//! reads the timeout it is given. The waits and the clock are the caller's;
//! times are nanoseconds on the caller's clock.

use vstd::prelude::*;

verus! {

/// An item of `loop_until`: its condition's value once it holds.
#[derive(Clone, Debug, PartialEq)]
pub enum LoopItem<T> {
    /// Not yet: ib_async yields the falsy value.
    Pending,
    /// The condition's value.
    Done(T),
    /// The timeout passed first: ib_async yields `False`.
    TimedOut,
}

/// What `loop_until` does before its next item.
#[derive(Clone, Copy, Debug, PartialEq, Eq, Structural)]
pub enum LoopAction {
    /// Nothing: the iteration is over.
    End,
    /// Wait for the next network read, at most this long when bounded,
    /// then look at the condition.
    Wait(Option<u64>),
    /// Look at the condition at once.
    Look,
}

/// The end of a loop: none, one past what the clock holds, never reached,
/// or an instant.
#[derive(Clone, Copy, Debug, PartialEq, Eq, Structural)]
pub enum LoopEnd {
    /// No timeout.
    Unbounded,
    /// A timeout past what the clock holds.
    Never,
    /// The instant the timeout passes.
    At(u64),
}

/// The state of a `loop_until` between its items.
#[derive(Clone, Copy, Debug, PartialEq, Eq, Structural)]
pub struct LoopUntil {
    /// When the loop times out.
    pub end: LoopEnd,
    /// Whether the next item waits for a read first.
    pub waiting: bool,
    /// Whether the iteration is over.
    pub done: bool,
}

/// A timeout of zero is none: ib_async's timeout of 0, no limit.
pub open spec fn bounded(timeout: Option<u64>) -> bool {
    timeout matches Some(t) && t > 0
}

/// The end of a loop started at `now` with `timeout`.
pub open spec fn end_of(now: u64, timeout: Option<u64>) -> LoopEnd {
    match timeout {
        Some(t) => if t == 0 {
            LoopEnd::Unbounded
        } else if now + t <= u64::MAX {
            LoopEnd::At((now + t) as u64)
        } else {
            LoopEnd::Never
        },
        None => LoopEnd::Unbounded,
    }
}

/// How long the wait before a look may last at `now`: none when unbounded,
/// the longest when the end is never reached, else what is left of it.
pub open spec fn wait_left(end: LoopEnd, now: u64) -> Option<u64> {
    match end {
        LoopEnd::Unbounded => None,
        LoopEnd::Never => Some(u64::MAX),
        LoopEnd::At(e) => Some(if now < e { (e - now) as u64 } else { 0 }),
    }
}

/// What comes before the next item at `now`: nothing after the end; a wait
/// after a pending item, unless the end is past, where ib_async's wait
/// times out at once; else a look.
pub open spec fn action_at(s: LoopUntil, now: u64) -> LoopAction {
    if s.done {
        LoopAction::End
    } else if s.waiting && wait_left(s.end, now) != Some(0u64) {
        LoopAction::Wait(wait_left(s.end, now))
    } else {
        LoopAction::Look
    }
}

/// Whether the end is past at `now`.
pub open spec fn past(end: LoopEnd, now: u64) -> bool {
    end matches LoopEnd::At(e) && now > e
}

impl LoopUntil {
    /// A loop started at `now` that times out after `timeout`, `None` or
    /// zero being no limit.
    pub fn new(now: u64, timeout: Option<u64>) -> (r: LoopUntil)
        ensures
            r.end == end_of(now, timeout),
            !r.waiting,
            !r.done,
    {
        let end = match timeout {
            Some(t) => if t == 0 {
                LoopEnd::Unbounded
            } else {
                match now.checked_add(t) {
                    Some(e) => LoopEnd::At(e),
                    None => LoopEnd::Never,
                }
            },
            None => LoopEnd::Unbounded,
        };
        LoopUntil { end, waiting: false, done: false }
    }

    /// What comes before the next item at `now`. A wait is taken: the item
    /// after it looks at once.
    pub fn next_action(&mut self, now: u64) -> (r: LoopAction)
        ensures
            r == action_at(*old(self), now),
            final(self).end == old(self).end,
            final(self).done == old(self).done,
            !old(self).done ==> !final(self).waiting,
            old(self).done ==> final(self).waiting == old(self).waiting,
    {
        if self.done {
            return LoopAction::End;
        }
        let waiting = self.waiting;
        self.waiting = false;
        if waiting {
            let left = match self.end {
                LoopEnd::Unbounded => None,
                LoopEnd::Never => Some(u64::MAX),
                LoopEnd::At(e) => Some(if now < e { e - now } else { 0 }),
            };
            match left {
                Some(0) => {},
                _ => return LoopAction::Wait(left),
            }
        }
        LoopAction::Look
    }

    /// The wait failed: the failure is the last item.
    pub fn wait_failed(&mut self)
        ensures
            final(self).done,
            final(self).end == old(self).end,
            final(self).waiting == old(self).waiting,
    {
        self.done = true;
    }

    /// The item of a look at the condition at `now`, which gave `value`:
    /// its value ends the loop; else a passed end does; else the item is
    /// pending and the next one waits.
    pub fn looked<T>(&mut self, value: Option<T>, now: u64) -> (r: LoopItem<T>)
        requires
            !old(self).done,
        ensures
            final(self).end == old(self).end,
            match value {
                Some(v) => r == LoopItem::Done(v) && final(self).done,
                None => if past(old(self).end, now) {
                    r == LoopItem::<T>::TimedOut && final(self).done
                } else {
                    r == LoopItem::<T>::Pending && !final(self).done && final(self).waiting
                },
            },
    {
        match value {
            Some(v) => {
                self.done = true;
                LoopItem::Done(v)
            },
            None => {
                let passed = match self.end {
                    LoopEnd::At(e) => now > e,
                    _ => false,
                };
                if passed {
                    self.done = true;
                    LoopItem::TimedOut
                } else {
                    self.waiting = true;
                    LoopItem::Pending
                }
            },
        }
    }
}

/// The first item looks at the condition at once, without a wait.
pub proof fn law_the_first_item_looks_at_once(start: u64, timeout: Option<u64>, now: u64)
    ensures
        action_at(LoopUntil { end: end_of(start, timeout), waiting: false, done: false }, now)
            == LoopAction::Look,
{
}

/// Once the loop has ended, by its value, its timeout or a failed wait,
/// nothing more comes.
pub proof fn law_nothing_after_the_end(s: LoopUntil, now: u64)
    requires
        s.done,
    ensures
        action_at(s, now) == LoopAction::End,
{
}

/// A timeout of `None` or zero never passes: the loop has no end and waits
/// without limit.
pub proof fn law_no_timeout_never_passes(start: u64, timeout: Option<u64>, now: u64)
    requires
        !bounded(timeout),
    ensures
        !past(end_of(start, timeout), now),
        wait_left(end_of(start, timeout), now) is None,
{
}

/// A wait never outlasts the timeout: before the end it lasts exactly until
/// the end, and once the end is reached no wait comes before the look that
/// times out.
pub proof fn law_waits_end_at_the_timeout(s: LoopUntil, now: u64, e: u64)
    requires
        !s.done,
        s.waiting,
        s.end == LoopEnd::At(e),
    ensures
        now < e ==> (action_at(s, now) matches LoopAction::Wait(Some(left)) && now + left == e),
        now >= e ==> action_at(s, now) == LoopAction::Look,
{
}

/// ib_async's timeout of 0, no limit, where its default is no limit too:
/// `None` and zero are both no limit.
pub fn unlimited_at_zero(timeout: Option<u64>) -> (r: Option<u64>)
    ensures
        r == (if bounded(timeout) { timeout } else { None::<u64> }),
{
    match timeout {
        Some(t) => if t == 0 {
            None
        } else {
            Some(t)
        },
        None => None,
    }
}

/// `timeout` as a method whose default is `default` takes it: `None` is the
/// default, zero no limit.
pub fn limit(timeout: Option<u64>, default: u64) -> (r: Option<u64>)
    ensures
        r == match timeout {
            None => Some(default),
            Some(t) => if t == 0 {
                None::<u64>
            } else {
                Some(t)
            },
        },
{
    match timeout {
        None => Some(default),
        Some(t) => if t == 0 {
            None
        } else {
            Some(t)
        },
    }
}

} // verus!

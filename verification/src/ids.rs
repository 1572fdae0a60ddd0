//! The id space a session numbers its orders and requests from.

use vstd::prelude::*;

use crate::error::Error;

verus! {

/// The numbers a session gives to its orders and requests: each at most
/// once, upward from the largest floor it was told of, and never inside the
/// range the engine keeps for itself, which starts at `reserved_from`.
pub struct IdSpace {
    next: i64,
    reserved_from: i64,
}

/// The first of the numbers an allocation gives: the next number, or the
/// engine's floor when that is larger.
pub open spec fn first_given(next: int, floor: int) -> int {
    if next >= floor { next } else { floor }
}

/// The next number after `min_id` is raised into a space whose next number
/// is `next`: raised only upward and only below the engine's range.
pub open spec fn raised(next: int, reserved: int, min_id: int) -> int {
    if min_id < reserved && min_id > next { min_id } else { next }
}

/// The error an allocation past the engine's range gives.
pub open spec fn no_id_left() -> Seq<char> {
    "no request id is left below the engine's own"@
}

impl IdSpace {
    /// The lowest number that may be given next.
    pub closed spec fn next_id(&self) -> i64 {
        self.next
    }

    /// Where the engine's own range starts.
    pub closed spec fn reserved(&self) -> i64 {
        self.reserved_from
    }

    /// An id space whose first number is 0 and whose engine range starts at
    /// `reserved_from`.
    pub fn new(reserved_from: i64) -> (r: IdSpace)
        ensures
            r.next_id() == 0,
            r.reserved() == reserved_from,
    {
        IdSpace { next: 0, reserved_from }
    }

    /// `count` consecutive numbers, from the larger of the next number and
    /// `floor`, the engine's own floor for order ids; the first is given.
    /// Numbers that would reach the engine's range are not given.
    pub fn allocate(&mut self, floor: i64, count: i64) -> (r: Result<i64, Error>)
        requires
            count >= 1,
        ensures
            final(self).reserved() == old(self).reserved(),
            ({
                let first = first_given(old(self).next_id() as int, floor as int);
                if first + count <= old(self).reserved() {
                    &&& r matches Ok(v) && v == first
                    &&& final(self).next_id() == first + count
                } else {
                    &&& r matches Err(Error::Value(m)) && m@ == no_id_left()
                    &&& final(self).next_id() == old(self).next_id()
                }
            }),
    {
        let first = if self.next >= floor { self.next } else { floor };
        if (first as i128) + (count as i128) <= (self.reserved_from as i128) {
            self.next = first + count;
            Ok(first)
        } else {
            Err(Error::Value("no request id is left below the engine's own".to_string()))
        }
    }

    /// Numbers below `min_id` are not given from now on; a number inside the
    /// engine's range is ignored.
    pub fn raise(&mut self, min_id: i64)
        ensures
            final(self).reserved() == old(self).reserved(),
            final(self).next_id() == raised(
                old(self).next_id() as int,
                old(self).reserved() as int,
                min_id as int,
            ),
    {
        if min_id < self.reserved_from && min_id > self.next {
            self.next = min_id;
        }
    }
}

/// No number is given twice and none reaches the engine's range: what one
/// allocation gives lies wholly below the engine's range and below every
/// number a later allocation gives, whatever floor it is told of.
pub proof fn law_allocations_never_overlap(
    next: int,
    reserved: int,
    floor: int,
    count: int,
    later_floor: int,
)
    requires
        count >= 1,
        first_given(next, floor) + count <= reserved,
    ensures
        first_given(next, floor) >= next,
        first_given(first_given(next, floor) + count, later_floor) >= first_given(next, floor)
            + count,
{
}

/// The next number never falls: raising it to a smaller number, or into the
/// engine's range, leaves it.
pub proof fn law_raise_never_lowers(next: int, reserved: int, min_id: int)
    ensures
        raised(next, reserved, min_id) >= next,
        next < reserved ==> raised(next, reserved, min_id) < reserved,
{
}

} // verus!

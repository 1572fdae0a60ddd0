//! What `connect` takes: ib_async's `connect` arguments, and what it fetches
//! at startup, ib_async's `StartupFetch` flags, as a set of six bits.

use std::ops::{BitAnd, BitOr, BitXor, Not};
use vstd::prelude::*;

verus! {

/// The six bits a set of startup fetches is made of.
pub const FETCH_BITS: u8 = 63;

/// Every bit of `flags` is set in `set`.
pub open spec fn holds(set: u8, flags: u8) -> bool {
    set & flags == flags
}

/// What `connect` fetches at startup: ib_async's `StartupFetch` flags.
#[derive(Clone, Copy, Debug, PartialEq, Eq, Hash, Structural)]
pub struct StartupFetch(u8);

impl StartupFetch {
    /// The positions.
    pub fn positions() -> (r: StartupFetch)
        ensures
            r.bits() == 1,
    {
        StartupFetch(1)
    }

    /// The open orders.
    pub fn orders_open() -> (r: StartupFetch)
        ensures
            r.bits() == 2,
    {
        StartupFetch(2)
    }

    /// The completed orders.
    pub fn orders_complete() -> (r: StartupFetch)
        ensures
            r.bits() == 4,
    {
        StartupFetch(4)
    }

    /// The account's updates.
    pub fn account_updates() -> (r: StartupFetch)
        ensures
            r.bits() == 8,
    {
        StartupFetch(8)
    }

    /// Each account's updates.
    pub fn sub_account_updates() -> (r: StartupFetch)
        ensures
            r.bits() == 16,
    {
        StartupFetch(16)
    }

    /// The executions.
    pub fn executions() -> (r: StartupFetch)
        ensures
            r.bits() == 32,
    {
        StartupFetch(32)
    }

    /// Everything: `StartupFetchALL`.
    pub fn all() -> (r: StartupFetch)
        ensures
            r.bits() == 63,
    {
        StartupFetch(63)
    }

    /// Nothing: `StartupFetchNONE`.
    pub fn none() -> (r: StartupFetch)
        ensures
            r.bits() == 0,
    {
        StartupFetch(0)
    }

    /// The bits of the set.
    pub closed spec fn bits(self) -> u8 {
        self.0
    }

    /// The set holds no bit past the six flags. Every value built from the
    /// flags and the operators below is valid.
    pub open spec fn valid(self) -> bool {
        self.bits() & FETCH_BITS == self.bits()
    }

    /// The set's bits.
    pub fn value(self) -> (r: u8)
        ensures
            r == self.bits(),
    {
        self.0
    }

    /// Whether every flag of `other` is set.
    pub fn contains(self, other: StartupFetch) -> (r: bool)
        ensures
            r == holds(self.bits(), other.bits()),
    {
        self.0 & other.0 == other.0
    }
}

impl BitOr for StartupFetch {
    type Output = StartupFetch;

    /// The flags set in either.
    fn bitor(self, rhs: Self) -> (r: Self)
        ensures
            r.bits() == self.bits() | rhs.bits(),
    {
        StartupFetch(self.0 | rhs.0)
    }
}

impl vstd::std_specs::ops::BitOrSpecImpl for StartupFetch {
    open spec fn obeys_bitor_spec() -> bool {
        true
    }

    open spec fn bitor_req(self, rhs: StartupFetch) -> bool {
        true
    }

    closed spec fn bitor_spec(self, rhs: StartupFetch) -> StartupFetch {
        StartupFetch(self.0 | rhs.0)
    }
}

impl BitAnd for StartupFetch {
    type Output = StartupFetch;

    /// The flags set in both.
    fn bitand(self, rhs: Self) -> (r: Self)
        ensures
            r.bits() == self.bits() & rhs.bits(),
    {
        StartupFetch(self.0 & rhs.0)
    }
}

impl vstd::std_specs::ops::BitAndSpecImpl for StartupFetch {
    open spec fn obeys_bitand_spec() -> bool {
        true
    }

    open spec fn bitand_req(self, rhs: StartupFetch) -> bool {
        true
    }

    closed spec fn bitand_spec(self, rhs: StartupFetch) -> StartupFetch {
        StartupFetch(self.0 & rhs.0)
    }
}

impl BitXor for StartupFetch {
    type Output = StartupFetch;

    /// The flags set in exactly one.
    fn bitxor(self, rhs: Self) -> (r: Self)
        ensures
            r.bits() == self.bits() ^ rhs.bits(),
    {
        StartupFetch(self.0 ^ rhs.0)
    }
}

impl vstd::std_specs::ops::BitXorSpecImpl for StartupFetch {
    open spec fn obeys_bitxor_spec() -> bool {
        true
    }

    open spec fn bitxor_req(self, rhs: StartupFetch) -> bool {
        true
    }

    closed spec fn bitxor_spec(self, rhs: StartupFetch) -> StartupFetch {
        StartupFetch(self.0 ^ rhs.0)
    }
}

impl Not for StartupFetch {
    type Output = StartupFetch;

    /// The flags not set, of the six.
    fn not(self) -> (r: Self)
        ensures
            r.bits() == !self.bits() & FETCH_BITS,
    {
        StartupFetch(!self.0 & FETCH_BITS)
    }
}

impl vstd::std_specs::ops::NotSpecImpl for StartupFetch {
    open spec fn obeys_not_spec() -> bool {
        true
    }

    open spec fn not_req(self) -> bool {
        true
    }

    closed spec fn not_spec(self) -> StartupFetch {
        StartupFetch(!self.0 & FETCH_BITS)
    }
}

/// A union holds each of its parts, and the set it is made of is the
/// smallest that does: `a | b` contains `a` and `b`, and whatever contains
/// both contains `a | b`.
pub proof fn law_union_holds_its_parts(a: StartupFetch, b: StartupFetch, c: StartupFetch)
    ensures
        holds(a.bits() | b.bits(), a.bits()),
        holds(a.bits() | b.bits(), b.bits()),
        holds(c.bits(), a.bits()) && holds(c.bits(), b.bits()) ==> holds(
            c.bits(),
            a.bits() | b.bits(),
        ),
{
    let (x, y, z) = (a.bits(), b.bits(), c.bits());
    assert((x | y) & x == x) by (bit_vector);
    assert((x | y) & y == y) by (bit_vector);
    assert((z & x == x && z & y == y) ==> z & (x | y) == (x | y)) by (bit_vector);
}

/// A set contains another exactly when adding the other changes nothing,
/// and exactly when their intersection is the other.
pub proof fn law_contains_is_absorption(a: StartupFetch, b: StartupFetch)
    ensures
        holds(a.bits(), b.bits()) <==> (a.bits() | b.bits()) == a.bits(),
        holds(a.bits(), b.bits()) <==> (a.bits() & b.bits()) == b.bits(),
{
    let (x, y) = (a.bits(), b.bits());
    assert((x & y == y) <==> ((x | y) == x)) by (bit_vector);
}

/// Every set contains the empty set, and the full set contains every valid
/// set.
pub proof fn law_none_and_all_bound_every_set(a: StartupFetch)
    ensures
        holds(a.bits(), 0),
        a.valid() ==> holds(FETCH_BITS, a.bits()),
{
    let x = a.bits();
    assert(x & 0 == 0) by (bit_vector);
    assert(x & 63 == x ==> 63u8 & x == x) by (bit_vector);
}

/// The complement of a valid set shares no flag with it, makes the full set
/// with it, and gives the set back when taken twice; the operators keep sets
/// valid.
pub proof fn law_complement(a: StartupFetch, b: StartupFetch)
    requires
        a.valid(),
        b.valid(),
    ensures
        (!a.bits() & FETCH_BITS) & a.bits() == 0,
        (!a.bits() & FETCH_BITS) | a.bits() == FETCH_BITS,
        !(!a.bits() & FETCH_BITS) & FETCH_BITS == a.bits(),
        (a.bits() | b.bits()) & FETCH_BITS == a.bits() | b.bits(),
        (a.bits() & b.bits()) & FETCH_BITS == a.bits() & b.bits(),
        (a.bits() ^ b.bits()) & FETCH_BITS == a.bits() ^ b.bits(),
        (!a.bits() & FETCH_BITS) & FETCH_BITS == !a.bits() & FETCH_BITS,
{
    let (x, y) = (a.bits(), b.bits());
    assert(x & 63 == x ==> (!x & 63) & x == 0) by (bit_vector);
    assert(x & 63 == x ==> (!x & 63) | x == 63) by (bit_vector);
    assert(x & 63 == x ==> !(!x & 63) & 63 == x) by (bit_vector);
    assert(x & 63 == x && y & 63 == y ==> (x | y) & 63 == x | y) by (bit_vector);
    assert(x & 63 == x && y & 63 == y ==> (x & y) & 63 == x & y) by (bit_vector);
    assert(x & 63 == x && y & 63 == y ==> (x ^ y) & 63 == x ^ y) by (bit_vector);
    assert((!x & 63) & 63 == !x & 63) by (bit_vector);
}

/// What `connect` takes: ib_async's `connect` arguments. The engine's own
/// settings, its login among them, are the engine's; durations are in
/// nanoseconds.
#[derive(Clone, Debug)]
pub struct ConnectOptions {
    /// `clientId`: a 32-bit integer.
    pub client_id: i64,
    /// Bounds the wait for the account's working orders, ib_async's
    /// handshake, and each startup request: `timeout`. `Some(0)` is none.
    pub timeout: Option<u64>,
    /// Bounds the engine's login alone, which no ib_async timeout bounds.
    /// `None` is the engine's own bounds.
    pub logon_timeout: Option<u64>,
    /// The account whose updates are fetched, `""` for a lone one:
    /// `account`.
    pub account: String,
    /// Whether a startup request that times out fails the connect:
    /// `raiseSyncErrors`.
    pub raise_sync_errors: bool,
    /// What is fetched at startup: `fetchFields`.
    pub fetch_fields: StartupFetch,
}

impl Default for ConnectOptions {
    /// ib_async's defaults: client 1, four seconds, no account, errors not
    /// raised, everything fetched.
    fn default() -> (r: ConnectOptions)
        ensures
            r.client_id == 1,
            r.timeout == Some(4_000_000_000u64),
            r.logon_timeout is None,
            r.account@.len() == 0,
            !r.raise_sync_errors,
            r.fetch_fields.bits() == FETCH_BITS,
    {
        ConnectOptions {
            client_id: 1,
            timeout: Some(4_000_000_000),
            logon_timeout: None,
            account: String::new(),
            raise_sync_errors: false,
            fetch_fields: StartupFetch::all(),
        }
    }
}

impl ConnectOptions {
    /// The account the session is named after: `account`, or the login's
    /// user name where no account is given.
    pub fn account_named(&self, username: &str) -> (r: String)
        ensures
            r@ == (if self.account@.len() == 0 {
                username@
            } else {
                self.account@
            }),
    {
        if self.account.as_str().is_empty() {
            username.to_owned()
        } else {
            self.account.clone()
        }
    }

    /// The bound on the wait for the account's working orders and the
    /// startup requests: `timeout`, a zero being none.
    pub fn wait_bound(&self) -> (r: Option<u64>)
        ensures
            r == (match self.timeout {
                Some(t) => if t == 0 {
                    None::<u64>
                } else {
                    Some(t)
                },
                None => None::<u64>,
            }),
    {
        match self.timeout {
            Some(t) => if t == 0 {
                None
            } else {
                Some(t)
            },
            None => None,
        }
    }
}

} // verus!

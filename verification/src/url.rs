//! Whether a Flex web service address has a scheme and a host, as Python's
//! `urllib.parse.urlparse` reads one, and the IPv6 address form its
//! bracketed hosts are checked against.

use vstd::prelude::*;
use crate::text::chars_of;

verus! {

// -- Searching a text ----------------------------------------------------------

/// The character `x`.
pub open spec fn is_char(x: char) -> spec_fn(char) -> bool {
    |c: char| c == x
}

/// The index of the first character of `s` that `p` holds of.
pub open spec fn first_of(s: Seq<char>, p: spec_fn(char) -> bool) -> Option<int>
    decreases s.len(),
{
    if s.len() == 0 {
        None
    } else if p(s[0]) {
        Some(0)
    } else {
        match first_of(s.drop_first(), p) {
            Some(k) => Some(k + 1),
            None => None,
        }
    }
}

/// The index of the last character of `s` that `p` holds of.
pub open spec fn last_of(s: Seq<char>, p: spec_fn(char) -> bool) -> Option<int>
    decreases s.len(),
{
    if s.len() == 0 {
        None
    } else if p(s.last()) {
        Some(s.len() - 1)
    } else {
        last_of(s.drop_last(), p)
    }
}

/// `first_of` gives the least index whose character `p` holds of, or none
/// when there is none.
pub proof fn lemma_first_of(s: Seq<char>, p: spec_fn(char) -> bool)
    ensures
        match first_of(s, p) {
            Some(k) => 0 <= k < s.len() && p(s[k]) && forall|j: int| 0 <= j < k ==> !p(#[trigger] s[j]),
            None => forall|j: int| 0 <= j < s.len() ==> !p(#[trigger] s[j]),
        },
    decreases s.len(),
{
    if s.len() > 0 && !p(s[0]) {
        lemma_first_of(s.drop_first(), p);
        assert forall|j: int| 0 < j < s.len() implies s[j] == s.drop_first()[j - 1] by {}
    }
}

/// `last_of` gives the greatest index whose character `p` holds of, or none
/// when there is none.
pub proof fn lemma_last_of(s: Seq<char>, p: spec_fn(char) -> bool)
    ensures
        match last_of(s, p) {
            Some(k) => 0 <= k < s.len() && p(s[k]) && forall|j: int| k < j < s.len() ==> !p(#[trigger] s[j]),
            None => forall|j: int| 0 <= j < s.len() ==> !p(#[trigger] s[j]),
        },
    decreases s.len(),
{
    if s.len() > 0 && !p(s.last()) {
        lemma_last_of(s.drop_last(), p);
        assert forall|j: int| 0 <= j < s.len() - 1 implies s[j] == s.drop_last()[j] by {}
    }
}

/// `s` split at its first `x`: what comes before, and what comes after.
pub open spec fn split_once(s: Seq<char>, x: char) -> Option<(Seq<char>, Seq<char>)> {
    match first_of(s, is_char(x)) {
        Some(k) => Some((s.take(k), s.skip(k + 1))),
        None => None,
    }
}

/// `s` split at its last `x`.
pub open spec fn rsplit_once(s: Seq<char>, x: char) -> Option<(Seq<char>, Seq<char>)> {
    match last_of(s, is_char(x)) {
        Some(k) => Some((s.take(k), s.skip(k + 1))),
        None => None,
    }
}

/// A kind of character a search looks for.
#[derive(Clone, Copy, Debug, PartialEq, Eq, Structural)]
pub enum Which {
    /// One character.
    Char(char),
    /// A character above the space, where `lstrip` of controls and spaces
    /// stops.
    AboveSpace,
    /// A character that ends a URL's network location: `/`, `?` or `#`.
    NetlocEnd,
}

/// What a kind of character is.
pub open spec fn which_pred(w: Which) -> spec_fn(char) -> bool {
    match w {
        Which::Char(x) => is_char(x),
        Which::AboveSpace => |c: char| c > ' ',
        Which::NetlocEnd => |c: char| c == '/' || c == '?' || c == '#',
    }
}

/// Whether `c` is of kind `w`.
fn is_which(w: Which, c: char) -> (r: bool)
    ensures
        r == which_pred(w)(c),
{
    match w {
        Which::Char(x) => c == x,
        Which::AboveSpace => c > ' ',
        Which::NetlocEnd => c == '/' || c == '?' || c == '#',
    }
}

/// The index of the first character of kind `w` in `cs`.
fn find_where(cs: &Vec<char>, w: Which) -> (r: Option<usize>)
    ensures
        r matches Some(k) ==> first_of(cs@, which_pred(w)) == Some(k as int) && k < cs.len(),
        r is None ==> first_of(cs@, which_pred(w)) is None,
{
    let ghost p = which_pred(w);
    proof {
        lemma_first_of(cs@, p);
    }
    let mut i: usize = 0;
    while i < cs.len()
        invariant
            i <= cs.len(),
            p == which_pred(w),
            forall|j: int| 0 <= j < i ==> !p(#[trigger] cs@[j]),
            match first_of(cs@, p) {
                Some(k) => 0 <= k < cs@.len() && p(cs@[k]) && forall|j: int|
                    0 <= j < k ==> !p(#[trigger] cs@[j]),
                None => forall|j: int| 0 <= j < cs@.len() ==> !p(#[trigger] cs@[j]),
            },
        decreases cs.len() - i,
    {
        if is_which(w, cs[i]) {
            return Some(i);
        }
        i += 1;
    }
    None
}

/// The index of the first `x` in `cs`.
fn find_first(cs: &Vec<char>, x: char) -> (r: Option<usize>)
    ensures
        r matches Some(k) ==> first_of(cs@, is_char(x)) == Some(k as int) && k < cs.len(),
        r is None ==> first_of(cs@, is_char(x)) is None,
{
    find_where(cs, Which::Char(x))
}

/// The index of the last `x` in `cs`.
fn find_last(cs: &Vec<char>, x: char) -> (r: Option<usize>)
    ensures
        r matches Some(k) ==> last_of(cs@, is_char(x)) == Some(k as int) && k < cs.len(),
        r is None ==> last_of(cs@, is_char(x)) is None,
{
    proof {
        lemma_last_of(cs@, is_char(x));
    }
    let mut i: usize = cs.len();
    while i > 0
        invariant
            i <= cs.len(),
            forall|j: int| i <= j < cs@.len() ==> !is_char(x)(#[trigger] cs@[j]),
            match last_of(cs@, is_char(x)) {
                Some(k) => 0 <= k < cs@.len() && is_char(x)(cs@[k]) && forall|j: int|
                    k < j < cs@.len() ==> !is_char(x)(#[trigger] cs@[j]),
                None => forall|j: int| 0 <= j < cs@.len() ==> !is_char(x)(#[trigger] cs@[j]),
            },
        decreases i,
    {
        if cs[i - 1] == x {
            assert(is_char(x)(cs@[i - 1]));
            return Some(i - 1);
        }
        i -= 1;
    }
    None
}

/// The characters of `cs` from `lo` up to `hi`.
fn slice_of(cs: &Vec<char>, lo: usize, hi: usize) -> (r: Vec<char>)
    requires
        lo <= hi <= cs.len(),
    ensures
        r@ == cs@.subrange(lo as int, hi as int),
{
    let mut r: Vec<char> = Vec::new();
    let mut i: usize = lo;
    while i < hi
        invariant
            lo <= i <= hi <= cs.len(),
            r@ == cs@.subrange(lo as int, i as int),
        decreases hi - i,
    {
        r.push(cs[i]);
        i += 1;
        assert(r@ =~= cs@.subrange(lo as int, i as int));
    }
    r
}

/// `cs` split at its first `x`.
fn split_first(cs: &Vec<char>, x: char) -> (r: Option<(Vec<char>, Vec<char>)>)
    ensures
        match split_once(cs@, x) {
            Some((a, b)) => r matches Some((ra, rb)) && ra@ == a && rb@ == b,
            None => r is None,
        },
{
    match find_first(cs, x) {
        Some(k) => {
            let a = slice_of(cs, 0, k);
            let b = slice_of(cs, k + 1, cs.len());
            assert(a@ =~= cs@.take(k as int));
            assert(b@ =~= cs@.skip(k + 1));
            Some((a, b))
        },
        None => None,
    }
}

/// `cs` split at its last `x`.
fn split_last(cs: &Vec<char>, x: char) -> (r: Option<(Vec<char>, Vec<char>)>)
    ensures
        match rsplit_once(cs@, x) {
            Some((a, b)) => r matches Some((ra, rb)) && ra@ == a && rb@ == b,
            None => r is None,
        },
{
    match find_last(cs, x) {
        Some(k) => {
            let a = slice_of(cs, 0, k);
            let b = slice_of(cs, k + 1, cs.len());
            assert(a@ =~= cs@.take(k as int));
            assert(b@ =~= cs@.skip(k + 1));
            Some((a, b))
        },
        None => None,
    }
}

/// Whether `cs` holds `x`.
fn has_char(cs: &Vec<char>, x: char) -> (r: bool)
    ensures
        r == cs@.contains(x),
{
    proof {
        lemma_first_of(cs@, is_char(x));
    }
    match find_first(cs, x) {
        Some(k) => {
            assert(cs@[k as int] == x);
            true
        },
        None => {
            assert forall|j: int| 0 <= j < cs@.len() implies cs@[j] != x by {
                assert(!is_char(x)(cs@[j]));
            }
            false
        },
    }
}

// -- The IPv6 address form -------------------------------------------------------

/// A decimal digit.
pub open spec fn is_digit(c: char) -> bool {
    '0' <= c <= '9'
}

/// A hexadecimal digit, in either case.
pub open spec fn is_hex(c: char) -> bool {
    is_digit(c) || ('a' <= c <= 'f') || ('A' <= c <= 'F')
}

/// A group of an IPv6 address: one to four hexadecimal digits.
pub open spec fn hex_group(g: Seq<char>) -> bool {
    1 <= g.len() <= 4 && forall|i: int| 0 <= i < g.len() ==> is_hex(#[trigger] g[i])
}

/// The value of a run of decimal digits.
pub open spec fn dec_value(s: Seq<char>) -> int
    decreases s.len(),
{
    if s.len() == 0 {
        0
    } else {
        dec_value(s.drop_last()) * 10 + (s.last() as int - '0' as int)
    }
}

/// An octet of an IPv4 address as Rust reads one: one to three decimal
/// digits, at most 255, with no leading zero.
pub open spec fn dec_octet(o: Seq<char>) -> bool {
    &&& 1 <= o.len() <= 3
    &&& forall|i: int| 0 <= i < o.len() ==> is_digit(#[trigger] o[i])
    &&& dec_value(o) <= 255
    &&& (o.len() == 1 || o[0] != '0')
}

/// `s` is `n` octets, one dot between each two.
pub open spec fn octets(s: Seq<char>, n: nat) -> bool
    decreases n,
{
    if n <= 1 {
        n == 1 && dec_octet(s)
    } else {
        match split_once(s, '.') {
            Some((o, rest)) => dec_octet(o) && octets(rest, (n - 1) as nat),
            None => false,
        }
    }
}

/// A run of groups, one colon between each two, the last of which may be an
/// IPv4 address: how many 16-bit groups it stands for, and whether it ends
/// with an IPv4 address.
pub open spec fn chunk(s: Seq<char>) -> Option<(nat, bool)>
    decreases s.len(),
{
    match first_of(s, is_char(':')) {
        None => if hex_group(s) {
            Some((1nat, false))
        } else if octets(s, 4) {
            Some((2nat, true))
        } else {
            None
        },
        Some(k) => if hex_group(s.take(k)) {
            proof {
                lemma_first_of(s, is_char(':'));
            }
            match chunk(s.skip(k + 1)) {
                Some((w, v4)) => Some((w + 1, v4)),
                None => None,
            }
        } else {
            None
        },
    }
}

/// The index of the first `::` in `s`.
pub open spec fn first_double_colon(s: Seq<char>) -> Option<int>
    decreases s.len(),
{
    if s.len() < 2 {
        None
    } else if s[0] == ':' && s[1] == ':' {
        Some(0)
    } else {
        match first_double_colon(s.drop_first()) {
            Some(k) => Some(k + 1),
            None => None,
        }
    }
}

/// `first_double_colon` gives the least index of a `::`.
pub proof fn lemma_first_double_colon(s: Seq<char>)
    ensures
        match first_double_colon(s) {
            Some(k) => 0 <= k && k + 1 < s.len() && s[k] == ':' && s[k + 1] == ':' && forall|j: int|
                0 <= j < k ==> !(#[trigger] s[j] == ':' && s[j + 1] == ':'),
            None => forall|j: int| 0 <= j && j + 1 < s.len() ==> !(#[trigger] s[j] == ':' && s[j + 1] == ':'),
        },
    decreases s.len(),
{
    if s.len() >= 2 && !(s[0] == ':' && s[1] == ':') {
        lemma_first_double_colon(s.drop_first());
        assert forall|j: int| 0 < j < s.len() implies s[j] == s.drop_first()[j - 1] by {}
    }
}

/// One side of an address's `::`, which may be empty.
pub open spec fn part(s: Seq<char>) -> Option<(nat, bool)> {
    if s.len() == 0 {
        Some((0nat, false))
    } else {
        chunk(s)
    }
}

/// Whether Rust's `Ipv6Addr` parser reads `s`: eight groups, or fewer on the
/// two sides of one `::` that stands for at least one group of zeros. An
/// IPv4 address may stand for the last two groups, but not before a `::`.
pub open spec fn ipv6_text(s: Seq<char>) -> bool {
    match first_double_colon(s) {
        None => chunk(s) matches Some((w, _)) && w == 8,
        Some(k) => match (part(s.take(k)), part(s.skip(k + 2))) {
            (Some((a, head_v4)), Some((b, _))) => !head_v4 && a + b <= 7,
            _ => false,
        },
    }
}

/// Whether `c` is a decimal digit.
fn digit(c: char) -> (r: bool)
    ensures
        r == is_digit(c),
{
    '0' <= c && c <= '9'
}

/// Whether `c` is a hexadecimal digit.
fn hex_digit(c: char) -> (r: bool)
    ensures
        r == is_hex(c),
{
    ('0' <= c && c <= '9') || ('a' <= c && c <= 'f') || ('A' <= c && c <= 'F')
}

/// Whether `g` is a group of an IPv6 address.
fn is_hex_group(g: &Vec<char>) -> (r: bool)
    ensures
        r == hex_group(g@),
{
    if g.len() < 1 || g.len() > 4 {
        return false;
    }
    let mut i: usize = 0;
    while i < g.len()
        invariant
            i <= g.len(),
            forall|j: int| 0 <= j < i ==> is_hex(#[trigger] g@[j]),
        decreases g.len() - i,
    {
        if !hex_digit(g[i]) {
            return false;
        }
        i += 1;
    }
    true
}

/// Whether `o` is an octet of an IPv4 address.
fn is_dec_octet(o: &Vec<char>) -> (r: bool)
    ensures
        r == dec_octet(o@),
{
    if o.len() < 1 || o.len() > 3 {
        return false;
    }
    let mut v: u32 = 0;
    let mut i: usize = 0;
    while i < o.len()
        invariant
            i <= o.len() <= 3,
            forall|j: int| 0 <= j < i ==> is_digit(#[trigger] o@[j]),
            v == dec_value(o@.take(i as int)),
            (i == 0 && v == 0) || (i == 1 && v < 10) || (i == 2 && v < 100) || (i == 3 && v
                < 1000),
        decreases o.len() - i,
    {
        if !digit(o[i]) {
            return false;
        }
        proof {
            assert(o@.take(i + 1).drop_last() =~= o@.take(i as int));
            assert(o@.take(i + 1).last() == o@[i as int]);
        }
        v = v * 10 + (o[i] as u32 - '0' as u32);
        i += 1;
    }
    assert(o@.take(o@.len() as int) =~= o@);
    v <= 255 && (o.len() == 1 || o[0] != '0')
}

/// Whether `s` is `n` octets, one dot between each two.
fn are_octets(s: &Vec<char>, n: usize) -> (r: bool)
    ensures
        r == octets(s@, n as nat),
    decreases n,
{
    if n <= 1 {
        n == 1 && is_dec_octet(s)
    } else {
        match split_first(s, '.') {
            Some((o, rest)) => is_dec_octet(&o) && are_octets(&rest, n - 1),
            None => false,
        }
    }
}

/// What `chunk` gives for `s`.
fn chunk_of(s: &Vec<char>) -> (r: Option<(usize, bool)>)
    ensures
        match chunk(s@) {
            Some((w, v4)) => r matches Some((rw, rv4)) && rw == w && rv4 == v4,
            None => r is None,
        },
        r matches Some((w, _)) ==> w <= s@.len(),
    decreases s@.len(),
{
    proof {
        lemma_first_of(s@, is_char(':'));
        lemma_first_of(s@, is_char('.'));
    }
    match split_first(s, ':') {
        None => {
            if is_hex_group(s) {
                Some((1, false))
            } else if are_octets(s, 4) {
                Some((2, true))
            } else {
                None
            }
        },
        Some((g, rest)) => {
            proof {
                let k = first_of(s@, is_char(':')).unwrap();
                assert(g@ == s@.take(k) && rest@ == s@.skip(k + 1));
                assert(g@.len() + rest@.len() + 1 == s@.len());
            }
            if is_hex_group(&g) {
                match chunk_of(&rest) {
                    Some((w, v4)) => {
                        let n = s.len();
                        assert(w + 1 <= n);
                        Some((w + 1, v4))
                    },
                    None => None,
                }
            } else {
                None
            }
        },
    }
}

/// The index of the first `::` in `s`.
fn find_double_colon(s: &Vec<char>) -> (r: Option<usize>)
    ensures
        r matches Some(k) ==> first_double_colon(s@) == Some(k as int) && k + 1 < s.len(),
        r is None ==> first_double_colon(s@) is None,
{
    proof {
        lemma_first_double_colon(s@);
    }
    if s.len() < 2 {
        return None;
    }
    let mut i: usize = 0;
    while i < s.len() - 1
        invariant
            s.len() >= 2,
            forall|j: int| 0 <= j < i && j + 1 < s@.len() ==> !(#[trigger] s@[j] == ':' && s@[j + 1] == ':'),
            match first_double_colon(s@) {
                Some(k) => 0 <= k && k + 1 < s@.len() && s@[k] == ':' && s@[k + 1] == ':'
                    && forall|j: int| 0 <= j < k ==> !(#[trigger] s@[j] == ':' && s@[j + 1] == ':'),
                None => forall|j: int|
                    0 <= j && j + 1 < s@.len() ==> !(#[trigger] s@[j] == ':' && s@[j + 1] == ':'),
            },
        decreases s.len() - i,
    {
        if s[i] == ':' && s[i + 1] == ':' {
            return Some(i);
        }
        i += 1;
    }
    None
}

/// What `part` gives for `s`.
fn part_of(s: &Vec<char>) -> (r: Option<(usize, bool)>)
    ensures
        match part(s@) {
            Some((w, v4)) => r matches Some((rw, rv4)) && rw == w && rv4 == v4,
            None => r is None,
        },
        r matches Some((w, _)) ==> w <= s@.len(),
{
    if s.len() == 0 {
        Some((0, false))
    } else {
        chunk_of(s)
    }
}

/// Whether Rust's `Ipv6Addr` parser reads `s`.
pub fn is_ipv6(s: &Vec<char>) -> (r: bool)
    ensures
        r == ipv6_text(s@),
{
    match find_double_colon(s) {
        None => match chunk_of(s) {
            Some((w, _)) => w == 8,
            None => false,
        },
        Some(k) => {
            let head = slice_of(s, 0, k);
            let tail = slice_of(s, k + 2, s.len());
            assert(head@ =~= s@.take(k as int));
            assert(tail@ =~= s@.skip(k + 2));
            match (part_of(&head), part_of(&tail)) {
                (Some((a, head_v4)), Some((b, _))) => !head_v4 && a + b <= 7,
                _ => false,
            }
        },
    }
}

// -- A URL's scheme and host -----------------------------------------------------

/// An ASCII letter.
pub open spec fn is_alpha(c: char) -> bool {
    ('a' <= c <= 'z') || ('A' <= c <= 'Z')
}

/// A character a URL scheme may hold.
pub open spec fn scheme_char(c: char) -> bool {
    is_alpha(c) || is_digit(c) || c == '+' || c == '-' || c == '.'
}

/// A URL scheme: a letter, then letters, digits, `+`, `-` and `.`.
pub open spec fn is_scheme(s: Seq<char>) -> bool {
    s.len() > 0 && is_alpha(s[0]) && forall|i: int| 0 <= i < s.len() ==> scheme_char(#[trigger] s[i])
}

/// A character `urlsplit` keeps: all but tab, carriage return and line feed.
pub open spec fn kept_char() -> spec_fn(char) -> bool {
    |c: char| c != '\t' && c != '\r' && c != '\n'
}

/// The URL `urlsplit` reads: its leading controls and spaces stripped, then
/// its tabs and line breaks dropped.
pub open spec fn cleaned(url: Seq<char>) -> Seq<char> {
    let start = match first_of(url, which_pred(Which::AboveSpace)) {
        Some(k) => k,
        None => url.len() as int,
    };
    url.skip(start).filter(kept_char())
}

/// The network location at the start of what follows `//`: up to the
/// first `/`, `?` or `#`.
pub open spec fn netloc_of(rest: Seq<char>) -> Seq<char> {
    match first_of(rest, which_pred(Which::NetlocEnd)) {
        Some(k) => rest.take(k),
        None => rest,
    }
}

/// A bracketed host as `urlsplit` checks one: `v`, hex digits, a dot and
/// more (an IPvFuture address), else an IPv6 address with an optional
/// nonempty scope after one `%`.
pub open spec fn host_ok(host: Seq<char>) -> bool {
    if host.len() > 0 && host[0] == 'v' {
        match split_once(host.skip(1), '.') {
            Some((hex, rest)) => hex.len() > 0 && (forall|i: int|
                0 <= i < hex.len() ==> is_hex(#[trigger] hex[i])) && rest.len() > 0,
            None => false,
        }
    } else {
        match split_once(host, '%') {
            None => ipv6_text(host),
            Some((addr, scope)) => scope.len() > 0 && !scope.contains('%') && ipv6_text(addr),
        }
    }
}

/// A network location with brackets as `urlsplit` checks it: after the last
/// `@`, a host in brackets at the start, followed by nothing or a port after
/// `:`; without a `[` there, the host up to the first `:`.
pub open spec fn bracketed_ok(netloc: Seq<char>) -> bool {
    let host_port = match rsplit_once(netloc, '@') {
        Some((_, h)) => h,
        None => netloc,
    };
    match split_once(host_port, '[') {
        Some((before, bracketed)) => before.len() == 0 && {
            let (host, port) = match split_once(bracketed, ']') {
                Some(p) => p,
                None => (bracketed, Seq::<char>::empty()),
            };
            (port.len() == 0 || port[0] == ':') && host_ok(host)
        },
        None => host_ok(
            match split_once(host_port, ':') {
                Some((h, _)) => h,
                None => host_port,
            },
        ),
    }
}

/// Whether `urllib.parse.urlparse` finds a scheme and a host in `url`, a URL
/// it refuses counting as neither: ib_async's `is_valid_url`.
pub open spec fn valid_url(url: Seq<char>) -> bool {
    let s = cleaned(url);
    match split_once(s, ':') {
        None => false,
        Some((scheme, rest)) => {
            &&& is_scheme(scheme)
            &&& rest.len() >= 2 && rest[0] == '/' && rest[1] == '/'
            &&& {
                let netloc = netloc_of(rest.skip(2));
                &&& netloc.len() > 0
                &&& if !netloc.contains('[') && !netloc.contains(']') {
                    true
                } else if netloc.contains('[') && netloc.contains(']') {
                    bracketed_ok(netloc)
                } else {
                    false
                }
            }
        },
    }
}

/// Whether `c` is an ASCII letter.
fn alpha(c: char) -> (r: bool)
    ensures
        r == is_alpha(c),
{
    ('a' <= c && c <= 'z') || ('A' <= c && c <= 'Z')
}

/// Whether `s` is a URL scheme.
fn is_scheme_text(s: &Vec<char>) -> (r: bool)
    ensures
        r == is_scheme(s@),
{
    if s.len() == 0 || !alpha(s[0]) {
        return false;
    }
    let mut i: usize = 0;
    while i < s.len()
        invariant
            i <= s.len(),
            forall|j: int| 0 <= j < i ==> scheme_char(#[trigger] s@[j]),
        decreases s.len() - i,
    {
        let c = s[i];
        if !(alpha(c) || digit(c) || c == '+' || c == '-' || c == '.') {
            return false;
        }
        i += 1;
    }
    true
}

/// Whether every character of `s` is a hexadecimal digit.
fn all_hex(s: &Vec<char>) -> (r: bool)
    ensures
        r == forall|i: int| 0 <= i < s@.len() ==> is_hex(#[trigger] s@[i]),
{
    let mut i: usize = 0;
    while i < s.len()
        invariant
            i <= s.len(),
            forall|j: int| 0 <= j < i ==> is_hex(#[trigger] s@[j]),
        decreases s.len() - i,
    {
        if !hex_digit(s[i]) {
            return false;
        }
        i += 1;
    }
    true
}

/// Whether `host` is a bracketed host `urlsplit` accepts.
fn is_host_ok(host: &Vec<char>) -> (r: bool)
    ensures
        r == host_ok(host@),
{
    if host.len() > 0 && host[0] == 'v' {
        let future = slice_of(host, 1, host.len());
        assert(future@ =~= host@.skip(1));
        match split_first(&future, '.') {
            Some((hex, rest)) => hex.len() > 0 && all_hex(&hex) && rest.len() > 0,
            None => false,
        }
    } else {
        match split_first(host, '%') {
            None => is_ipv6(host),
            Some((addr, scope)) => scope.len() > 0 && !has_char(&scope, '%') && is_ipv6(&addr),
        }
    }
}

/// Whether a network location with brackets is one `urlsplit` accepts.
fn is_bracketed_ok(netloc: &Vec<char>) -> (r: bool)
    ensures
        r == bracketed_ok(netloc@),
{
    let host_port = match split_last(netloc, '@') {
        Some((_, h)) => h,
        None => netloc.clone(),
    };
    match split_first(&host_port, '[') {
        Some((before, bracketed)) => {
            if before.len() != 0 {
                return false;
            }
            let (host, port) = match split_first(&bracketed, ']') {
                Some(p) => p,
                None => (bracketed.clone(), Vec::new()),
            };
            assert(port@.len() == 0 ==> port@ == Seq::<char>::empty());
            (port.len() == 0 || port[0] == ':') && is_host_ok(&host)
        },
        None => {
            let host = match split_first(&host_port, ':') {
                Some((h, _)) => h,
                None => host_port.clone(),
            };
            is_host_ok(&host)
        },
    }
}

/// `cs` with its tabs and line breaks dropped.
fn drop_breaks(cs: &Vec<char>) -> (r: Vec<char>)
    ensures
        r@ == cs@.filter(kept_char()),
{
    let mut out: Vec<char> = Vec::new();
    let mut i: usize = 0;
    while i < cs.len()
        invariant
            i <= cs.len(),
            out@ == cs@.take(i as int).filter(kept_char()),
        decreases cs.len() - i,
    {
        proof {
            reveal(Seq::filter);
            assert(cs@.take(i + 1).drop_last() =~= cs@.take(i as int));
            assert(cs@.take(i + 1).last() == cs@[i as int]);
        }
        let c = cs[i];
        if c != '\t' && c != '\r' && c != '\n' {
            out.push(c);
        }
        i += 1;
    }
    assert(cs@.take(cs@.len() as int) =~= cs@);
    out
}

/// Whether `urllib.parse.urlparse` finds a scheme and a host in `url`, a URL
/// it refuses counting as neither: ib_async's `is_valid_url`. The NFKC check
/// `urlsplit` makes on a host that is not ASCII is not made.
pub fn is_valid_url(url: &str) -> (r: bool)
    ensures
        r == valid_url(url@),
{
    let all = chars_of(url);
    let start = match find_where(&all, Which::AboveSpace) {
        Some(k) => k,
        None => all.len(),
    };
    let stripped = slice_of(&all, start, all.len());
    assert(stripped@ =~= all@.skip(start as int));
    let s = drop_breaks(&stripped);
    let (scheme, rest) = match split_first(&s, ':') {
        Some(p) => p,
        None => return false,
    };
    if !is_scheme_text(&scheme) {
        return false;
    }
    if !(rest.len() >= 2 && rest[0] == '/' && rest[1] == '/') {
        return false;
    }
    let after = slice_of(&rest, 2, rest.len());
    assert(after@ =~= rest@.skip(2));
    let end = match find_where(&after, Which::NetlocEnd) {
        Some(k) => k,
        None => after.len(),
    };
    let netloc = slice_of(&after, 0, end);
    assert(netloc@ =~= netloc_of(after@));
    if netloc.len() == 0 {
        return false;
    }
    let open = has_char(&netloc, '[');
    let close = has_char(&netloc, ']');
    if !open && !close {
        true
    } else if open && close {
        is_bracketed_ok(&netloc)
    } else {
        false
    }
}

/// A control character or space before an address changes nothing:
/// `urlsplit` strips them first.
pub proof fn law_leading_blank_is_ignored(u: Seq<char>, c: char)
    requires
        c <= ' ',
    ensures
        valid_url(seq![c] + u) == valid_url(u),
{
    let v = seq![c] + u;
    assert(v.drop_first() =~= u);
    let p = which_pred(Which::AboveSpace);
    assert(!p(v[0]));
    lemma_first_of(u, p);
    match first_of(u, p) {
        Some(k) => {
            assert(first_of(v, p) == Some(k + 1));
            assert(v.skip(k + 1) =~= u.skip(k));
        },
        None => {
            assert(first_of(v, p) is None);
            assert(v.skip(v.len() as int) =~= u.skip(u.len() as int));
        },
    }
    assert(cleaned(v) == cleaned(u));
}

} // verus!

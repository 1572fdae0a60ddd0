//! A parsed XML document as ElementTree holds one: elements with their
//! attributes, text and tail, and the searches ib_async makes in them.

use vstd::prelude::*;
use crate::text::chars_of;

verus! {

/// An element of a parsed document: what ElementTree's `Element` holds.
#[derive(Debug)]
pub struct Element {
    /// The element's name, `{namespace}name` when it has a namespace: `tag`.
    pub tag: String,
    /// The attributes in document order, named as `tag` is: `attrib`.
    pub attrib: Vec<(String, String)>,
    /// The text before the first child element, if any: `text`.
    pub text: Option<String>,
    /// The text after this element's end and before the next element, if
    /// any: `tail`.
    pub tail: Option<String>,
    /// The child elements in document order: the element's items.
    pub children: Vec<Element>,
}

/// `e` and every element below it, in document order.
pub open spec fn preorder(e: Element) -> Seq<Element>
    decreases e, 1int,
{
    seq![e] + preorder_all(e.children@)
}

/// Each element of `es` and every element below it, in document order.
pub open spec fn preorder_all(es: Seq<Element>) -> Seq<Element>
    decreases es, 0int,
{
    if es.len() == 0 {
        Seq::empty()
    } else {
        preorder_all(es.subrange(0, es.len() - 1)) + preorder(es[es.len() - 1])
    }
}

/// An element tagged `t`.
pub open spec fn tagged(t: Seq<char>) -> spec_fn(Element) -> bool {
    |e: Element| e.tag@ == t
}

/// Any element.
pub open spec fn any_element() -> spec_fn(Element) -> bool {
    |e: Element| true
}

/// The elements a list of references names.
pub open spec fn deref_all(s: Seq<&Element>) -> Seq<Element> {
    s.map_values(|e: &Element| *e)
}

/// The index of the first element of `es` tagged `t`.
pub open spec fn first_tagged(es: Seq<Element>, t: Seq<char>) -> Option<int>
    decreases es.len(),
{
    if es.len() == 0 {
        None
    } else if es[0].tag@ == t {
        Some(0)
    } else {
        match first_tagged(es.drop_first(), t) {
            Some(k) => Some(k + 1),
            None => None,
        }
    }
}

/// `first_tagged` gives the least index of an element tagged `t`.
pub proof fn lemma_first_tagged(es: Seq<Element>, t: Seq<char>)
    ensures
        match first_tagged(es, t) {
            Some(k) => 0 <= k < es.len() && es[k].tag@ == t && forall|j: int|
                0 <= j < k ==> (#[trigger] es[j]).tag@ != t,
            None => forall|j: int| 0 <= j < es.len() ==> (#[trigger] es[j]).tag@ != t,
        },
    decreases es.len(),
{
    if es.len() > 0 && es[0].tag@ != t {
        lemma_first_tagged(es.drop_first(), t);
        assert forall|j: int| 0 < j < es.len() implies es[j] == es.drop_first()[j - 1] by {}
    }
}

/// The elements tagged `tag`, or every element for `None` or `"*"`, as
/// ElementTree's `iter` reads its argument.
pub open spec fn iter_pred(tag: Option<Seq<char>>) -> spec_fn(Element) -> bool {
    match tag {
        Some(t) => if t == "*"@ {
            any_element()
        } else {
            tagged(t)
        },
        None => any_element(),
    }
}

/// Whether `a` and `b` hold the same text.
fn same_text(a: &str, b: &str) -> (r: bool)
    ensures
        r == (a@ == b@),
{
    a.to_owned() == b.to_owned()
}

impl Element {
    /// The first child whose tag is `tag`: ElementTree's `find` for a plain
    /// tag.
    pub fn find(&self, tag: &str) -> (r: Option<&Element>)
        ensures
            match first_tagged(self.children@, tag@) {
                Some(k) => r matches Some(e) && *e == self.children@[k],
                None => r is None,
            },
    {
        proof {
            lemma_first_tagged(self.children@, tag@);
        }
        let mut i: usize = 0;
        while i < self.children.len()
            invariant
                i <= self.children.len(),
                forall|j: int| 0 <= j < i ==> (#[trigger] self.children@[j]).tag@ != tag@,
                match first_tagged(self.children@, tag@) {
                    Some(k) => 0 <= k < self.children@.len() && self.children@[k].tag@ == tag@
                        && forall|j: int| 0 <= j < k ==> (#[trigger] self.children@[j]).tag@ != tag@,
                    None => forall|j: int|
                        0 <= j < self.children@.len() ==> (#[trigger] self.children@[j]).tag@ != tag@,
                },
            decreases self.children.len() - i,
        {
            if same_text(self.children[i].tag.as_str(), tag) {
                return Some(&self.children[i]);
            }
            i += 1;
        }
        None
    }

    /// Every child whose tag is `tag`, in document order: ElementTree's
    /// `findall` for a plain tag.
    pub fn findall(&self, tag: &str) -> (r: Vec<&Element>)
        ensures
            deref_all(r@) == self.children@.filter(tagged(tag@)),
    {
        let mut out: Vec<&Element> = Vec::new();
        let mut i: usize = 0;
        while i < self.children.len()
            invariant
                i <= self.children.len(),
                deref_all(out@) == self.children@.take(i as int).filter(tagged(tag@)),
            decreases self.children.len() - i,
        {
            proof {
                reveal(Seq::filter);
                assert(self.children@.take(i + 1).drop_last() =~= self.children@.take(i as int));
                assert(self.children@.take(i + 1).last() == self.children@[i as int]);
            }
            if same_text(self.children[i].tag.as_str(), tag) {
                out.push(&self.children[i]);
                assert(deref_all(out@) =~= deref_all(out@.drop_last()).push(self.children@[i as int]));
            }
            i += 1;
        }
        assert(self.children@.take(self.children@.len() as int) =~= self.children@);
        out
    }
}

/// The view of an optional tag.
pub open spec fn tag_view(tag: Option<&str>) -> Option<Seq<char>> {
    match tag {
        Some(t) => Some(t@),
        None => None,
    }
}

/// Whether `e` is one `iter` gives for `tag`.
fn iter_takes(e: &Element, tag: Option<&str>) -> (r: bool)
    ensures
        r == iter_pred(tag_view(tag))(*e),
{
    match tag {
        Some(t) => same_text(t, "*") || same_text(e.tag.as_str(), t),
        None => true,
    }
}

/// The elements below a list of elements split into its first `i` and the
/// next one.
proof fn lemma_preorder_step(es: Seq<Element>, i: int)
    requires
        0 <= i < es.len(),
    ensures
        preorder_all(es.take(i + 1)) == preorder_all(es.take(i)) + preorder(es[i]),
{
    let x = es.take(i + 1);
    assert(x.subrange(0, x.len() - 1) =~= es.take(i));
    assert(x[x.len() - 1] == es[i]);
}

/// Appends to `out` the elements at and below `e` that `iter` gives for
/// `tag`, in document order.
fn walk<'a>(e: &'a Element, tag: Option<&str>, out: &mut Vec<&'a Element>)
    ensures
        deref_all(final(out)@) == deref_all(old(out)@) + preorder(*e).filter(
            iter_pred(tag_view(tag)),
        ),
    decreases e,
{
    let ghost p = iter_pred(tag_view(tag));
    let ghost start = deref_all(out@);
    proof {
        reveal_with_fuel(Seq::filter, 2);
        assert(seq![*e].drop_last() =~= Seq::<Element>::empty());
        Seq::filter_distributes_over_add(seq![*e], preorder_all(e.children@), p);
    }
    if iter_takes(e, tag) {
        out.push(e);
        assert(deref_all(out@) =~= start.push(*e));
    }
    let ghost mid = deref_all(out@);
    assert(mid == start + seq![*e].filter(p));
    let mut i: usize = 0;
    while i < e.children.len()
        invariant
            i <= e.children.len(),
            p == iter_pred(tag_view(tag)),
            deref_all(out@) == mid + preorder_all(e.children@.take(i as int)).filter(p),
        decreases e.children.len() - i,
    {
        proof {
            lemma_preorder_step(e.children@, i as int);
            Seq::filter_distributes_over_add(
                preorder_all(e.children@.take(i as int)),
                preorder(e.children@[i as int]),
                p,
            );
        }
        walk(&e.children[i], tag, out);
        i += 1;
    }
    assert(e.children@.take(e.children@.len() as int) =~= e.children@);
}

impl Element {
    /// This element and every element below it, in document order, whose
    /// tag is `tag`; `None` or `"*"` takes every one: ElementTree's `iter`.
    pub fn iter<'a>(&'a self, tag: Option<&str>) -> (r: Vec<&'a Element>)
        ensures
            deref_all(r@) == preorder(*self).filter(iter_pred(tag_view(tag))),
    {
        let mut out: Vec<&Element> = Vec::new();
        walk(self, tag, &mut out);
        assert(deref_all(out@) =~= Seq::<Element>::empty() + preorder(*self).filter(
            iter_pred(tag_view(tag)),
        ));
        out
    }
}

// -- Texts in order ---------------------------------------------------------------

/// `a` sorts before `b` as Rust orders strings: by the first character that
/// differs, a prefix first.
pub open spec fn text_lt(a: Seq<char>, b: Seq<char>) -> bool
    decreases a.len(),
{
    if a.len() == 0 {
        b.len() > 0
    } else if b.len() == 0 {
        false
    } else if a[0] != b[0] {
        a[0] < b[0]
    } else {
        text_lt(a.drop_first(), b.drop_first())
    }
}

/// Of two different texts, one sorts before the other.
pub proof fn lemma_text_lt_total(a: Seq<char>, b: Seq<char>)
    ensures
        a != b ==> text_lt(a, b) || text_lt(b, a),
    decreases a.len(),
{
    if a.len() > 0 && b.len() > 0 && a[0] == b[0] {
        lemma_text_lt_total(a.drop_first(), b.drop_first());
        if a.drop_first() == b.drop_first() {
            assert(a =~= seq![a[0]] + a.drop_first());
            assert(b =~= seq![b[0]] + b.drop_first());
        }
    } else if a.len() == 0 && b.len() == 0 {
        assert(a =~= b);
    }
}

/// Sorting before is transitive.
pub proof fn lemma_text_lt_transitive(a: Seq<char>, b: Seq<char>, c: Seq<char>)
    requires
        text_lt(a, b),
        text_lt(b, c),
    ensures
        text_lt(a, c),
    decreases a.len(),
{
    if a.len() > 0 && b.len() > 0 && c.len() > 0 && a[0] == b[0] && b[0] == c[0] {
        lemma_text_lt_transitive(a.drop_first(), b.drop_first(), c.drop_first());
    }
}

/// Whether `a` sorts before `b`.
fn text_less(a: &Vec<char>, b: &Vec<char>) -> (r: bool)
    ensures
        r == text_lt(a@, b@),
{
    let mut i: usize = 0;
    assert(a@.skip(0) =~= a@ && b@.skip(0) =~= b@);
    while i < a.len() && i < b.len() && a[i] == b[i]
        invariant
            i <= a.len(),
            i <= b.len(),
            forall|j: int| 0 <= j < i ==> a@[j] == b@[j],
            text_lt(a@, b@) == text_lt(a@.skip(i as int), b@.skip(i as int)),
        decreases a.len() - i,
    {
        proof {
            assert(a@.skip(i as int).drop_first() =~= a@.skip(i + 1));
            assert(b@.skip(i as int).drop_first() =~= b@.skip(i + 1));
        }
        i += 1;
    }
    if i == a.len() {
        i < b.len()
    } else if i == b.len() {
        false
    } else {
        a[i] < b[i]
    }
}

/// The texts of a list of strings.
pub open spec fn texts(v: Seq<String>) -> Seq<Seq<char>> {
    v.map_values(|s: String| s@)
}

/// The texts run strictly upward.
pub open spec fn strictly_sorted(t: Seq<Seq<char>>) -> bool {
    forall|i: int, j: int| 0 <= i < j < t.len() ==> text_lt(#[trigger] t[i], #[trigger] t[j])
}

/// Adds `t` to a strictly sorted list of texts, where it is not already.
fn insert_sorted(v: &mut Vec<String>, t: String)
    requires
        strictly_sorted(texts(old(v)@)),
    ensures
        strictly_sorted(texts(final(v)@)),
        forall|x: Seq<char>| #[trigger] texts(final(v)@).contains(x) <==> texts(old(v)@).contains(x) || x == t@,
{
    let tc = chars_of(t.as_str());
    let mut i: usize = 0;
    while i < v.len()
        invariant
            i <= v.len(),
            tc@ == t@,
            forall|j: int| 0 <= j < i ==> text_lt(#[trigger] texts(v@)[j], t@),
        ensures
            i <= v.len(),
            forall|j: int| 0 <= j < i ==> text_lt(#[trigger] texts(v@)[j], t@),
            i < v.len() ==> !text_lt(texts(v@)[i as int], t@),
        decreases v.len() - i,
    {
        let vc = chars_of(v[i].as_str());
        if !text_less(&vc, &tc) {
            break;
        }
        i += 1;
    }
    let ghost before = texts(v@);
    if i < v.len() {
        let vc = chars_of(v[i].as_str());
        if vc.len() == tc.len() && !text_less(&vc, &tc) && !text_less(&tc, &vc) {
            proof {
                lemma_text_lt_total(vc@, tc@);
                assert(before[i as int] == t@);
                assert forall|x: Seq<char>| #[trigger] texts(v@).contains(x) <==> before.contains(x) || x == t@ by {
                    if x == t@ {
                        assert(texts(v@)[i as int] == x);
                    }
                }
            }
            return;
        }
        proof {
            lemma_text_lt_total(vc@, tc@);
        }
    }
    let ghost at = i as int;
    v.insert(i, t);
    proof {
        let after = texts(v@);
        assert(after =~= before.insert(at, t@));
        if at < before.len() {
            assert(!text_lt(before[at], t@));
            assert(text_lt(t@, before[at]));
        }
        assert forall|a: int, b: int| 0 <= a < b < after.len() implies text_lt(#[trigger] after[a], #[trigger] after[b]) by {
            if b < at {
            } else if b == at {
            } else if a < at {
                assert(text_lt(before[a], t@));
                assert(text_lt(t@, before[at]));
                if at < b - 1 {
                    lemma_text_lt_transitive(t@, before[at], before[b - 1]);
                }
                lemma_text_lt_transitive(before[a], t@, before[b - 1]);
            } else if a == at {
                if at < b - 1 {
                    lemma_text_lt_transitive(t@, before[at], before[b - 1]);
                }
            } else {
            }
        }
        assert forall|x: Seq<char>| #[trigger] after.contains(x) <==> before.contains(x) || x == t@ by {
            if after.contains(x) {
                let k = choose|k: int| 0 <= k < after.len() && after[k] == x;
                if k < at {
                    assert(before[k] == x);
                } else if k > at {
                    assert(before[k - 1] == x);
                }
            }
            if before.contains(x) {
                let k = choose|k: int| 0 <= k < before.len() && before[k] == x;
                if k < at {
                    assert(after[k] == x);
                } else {
                    assert(after[k + 1] == x);
                }
            }
            if x == t@ {
                assert(after[at] == x);
            }
        }
    }
}

/// Filtering by a predicate every element passes keeps the list.
proof fn lemma_filter_any(s: Seq<Element>)
    ensures
        s.filter(any_element()) == s,
    decreases s.len(),
{
    reveal_with_fuel(Seq::filter, 1);
    if s.len() > 0 {
        lemma_filter_any(s.drop_last());
        assert(s.drop_last().push(s.last()) =~= s);
    }
}

/// An element of `root`'s tree, itself included, that has attributes and is
/// tagged `t`.
pub open spec fn has_attributed(root: Element, t: Seq<char>) -> bool {
    exists|i: int|
        0 <= i < preorder(root).len() && (#[trigger] preorder(root)[i]).attrib@.len() > 0
            && preorder(root)[i].tag@ == t
}

/// The tags of the elements of `root`'s tree that have attributes, each
/// once, in ascending order.
pub fn attributed_tags(root: &Element) -> (r: Vec<String>)
    ensures
        strictly_sorted(texts(r@)),
        forall|t: Seq<char>| #[trigger] texts(r@).contains(t) <==> has_attributed(*root, t),
{
    let all = root.iter(None);
    proof {
        lemma_filter_any(preorder(*root));
    }
    let ghost tree = preorder(*root);
    assert(deref_all(all@) == tree);
    let mut out: Vec<String> = Vec::new();
    let mut i: usize = 0;
    while i < all.len()
        invariant
            i <= all.len(),
            deref_all(all@) == tree,
            tree == preorder(*root),
            strictly_sorted(texts(out@)),
            forall|t: Seq<char>| #[trigger] texts(out@).contains(t) <==> exists|j: int|
                0 <= j < i && (#[trigger] tree[j]).attrib@.len() > 0 && tree[j].tag@ == t,
        decreases all.len() - i,
    {
        let e = all[i];
        assert(*e == tree[i as int]);
        let ghost old_out = texts(out@);
        if e.attrib.len() > 0 {
            insert_sorted(&mut out, e.tag.clone());
        }
        assert forall|t: Seq<char>| #[trigger] texts(out@).contains(t) <==> exists|j: int|
            0 <= j < i + 1 && (#[trigger] tree[j]).attrib@.len() > 0 && tree[j].tag@ == t by {
            if exists|j: int| 0 <= j < i + 1 && (#[trigger] tree[j]).attrib@.len() > 0 && tree[j].tag@ == t {
                let j = choose|j: int| 0 <= j < i + 1 && (#[trigger] tree[j]).attrib@.len() > 0 && tree[j].tag@ == t;
                if j < i {
                    assert(old_out.contains(t));
                }
            }
        }
        i += 1;
    }
    out
}

/// An element as a mathematical value: what an [`Element`] holds, its
/// children included.
pub struct ElementView {
    /// The element's name.
    pub tag: Seq<char>,
    /// The attributes in document order.
    pub attrib: Seq<(Seq<char>, Seq<char>)>,
    /// The text before the first child element.
    pub text: Option<Seq<char>>,
    /// The text after the element's end.
    pub tail: Option<Seq<char>>,
    /// The child elements in document order.
    pub children: Seq<ElementView>,
}

/// An attribute's name and value as texts.
pub open spec fn pair_view() -> spec_fn((String, String)) -> (Seq<char>, Seq<char>) {
    |a: (String, String)| (a.0@, a.1@)
}

/// A parsed attribute as ElementTree names it: its qualified name and its
/// value.
pub open spec fn attr_view() -> spec_fn((Option<String>, String, String)) -> (Seq<char>, Seq<char>) {
    |a: (Option<String>, String, String)| (qualified_text(opt_view(a.0), a.1@), a.2@)
}

/// An optional text's view.
pub open spec fn opt_view(t: Option<String>) -> Option<Seq<char>> {
    match t {
        Some(s) => Some(s@),
        None => None,
    }
}

impl Element {
    /// The element as a mathematical value.
    pub open spec fn view(&self) -> ElementView
        decreases self,
    {
        ElementView {
            tag: self.tag@,
            attrib: self.attrib@.map_values(pair_view()),
            text: opt_view(self.text),
            tail: opt_view(self.tail),
            children: Seq::new(
                self.children@.len(),
                |k: int|
                    if 0 <= k < self.children@.len() {
                        self.children@[k].view()
                    } else {
                        arbitrary()
                    },
            ),
        }
    }
}

// -- Building the tree --------------------------------------------------------------

/// A node of a parsed document, as the parser walks the root element and
/// every node below it in document order.
#[derive(Debug)]
pub struct XmlNode {
    /// How many nodes hold it, itself and the document included.
    pub depth: usize,
    /// Whether it is an element.
    pub element: bool,
    /// Whether it is text.
    pub is_text: bool,
    /// Its namespace, for an element.
    pub namespace: Option<String>,
    /// Its local name, for an element.
    pub name: String,
    /// An element's attributes in document order: namespace, local name and
    /// value.
    pub attributes: Vec<(Option<String>, String, String)>,
    /// Its text, for text.
    pub text: Option<String>,
}

/// ElementTree's name: `{namespace}name`, or `name` alone.
pub open spec fn qualified_text(namespace: Option<Seq<char>>, name: Seq<char>) -> Seq<char> {
    match namespace {
        Some(ns) => seq!['{'] + ns + seq!['}'] + name,
        None => name,
    }
}

/// ElementTree's name: `{namespace}name`, or `name` alone.
pub fn qualified(namespace: Option<&str>, name: &str) -> (r: String)
    ensures
        r@ == qualified_text(
            match namespace {
                Some(ns) => Some(ns@),
                None => None,
            },
            name@,
        ),
{
    match namespace {
        Some(ns) => {
            let mut s = String::new();
            crate::text::push_char(&mut s, '{');
            crate::text::push_chars(&mut s, &chars_of(ns));
            crate::text::push_char(&mut s, '}');
            crate::text::push_chars(&mut s, &chars_of(name));
            s
        },
        None => name.to_owned(),
    }
}

/// The element a node starts, before anything inside it.
pub open spec fn start_view(n: XmlNode) -> ElementView {
    ElementView {
        tag: qualified_text(opt_view(n.namespace), n.name@),
        attrib: n.attributes@.map_values(attr_view()),
        text: None,
        tail: None,
        children: Seq::empty(),
    }
}

/// What an optional text holds, or nothing.
pub open spec fn text_or_empty(o: Option<String>) -> Seq<char> {
    match o {
        Some(s) => s@,
        None => Seq::empty(),
    }
}

/// `t` after what an optional text holds.
pub open spec fn joined(o: Option<Seq<char>>, t: Seq<char>) -> Seq<char> {
    match o {
        Some(s) => s + t,
        None => t,
    }
}

/// `e` with one more child.
pub open spec fn add_child_view(e: ElementView, c: ElementView) -> ElementView {
    ElementView { children: e.children.push(c), ..e }
}

/// `e` with text `t` after what it holds: its text before any child, else
/// the last child's tail.
pub open spec fn add_text_view(e: ElementView, t: Seq<char>) -> ElementView {
    if e.children.len() == 0 {
        ElementView { text: Some(joined(e.text, t)), ..e }
    } else {
        let last = e.children.last();
        ElementView {
            children: e.children.update(
                e.children.len() - 1,
                ElementView { tail: Some(joined(last.tail, t)), ..last },
            ),
            ..e
        }
    }
}

/// The first node from `k` on no deeper than `d`, or the end.
pub open spec fn scan(nodes: Seq<XmlNode>, k: int, d: int) -> int
    decreases nodes.len() - k,
{
    if k >= nodes.len() {
        nodes.len() as int
    } else if nodes[k].depth <= d {
        k
    } else {
        scan(nodes, k + 1, d)
    }
}

/// The index after the last node below node `i`.
pub open spec fn end_of(nodes: Seq<XmlNode>, i: int) -> int {
    scan(nodes, i + 1, nodes[i].depth as int)
}

/// `scan` stops at the first node no deeper than `d`, past nodes all deeper.
pub proof fn lemma_scan(nodes: Seq<XmlNode>, k: int, d: int)
    requires
        0 <= k,
    ensures
        k <= scan(nodes, k, d) <= nodes.len() || (k > nodes.len() && scan(nodes, k, d) == nodes.len()),
        forall|m: int| k <= m < scan(nodes, k, d) ==> (#[trigger] nodes[m]).depth > d,
        scan(nodes, k, d) < nodes.len() ==> nodes[scan(nodes, k, d)].depth <= d,
    decreases nodes.len() - k,
{
    if k < nodes.len() && nodes[k].depth > d {
        lemma_scan(nodes, k + 1, d);
    }
}

/// Past nodes deeper than `d`, `scan` goes on as from their end.
proof fn lemma_scan_skip(nodes: Seq<XmlNode>, a: int, b: int, d: int)
    requires
        0 <= a <= b <= nodes.len(),
        forall|m: int| a <= m < b ==> (#[trigger] nodes[m]).depth > d,
    ensures
        scan(nodes, a, d) == scan(nodes, b, d),
    decreases b - a,
{
    if a < b {
        lemma_scan_skip(nodes, a + 1, b, d);
    }
}

/// What the nodes from `j` up to `end` add to `e`: each element node its
/// element as a child, with everything below it, and each text node its
/// text; comments and processing instructions drop out, and the text
/// around them joins.
pub open spec fn fill(nodes: Seq<XmlNode>, j: int, end: int, e: ElementView) -> ElementView
    decreases nodes.len() - j, 1int,
{
    if j < 0 || j >= end || j >= nodes.len() {
        e
    } else if nodes[j].element {
        proof {
            lemma_scan(nodes, j + 1, nodes[j].depth as int);
        }
        fill(nodes, end_of(nodes, j), end, add_child_view(e, element_at(nodes, j)))
    } else if nodes[j].is_text {
        fill(nodes, j + 1, end, add_text_view(e, text_or_empty(nodes[j].text)))
    } else {
        fill(nodes, j + 1, end, e)
    }
}

/// The element node `i` starts, with everything below it.
pub open spec fn element_at(nodes: Seq<XmlNode>, i: int) -> ElementView
    decreases nodes.len() - i, 0int,
{
    if 0 <= i < nodes.len() {
        fill(nodes, i + 1, end_of(nodes, i), start_view(nodes[i]))
    } else {
        start_view(nodes[i])
    }
}

/// An optional string's text, as a `&str`.
fn opt_str(o: &Option<String>) -> (r: Option<&str>)
    ensures
        match r {
            Some(t) => opt_view(*o) == Some(t@),
            None => opt_view(*o) is None,
        },
{
    match o {
        Some(s) => Some(s.as_str()),
        None => None,
    }
}

/// The element node `n` starts, before anything inside it.
fn start_element(n: &XmlNode) -> (r: Element)
    ensures
        r@ == start_view(*n),
        r.attrib@.len() == n.attributes@.len(),
        forall|k: int|
            0 <= k < n.attributes@.len() ==> (#[trigger] r.attrib@[k]).0@ == qualified_text(
                opt_view(n.attributes@[k].0),
                n.attributes@[k].1@,
            ) && r.attrib@[k].1@ == n.attributes@[k].2@,
{
    let tag = qualified(opt_str(&n.namespace), n.name.as_str());
    let mut attrib: Vec<(String, String)> = Vec::new();
    let mut i: usize = 0;
    while i < n.attributes.len()
        invariant
            i <= n.attributes.len(),
            attrib@.map_values(pair_view()) == n.attributes@.take(i as int).map_values(attr_view()),
        decreases n.attributes.len() - i,
    {
        let a = &n.attributes[i];
        let name = qualified(opt_str(&a.0), a.1.as_str());
        let value = a.2.clone();
        let ghost before = attrib@;
        attrib.push((name, value));
        proof {
            assert(attr_view()(n.attributes@[i as int]) == (name@, value@));
            assert(attrib@ == before.push((name, value)));
            assert(attrib@.map_values(pair_view()) =~= before.map_values(pair_view()).push(
                (name@, value@),
            ));
            assert(n.attributes@.take(i + 1).map_values(attr_view()) =~= n.attributes@.take(
                i as int,
            ).map_values(attr_view()).push(attr_view()(n.attributes@[i as int])));
        }
        i += 1;
    }
    assert(n.attributes@.take(n.attributes@.len() as int) =~= n.attributes@);
    let r = Element { tag, attrib, text: None, tail: None, children: Vec::new() };
    assert(r@.children =~= Seq::<ElementView>::empty());
    proof {
        assert forall|k: int| 0 <= k < n.attributes@.len() implies (#[trigger] r.attrib@[k]).0@
            == qualified_text(opt_view(n.attributes@[k].0), n.attributes@[k].1@) && r.attrib@[k].1@
            == n.attributes@[k].2@ by {
            assert(r.attrib@.map_values(pair_view())[k] == n.attributes@.map_values(attr_view())[k]);
        }
    }
    r
}

/// Adds `c` as `e`'s last child.
fn add_child(e: &mut Element, c: Element)
    ensures
        final(e)@ == add_child_view(old(e)@, c@),
{
    let ghost before = e@;
    e.children.push(c);
    assert(e@.children =~= before.children.push(c@));
}

/// `t` after what an optional text holds.
fn join_text(o: &Option<String>, t: &str) -> (r: String)
    ensures
        r@ == joined(opt_view(*o), t@),
{
    let mut s = match o {
        Some(s) => s.clone(),
        None => String::new(),
    };
    crate::text::push_chars(&mut s, &chars_of(t));
    s
}

/// Adds text `t` to `e`: to its text before any child, else to the last
/// child's tail.
fn add_text(e: &mut Element, t: &str)
    ensures
        final(e)@ == add_text_view(old(e)@, t@),
{
    let ghost before = e@;
    match e.children.pop() {
        None => {
            let joined_text = join_text(&e.text, t);
            e.text = Some(joined_text);
            assert(e@.children =~= before.children);
        },
        Some(mut last) => {
            let ghost last_view = last@;
            assert(last_view == before.children.last());
            let tail = join_text(&last.tail, t);
            last.tail = Some(tail);
            assert(last@ == ElementView { tail: Some(joined(last_view.tail, t@)), ..last_view });
            let ghost rest = e.children@;
            e.children.push(last);
            assert(e.children@ == rest.push(last));
            assert(e@.children =~= before.children.update(
                before.children.len() - 1,
                ElementView { tail: Some(joined(last_view.tail, t@)), ..last_view },
            ));
        },
    }
}

/// The element node `i` starts, with everything below it, and the index
/// after the last node below it.
fn build(nodes: &Vec<XmlNode>, i: usize) -> (r: (Element, usize))
    requires
        i < nodes.len(),
    ensures
        r.0@ == element_at(nodes@, i as int),
        r.1 == end_of(nodes@, i as int),
        i < r.1 <= nodes.len(),
    decreases nodes.len() - i,
{
    let d = nodes[i].depth;
    let mut e = start_element(&nodes[i]);
    let ghost end = end_of(nodes@, i as int);
    proof {
        lemma_scan(nodes@, i + 1, d as int);
    }
    let mut j: usize = i + 1;
    while j < nodes.len() && nodes[j].depth > d
        invariant
            i < j <= nodes.len(),
            d == nodes@[i as int].depth,
            end == end_of(nodes@, i as int),
            end == scan(nodes@, j as int, d as int),
            j <= end <= nodes.len(),
            fill(nodes@, j as int, end, e@) == element_at(nodes@, i as int),
        decreases nodes.len() - j,
    {
        proof {
            lemma_scan(nodes@, j as int, d as int);
            assert(scan(nodes@, j as int, d as int) == scan(nodes@, j + 1, d as int));
            lemma_scan(nodes@, j + 1, d as int);
            assert(j < end);
            reveal_strlit("");
        }
        let ghost e_before = e@;
        if nodes[j].element {
            let (child, next) = build(nodes, j);
            proof {
                lemma_scan(nodes@, j + 1, nodes@[j as int].depth as int);
                lemma_scan_skip(nodes@, j as int, next as int, d as int);
            }
            add_child(&mut e, child);
            assert(fill(nodes@, j as int, end, e_before) == fill(nodes@, next as int, end, e@));
            j = next;
        } else {
            if nodes[j].is_text {
                match &nodes[j].text {
                    Some(t) => add_text(&mut e, t.as_str()),
                    None => add_text(&mut e, ""),
                }
                assert(e@ == add_text_view(e_before, text_or_empty(nodes@[j as int].text)));
                assert(fill(nodes@, j as int, end, e_before) == fill(nodes@, j + 1, end, add_text_view(e_before, text_or_empty(nodes@[j as int].text))));
            } else {
                assert(fill(nodes@, j as int, end, e_before) == fill(nodes@, j + 1, end, e_before));
            }
            assert(fill(nodes@, j as int, end, e_before) == fill(nodes@, j + 1, end, e@));
            j += 1;
        }
    }
    proof {
        lemma_scan(nodes@, j as int, d as int);
    }
    (e, j)
}

/// The tree the nodes of a parsed document make: the element the first
/// node starts, with everything below it.
pub open spec fn tree_of(nodes: Seq<XmlNode>) -> Option<ElementView> {
    if nodes.len() > 0 && nodes[0].element {
        Some(element_at(nodes, 0))
    } else {
        None
    }
}

/// Builds ElementTree's tree from a parsed document's nodes.
pub fn build_tree(nodes: &Vec<XmlNode>) -> (r: Option<Element>)
    ensures
        match tree_of(nodes@) {
            Some(t) => r matches Some(e) && e@ == t,
            None => r is None,
        },
{
    if nodes.len() > 0 && nodes[0].element {
        let (e, _) = build(nodes, 0);
        Some(e)
    } else {
        None
    }
}

/// `find` gives the first of what `findall` gives: both read the children
/// in document order.
pub proof fn law_find_is_first_of_findall(es: Seq<Element>, t: Seq<char>)
    ensures
        match first_tagged(es, t) {
            Some(k) => es.filter(tagged(t)).len() > 0 && es.filter(tagged(t))[0] == es[k],
            None => es.filter(tagged(t)).len() == 0,
        },
{
    lemma_first_tagged(es, t);
    let p = tagged(t);
    match first_tagged(es, t) {
        Some(k) => {
            assert(es =~= es.take(k) + es.skip(k));
            Seq::filter_distributes_over_add(es.take(k), es.skip(k), p);
            assert forall|j: int| 0 <= j < es.take(k).len() implies !p(#[trigger] es.take(k)[j]) by {
                assert(es.take(k)[j] == es[j]);
            }
            es.take(k).lemma_all_neg_filter_empty(p);
            let rest = es.skip(k);
            assert(rest =~= seq![es[k]] + rest.drop_first());
            Seq::filter_distributes_over_add(seq![es[k]], rest.drop_first(), p);
            reveal_with_fuel(Seq::filter, 2);
            assert(seq![es[k]].drop_last() =~= Seq::<Element>::empty());
            assert(seq![es[k]].filter(p) == seq![es[k]]);
        },
        None => {
            es.lemma_all_neg_filter_empty(p);
        },
    }
}

/// `iter` reads `"*"` as it reads `None`: every element.
pub proof fn law_star_takes_every_element()
    ensures
        iter_pred(Some("*"@)) == iter_pred(None),
{
}

/// What the nodes from `j` on add to an element leaves its attributes as
/// they were: they add children and text only.
proof fn lemma_fill_keeps_attrib(nodes: Seq<XmlNode>, j: int, end: int, e: ElementView)
    ensures
        fill(nodes, j, end, e).attrib == e.attrib,
    decreases nodes.len() - j,
{
    if j < 0 || j >= end || j >= nodes.len() {
    } else if nodes[j].element {
        lemma_scan(nodes, j + 1, nodes[j].depth as int);
        lemma_fill_keeps_attrib(nodes, end_of(nodes, j), end, add_child_view(e, element_at(nodes, j)));
    } else if nodes[j].is_text {
        lemma_fill_keeps_attrib(nodes, j + 1, end, add_text_view(e, text_or_empty(nodes[j].text)));
    } else {
        lemma_fill_keeps_attrib(nodes, j + 1, end, e);
    }
}

/// An element has every attribute of the node that starts it, in document
/// order and whatever its value, an empty one included: as many attributes
/// as the node, each its qualified name and its value.
pub proof fn law_an_element_keeps_every_attribute(nodes: Seq<XmlNode>, i: int)
    requires
        0 <= i < nodes.len(),
    ensures
        element_at(nodes, i).attrib.len() == nodes[i].attributes@.len(),
        forall|k: int|
            0 <= k < nodes[i].attributes@.len() ==> #[trigger] element_at(nodes, i).attrib[k] == (
                qualified_text(opt_view(nodes[i].attributes@[k].0), nodes[i].attributes@[k].1@),
                nodes[i].attributes@[k].2@,
            ),
{
    lemma_fill_keeps_attrib(nodes, i + 1, end_of(nodes, i), start_view(nodes[i]));
}

} // verus!

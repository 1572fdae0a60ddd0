//! ib_async's `FlexReport`: a Flex statement as the XML the web service
//! returns, read as ElementTree reads it, and the web service's answers to a
//! download.

use vstd::prelude::*;
use vstd::utf8::{decode_utf8, valid_utf8};
use crate::error::Error;
use crate::text::{chars_of, push_chars};
use crate::url::{is_valid_url, valid_url};
use crate::xml::{
    attributed_tags, build_tree, deref_all, first_tagged, has_attributed, iter_pred,
    lemma_first_tagged, opt_view, pair_view, preorder, strictly_sorted, tag_view, texts, tree_of,
    Element, ElementView, XmlNode,
};

verus! {

/// The Flex web service's request address: ib_async's `FLEXREPORT_URL`.
pub const FLEXREPORT_URL: &'static str =
    "https://ndcdyn.interactivebrokers.com/AccountManagement/FlexWebService/SendRequest?";

/// A Flex statement, as the XML the web service returns: ib_async's
/// `FlexReport`.
#[derive(Clone, Debug)]
pub struct FlexReport {
    /// The statement's XML: `data`.
    pub data: Vec<u8>,
}

impl Default for FlexReport {
    /// A report with no data.
    fn default() -> (r: FlexReport)
        ensures
            r.data@.len() == 0,
    {
        FlexReport { data: Vec::new() }
    }
}

/// What the environment holds for `IB_FLEXREPORT_URL`.
#[derive(Clone, Debug, PartialEq, Eq)]
pub enum UrlSetting {
    /// The variable is not set.
    Unset,
    /// The variable's value.
    Given(String),
    /// The variable is set to what is not Unicode.
    NotUnicode,
}

/// The error a web service address that is not valid gives.
pub open spec fn invalid_url_text() -> Seq<char> {
    "Invalid URL, please check that env variable IB_FLEXREPORT_URL is set correctly."@
}

/// The address a setting of `IB_FLEXREPORT_URL` gives: its value when set,
/// else [`FLEXREPORT_URL`]; none when it is not Unicode.
pub open spec fn url_of(setting: UrlSetting) -> Option<Seq<char>> {
    match setting {
        UrlSetting::Unset => Some(FLEXREPORT_URL@),
        UrlSetting::Given(u) => Some(u@),
        UrlSetting::NotUnicode => None,
    }
}

// -- Reading XML ------------------------------------------------------------------

/// What `std::str::from_utf8`'s error says for bytes that are not UTF-8.
pub uninterp spec fn utf8_error_text(bytes: Seq<u8>) -> Seq<char>;

/// What roxmltree makes of a text, with a document type declaration
/// allowed: the root element and every node below it in document order, or
/// its error's text.
pub uninterp spec fn parsed_xml(text: Seq<char>) -> Result<Seq<XmlNode>, Seq<char>>;

/// `bytes` as text: `std::str::from_utf8`. Its documentation: the bytes are
/// read as UTF-8, and an error is returned where they are not valid UTF-8.
/// What the error says is named, not stated.
#[verifier::external_body]
fn utf8_text(bytes: &[u8]) -> (r: Result<String, String>)
    ensures
        match r {
            Ok(s) => valid_utf8(bytes@) && s@ == decode_utf8(bytes@),
            Err(e) => !valid_utf8(bytes@) && e@ == utf8_error_text(bytes@),
        },
{
    match std::str::from_utf8(bytes) {
        Ok(s) => Ok(s.to_owned()),
        Err(e) => Err(e.to_string()),
    }
}

/// Parses `text` with `roxmltree::Document::parse_with_options`, a document
/// type declaration allowed and the node count its default, no limit, and
/// reads the root element and every node
/// below it in document order (`Node::descendants`): how many nodes hold
/// each (`ancestors`), whether it is an element or text, an element's name
/// and attributes, and a text node's text. The claim beyond the name: the
/// first node read is the root element itself, as `descendants` starts at
/// the node it is called on.
#[verifier::external_body]
fn xml_nodes(text: &str) -> (r: Result<Vec<XmlNode>, String>)
    ensures
        match r {
            Ok(v) => parsed_xml(text@) == Ok::<Seq<XmlNode>, Seq<char>>(v@) && v@.len() > 0
                && v@[0].element,
            Err(e) => parsed_xml(text@) == Err::<Seq<XmlNode>, Seq<char>>(e@),
        },
{
    let doc = roxmltree::Document::parse_with_options(
        text,
        roxmltree::ParsingOptions { allow_dtd: true, nodes_limit: u32::MAX },
    ).map_err(|e| e.to_string())?;
    Ok(doc.root_element().descendants().map(|n| XmlNode {
        depth: n.ancestors().count(),
        element: n.is_element(),
        is_text: n.is_text(),
        namespace: n.tag_name().namespace().map(String::from),
        name: n.tag_name().name().to_owned(),
        attributes: n.attributes().map(|a| (a.namespace().map(String::from), a.name().to_owned(), a.value().to_owned())).collect(),
        text: n.text().map(String::from),
    }).collect())
}

/// The tree a report's bytes hold, or the text of why they hold none: bytes
/// that are not UTF-8, or text that is not XML.
pub open spec fn report_tree(data: Seq<u8>) -> Result<ElementView, Seq<char>> {
    if !valid_utf8(data) {
        Err(utf8_error_text(data))
    } else {
        match parsed_xml(decode_utf8(data)) {
            Err(m) => Err(m),
            Ok(nodes) => match tree_of(nodes) {
                Some(t) => Ok(t),
                None => Err(Seq::empty()),
            },
        }
    }
}

/// Parses XML as ElementTree's `fromstring` does, a document type
/// declaration included; what is not XML is `Err(Flex)`.
pub fn parse(data: &[u8]) -> (r: Result<Element, Error>)
    ensures
        match report_tree(data@) {
            Ok(t) => r matches Ok(e) && e@ == t,
            Err(m) => r matches Err(Error::Flex(x)) && x@ == m,
        },
{
    let text = match utf8_text(data) {
        Ok(t) => t,
        Err(e) => return Err(Error::Flex(e)),
    };
    let nodes = match xml_nodes(text.as_str()) {
        Ok(n) => n,
        Err(e) => return Err(Error::Flex(e)),
    };
    match build_tree(&nodes) {
        Some(e) => Ok(e),
        None => Err(Error::Flex(String::new())),
    }
}

impl FlexReport {
    /// The web service's request address for a setting of
    /// `IB_FLEXREPORT_URL`, if it has a scheme and a host; else `Err(Flex)`:
    /// ib_async's `FlexReport.get_url`.
    pub fn url_for(setting: UrlSetting) -> (r: Result<String, Error>)
        ensures
            match url_of(setting) {
                Some(u) => if valid_url(u) {
                    r matches Ok(s) && s@ == u
                } else {
                    r matches Err(Error::Flex(m)) && m@ == invalid_url_text()
                },
                None => r matches Err(Error::Flex(m)) && m@ == invalid_url_text(),
            },
    {
        let url = match setting {
            UrlSetting::Unset => Some(FLEXREPORT_URL.to_owned()),
            UrlSetting::Given(u) => Some(u),
            UrlSetting::NotUnicode => None,
        };
        match url {
            Some(u) => if is_valid_url(u.as_str()) {
                return Ok(u);
            },
            None => {},
        }
        Err(
            Error::Flex(
                "Invalid URL, please check that env variable IB_FLEXREPORT_URL is set correctly.".to_owned(),
            ),
        )
    }

    /// The parsed report; invalid XML is `Err(Flex)`: ib_async's
    /// `FlexReport.root`.
    pub fn root(&self) -> (r: Result<Element, Error>)
        ensures
            match report_tree(self.data@) {
                Ok(t) => r matches Ok(e) && e@ == t,
                Err(m) => r matches Err(Error::Flex(x)) && x@ == m,
            },
    {
        parse(self.data.as_slice())
    }

    /// The tags of the elements that have attributes, which `extract` can
    /// read, each once and in ascending order: ib_async's
    /// `FlexReport.topics`.
    pub fn topics(&self) -> (r: Result<Vec<String>, Error>)
        ensures
            match report_tree(self.data@) {
                Ok(_) => r matches Ok(v) && exists|root: Element|
                    root@ == report_tree(self.data@)->Ok_0 && strictly_sorted(texts(v@))
                        && forall|t: Seq<char>| #[trigger] texts(v@).contains(t) <==> has_attributed(root, t),
                Err(m) => r matches Err(Error::Flex(x)) && x@ == m,
            },
    {
        let root = match self.root() {
            Ok(e) => e,
            Err(e) => return Err(e),
        };
        let tags = attributed_tags(&root);
        assert(root@ == report_tree(self.data@)->Ok_0);
        Ok(tags)
    }

    /// The attributes of every element tagged `topic`, in document order,
    /// each as its name and its text: what ib_async's `FlexReport.extract`
    /// reads, before it reads numbers in the values.
    pub fn extract_text(&self, topic: &str) -> (r: Result<Vec<Vec<(String, String)>>, Error>)
        ensures
            match report_tree(self.data@) {
                Ok(_) => r matches Ok(v) && exists|root: Element|
                    root@ == report_tree(self.data@)->Ok_0 && ({
                        let found = preorder(root).filter(iter_pred(Some(topic@)));
                        &&& v@.len() == found.len()
                        &&& forall|i: int|
                            0 <= i < v@.len() ==> (#[trigger] v@[i])@.map_values(pair_view())
                                == found[i].attrib@.map_values(pair_view())
                    }),
                Err(m) => r matches Err(Error::Flex(x)) && x@ == m,
            },
    {
        let root = match self.root() {
            Ok(e) => e,
            Err(e) => return Err(e),
        };
        let found = root.iter(Some(topic));
        assert(tag_view(Some(topic)) == Some(topic@));
        let ghost want = preorder(root).filter(iter_pred(Some(topic@)));
        let mut out: Vec<Vec<(String, String)>> = Vec::new();
        let mut i: usize = 0;
        while i < found.len()
            invariant
                i <= found.len(),
                deref_all(found@) == want,
                out@.len() == i,
                forall|k: int|
                    0 <= k < i ==> (#[trigger] out@[k])@.map_values(pair_view())
                        == want[k].attrib@.map_values(pair_view()),
            decreases found.len() - i,
        {
            let e = found[i];
            assert(*e == want[i as int]);
            let mut pairs: Vec<(String, String)> = Vec::new();
            let mut j: usize = 0;
            while j < e.attrib.len()
                invariant
                    j <= e.attrib.len(),
                    pairs@.map_values(pair_view()) == e.attrib@.take(j as int).map_values(
                        pair_view(),
                    ),
                decreases e.attrib.len() - j,
            {
                let ghost before = pairs@;
                let kv = &e.attrib[j];
                let k = kv.0.clone();
                let v = kv.1.clone();
                pairs.push((k, v));
                assert(pairs@ == before.push(e.attrib@[j as int]));
                assert(e.attrib@.take(j + 1) == e.attrib@.take(j as int).push(e.attrib@[j as int]));
                assert(pairs@.map_values(pair_view()) =~= before.map_values(pair_view()).push(
                    pair_view()(e.attrib@[j as int]),
                ));
                assert(e.attrib@.take(j + 1).map_values(pair_view()) =~= e.attrib@.take(
                    j as int,
                ).map_values(pair_view()).push(pair_view()(e.attrib@[j as int])));
                assert(pairs@.map_values(pair_view()) =~= e.attrib@.take(j + 1).map_values(
                    pair_view(),
                ));
                j += 1;
            }
            assert(e.attrib@.take(e.attrib@.len() as int) =~= e.attrib@);
            out.push(pairs);
            i += 1;
        }
        assert(root@ == report_tree(self.data@)->Ok_0);
        Ok(out)
    }
}

// -- The web service's answers ---------------------------------------------------------

/// An element's text as ib_async formats it into a string: `None` when it
/// has none.
pub open spec fn py_text(t: Option<String>) -> Seq<char> {
    match t {
        Some(s) => s@,
        None => "None"@,
    }
}

/// An element's text as ib_async formats it into a string: `None` when it
/// has none.
pub fn py_str(text: &Option<String>) -> (r: &str)
    ensures
        r@ == py_text(*text),
{
    match text {
        Some(s) => s.as_str(),
        None => "None",
    }
}

/// The text of the error for a successful answer without the element
/// ib_async asserts it has.
pub open spec fn missing_text(tag: Seq<char>) -> Seq<char> {
    "the Flex answer has no "@ + tag
}

/// A successful answer without the element ib_async asserts it has.
pub fn missing(tag: &str) -> (r: Error)
    ensures
        r matches Error::Value(m) && m@ == missing_text(tag@),
{
    let mut m = String::new();
    push_chars(&mut m, &chars_of("the Flex answer has no "));
    push_chars(&mut m, &chars_of(tag));
    Error::Value(m)
}

/// The formatted text of the first child tagged `tag`, if there is one.
pub open spec fn child_text(answer: Element, tag: Seq<char>) -> Option<Seq<char>> {
    match first_tagged(answer.children@, tag) {
        Some(k) => Some(py_text(answer.children@[k].text)),
        None => None,
    }
}

/// Whether the answer's first `Status` child says `Success`.
pub open spec fn succeeded(answer: Element) -> bool {
    match first_tagged(answer.children@, "Status"@) {
        Some(k) => opt_view(answer.children@[k].text) == Some("Success"@),
        None => false,
    }
}

/// The text of a refused request's error: `{ErrorCode}: {ErrorMessage}`,
/// each empty when missing.
pub open spec fn refused_text(answer: Element) -> Seq<char> {
    let code = match child_text(answer, "ErrorCode"@) {
        Some(c) => c,
        None => Seq::empty(),
    };
    let message = match child_text(answer, "ErrorMessage"@) {
        Some(m) => m,
        None => Seq::empty(),
    };
    code + ": "@ + message
}

/// The formatted text of the first child tagged `tag`.
fn text_of(answer: &Element, tag: &str) -> (r: Option<String>)
    ensures
        match child_text(*answer, tag@) {
            Some(t) => r matches Some(s) && s@ == t,
            None => r is None,
        },
{
    proof {
        lemma_first_tagged(answer.children@, tag@);
    }
    match answer.find(tag) {
        Some(e) => Some(py_str(&e.text).to_owned()),
        None => None,
    }
}

/// The reference code and the statement address in the web service's answer
/// to a request, or `Err(Flex)` with the error it states.
pub fn reference(answer: &Element) -> (r: Result<(String, String), Error>)
    ensures
        succeeded(*answer) ==> match (
            child_text(*answer, "ReferenceCode"@),
            child_text(*answer, "Url"@),
        ) {
            (Some(c), Some(u)) => r matches Ok((rc, ru)) && rc@ == c && ru@ == u,
            (None, _) => r matches Err(Error::Value(m)) && m@ == missing_text("ReferenceCode"@),
            (Some(_), None) => r matches Err(Error::Value(m)) && m@ == missing_text("Url"@),
        },
        !succeeded(*answer) ==> (r matches Err(Error::Flex(m)) && m@ == refused_text(*answer)),
{
    proof {
        lemma_first_tagged(answer.children@, "Status"@);
    }
    let success = match answer.find("Status") {
        Some(e) => match &e.text {
            Some(t) => t.as_str().to_owned() == "Success".to_owned(),
            None => false,
        },
        None => false,
    };
    if success {
        let code = match text_of(answer, "ReferenceCode") {
            Some(c) => c,
            None => return Err(missing("ReferenceCode")),
        };
        let url = match text_of(answer, "Url") {
            Some(u) => u,
            None => return Err(missing("Url")),
        };
        Ok((code, url))
    } else {
        let code = match text_of(answer, "ErrorCode") {
            Some(c) => c,
            None => String::new(),
        };
        let message = match text_of(answer, "ErrorMessage") {
            Some(m) => m,
            None => String::new(),
        };
        let mut m = code;
        push_chars(&mut m, &chars_of(": "));
        push_chars(&mut m, &chars_of(message.as_str()));
        Err(Error::Flex(m))
    }
}

/// The words that open the answer for a statement still being generated.
pub open spec fn in_progress_words() -> Seq<char> {
    "Statement generation in progress"@
}

/// Whether `prefix` opens `s`.
fn starts_with(s: &str, prefix: &str) -> (r: bool)
    ensures
        r == prefix@.is_prefix_of(s@),
{
    let a = chars_of(s);
    let b = chars_of(prefix);
    if b.len() > a.len() {
        return false;
    }
    let mut i: usize = 0;
    while i < b.len()
        invariant
            i <= b.len() <= a.len(),
            a@ == s@,
            b@ == prefix@,
            forall|j: int| 0 <= j < i ==> a@[j] == b@[j],
        decreases b.len() - i,
    {
        if a[i] != b[i] {
            assert(!prefix@.is_prefix_of(s@)) by {
                assert(s@.subrange(0, prefix@.len() as int)[i as int] != prefix@[i as int]);
            }
            return false;
        }
        i += 1;
    }
    assert(s@.subrange(0, prefix@.len() as int) =~= prefix@);
    true
}

/// Whether a statement answer says the statement is still being generated;
/// any other message in its place is `Err(Flex)`, and an answer with no
/// child `Err(Value)`.
pub fn in_progress(answer: &Element) -> (r: Result<bool, Error>)
    ensures
        answer.children@.len() == 0 ==> (r matches Err(Error::Value(m)) && m@
            == "child index out of range"@),
        answer.children@.len() > 0 ==> {
            let first = answer.children@[0];
            if first.tag@ != "code"@ {
                r == Ok::<bool, Error>(false)
            } else {
                match first.text {
                    Some(msg) => if in_progress_words().is_prefix_of(msg@) {
                        r == Ok::<bool, Error>(true)
                    } else {
                        r matches Err(Error::Flex(m)) && m@ == msg@
                    },
                    None => r matches Err(Error::Flex(m)) && m@ == "None"@,
                }
            }
        },
{
    if answer.children.len() == 0 {
        return Err(Error::Value("child index out of range".to_owned()));
    }
    let first = &answer.children[0];
    if first.tag.as_str().to_owned() != "code".to_owned() {
        return Ok(false);
    }
    match &first.text {
        Some(msg) => if starts_with(msg.as_str(), "Statement generation in progress") {
            Ok(true)
        } else {
            Err(Error::Flex(msg.clone()))
        },
        None => Err(Error::Flex("None".to_owned())),
    }
}

} // verus!

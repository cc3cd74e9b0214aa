//! Reading XML: the events of a document, and the tree of elements that
//! they spell.
//!
//! The events come from `quick_xml`'s pull reader. What is made of them,
//! which text belongs to which element and how it is trimmed, is decided
//! here.

use vstd::prelude::*;
use vstd::string::*;
use quick_xml::events::Event::{CData, Empty, End, Eof, Start, Text};
use quick_xml::Reader;
use crate::api::codec::{
    agrees, deserialize_optional_bool, deserialize_optional_f64, deserialize_optional_i64,
    optional_bool, optional_i64, optional_number, DecodeError, DecodeReason, Fault,
};
use crate::api::client::opt_text;
use crate::text::{text_eq, trim, trimmed, trimmed_start};

verus! {

/// The kinds of event that the reader reports.
#[derive(Debug, Clone, Copy, PartialEq, Eq, Structural)]
pub enum TokenKind {
    /// A start tag; the text is the element's name.
    Open,
    /// An end tag; the text is the element's name.
    Close,
    /// A tag that opens and closes at once, `<name/>`; the text is the name.
    Leaf,
    /// Character data between tags, as written: entities are not resolved.
    Text,
    /// The content of a CDATA section.
    CData,
    /// A comment, a declaration, a processing instruction or a doctype.
    Other,
    /// The end of the input.
    End,
    /// The input is not well-formed at this point.
    Invalid,
}

/// One event of a document.
#[derive(Debug, Clone, PartialEq, Eq)]
pub struct XmlToken {
    pub kind: TokenKind,
    pub text: String,
}

/// An event over a plain sequence of characters.
pub struct Token {
    pub kind: TokenKind,
    pub text: Seq<char>,
}

impl View for XmlToken {
    type V = Token;

    open spec fn view(&self) -> Token {
        Token { kind: self.kind, text: self.text@ }
    }
}

/// Whether an event of this kind is the last that a reader reports.
pub open spec fn is_final(kind: TokenKind) -> bool {
    kind == TokenKind::End || kind == TokenKind::Invalid
}

/// The views of `tokens`, in order.
pub open spec fn token_views(tokens: Seq<XmlToken>) -> Seq<Token> {
    Seq::new(tokens.len(), |i: int| tokens[i]@)
}

/// `quick_xml::Reader`, the pull reader over an input of type `R`. Nothing
/// is known of what is inside one; `pending_events` names what it will
/// report.
#[verifier::external_type_specification]
#[verifier::external_body]
#[verifier::reject_recursive_types(R)]
pub struct ExReader<R>(Reader<R>);

/// The events of the document `text`, as `quick_xml` reads them with its
/// default settings: every event up to and including the first of kind
/// `End` or `Invalid`.
pub uninterp spec fn document_events(text: Seq<char>) -> Seq<Token>;

/// The events that `reader` has yet to report, up to and including the
/// first of kind `End` or `Invalid`.
pub uninterp spec fn pending_events(reader: Reader<&[u8]>) -> Seq<Token>;

/// `quick_xml::Reader::from_str`: a reader at the start of `text`. All the
/// events of the document are pending.
#[verifier::external_body]
fn open_reader<'a>(text: &'a str) -> (reader: Reader<&'a [u8]>)
    ensures
        pending_events(reader) == document_events(text@),
{
    Reader::from_str(text)
}

/// `quick_xml::Reader::read_event`: reports the first pending event and
/// moves past it. A failure is reported as an event of kind `Invalid`, and
/// nothing is said of the reader after it or after the end of the input.
/// Names and texts are the bytes between the markup, unchanged.
#[verifier::external_body]
fn next_token(reader: &mut Reader<&[u8]>) -> (token: XmlToken)
    ensures
        pending_events(*old(reader)).len() > 0,
        token@ == pending_events(*old(reader))[0],
        is_final(token.kind) ==> pending_events(*old(reader)).len() == 1,
        !is_final(token.kind) ==> pending_events(*final(reader)) == pending_events(
            *old(reader),
        ).drop_first(),
{
    let (kind, raw) = match reader.read_event() {
        Ok(Start(e)) => (TokenKind::Open, e.name().0.to_vec()),
        Ok(End(e)) => (TokenKind::Close, e.name().0.to_vec()),
        Ok(Empty(e)) => (TokenKind::Leaf, e.name().0.to_vec()),
        Ok(Text(e)) => (TokenKind::Text, e.to_vec()),
        Ok(CData(e)) => (TokenKind::CData, e.to_vec()),
        Ok(Eof) => (TokenKind::End, vec![]),
        Ok(_) => (TokenKind::Other, vec![]),
        Err(_) => (TokenKind::Invalid, vec![]),
    };
    XmlToken { kind, text: String::from_utf8_lossy(&raw).into_owned() }
}

/// The events of the document `text`.
pub fn tokenize(text: &str) -> (tokens: Vec<XmlToken>)
    ensures
        token_views(tokens@) == document_events(text@),
{
    let mut reader = open_reader(text);
    let mut tokens: Vec<XmlToken> = Vec::new();
    loop
        invariant_except_break
            token_views(tokens@) + pending_events(reader) == document_events(text@),
        ensures
            token_views(tokens@) == document_events(text@),
        decreases pending_events(reader).len(),
    {
        let token = next_token(&mut reader);
        let done = token.kind == TokenKind::End || token.kind == TokenKind::Invalid;
        tokens.push(token);
        if done {
            break;
        }
    }
    tokens
}

/// The text that `raw` stands for once its entity and character references
/// are resolved, as `quick_xml` resolves them; `None` where `raw` holds a
/// reference that it does not accept.
pub uninterp spec fn unescaped(raw: Seq<char>) -> Option<Seq<char>>;

/// `quick_xml::escape::unescape`: resolves the references in `raw`.
#[verifier::external_body]
fn unescape(raw: &str) -> (r: Option<String>)
    ensures
        match r {
            Some(t) => unescaped(raw@) == Some(t@),
            None => unescaped(raw@) is None,
        },
{
    match quick_xml::escape::unescape(raw) {
        Ok(t) => Some(t.into_owned()),
        Err(_) => None,
    }
}

/// An element: its name, the character data directly inside it, and the
/// elements directly inside it, in document order. Attributes are not kept.
#[derive(Debug, PartialEq, Eq)]
pub struct Element {
    pub name: String,
    pub text: String,
    pub children: Vec<Element>,
}

/// An element over plain sequences of characters.
pub struct ElementView {
    pub name: Seq<char>,
    pub text: Seq<char>,
    pub children: Seq<ElementView>,
}

/// The view of `e`: the views of its name, its text and its children.
pub open spec fn element_view(e: Element) -> ElementView
    decreases e,
{
    ElementView {
        name: e.name@,
        text: e.text@,
        children: Seq::new(
            e.children@.len(),
            |i: int|
                if 0 <= i < e.children@.len() {
                    element_view(e.children@[i])
                } else {
                    arbitrary()
                },
        ),
    }
}

/// The views of `elements`, in order.
pub open spec fn element_views(elements: Seq<Element>) -> Seq<ElementView> {
    Seq::new(elements.len(), |i: int| element_view(elements[i]))
}

impl View for Element {
    type V = ElementView;

    open spec fn view(&self) -> ElementView {
        element_view(*self)
    }
}

/// The view of an element is made of the views of its parts.
pub proof fn lemma_element_view(e: Element)
    ensures
        e@.name == e.name@,
        e@.text == e.text@,
        e@.children == element_views(e.children@),
{
}

/// The view of an optional element.
pub open spec fn opt_element(e: Option<Element>) -> Option<ElementView> {
    match e {
        Some(x) => Some(x@),
        None => None,
    }
}

/// Where the reading of a document stands: the elements that are open,
/// outermost first, each with what has been read of it; the document element
/// once it is complete; whether the next text opens a run of character data;
/// and whether the document has been found at fault.
pub struct Reading {
    pub open: Seq<ElementView>,
    pub root: Option<ElementView>,
    pub fresh: bool,
    pub fault: bool,
}

/// An element called `name` with nothing in it.
pub open spec fn empty_element(name: Seq<char>) -> ElementView {
    ElementView { name, text: Seq::empty(), children: Seq::empty() }
}

/// `parent` with `child` as its last child.
pub open spec fn with_child(parent: ElementView, child: ElementView) -> ElementView {
    ElementView { children: parent.children.push(child), ..parent }
}

/// `e` with `piece` at the end of its text.
pub open spec fn with_text(e: ElementView, piece: Seq<char>) -> ElementView {
    ElementView { text: e.text + piece, ..e }
}

/// The reading once `e` is complete: `e` becomes the last child of the
/// innermost open element, or the document element where none is open.
pub open spec fn attach(s: Reading, e: ElementView) -> Reading {
    if s.open.len() == 0 {
        Reading { root: Some(e), fresh: true, ..s }
    } else {
        Reading { open: s.open.drop_last().push(with_child(s.open.last(), e)), fresh: true, ..s }
    }
}

/// The reading once `piece` is added to the innermost open element.
pub open spec fn add_text(s: Reading, piece: Seq<char>) -> Reading {
    Reading { open: s.open.drop_last().push(with_text(s.open.last(), piece)), fresh: false, ..s }
}

/// The reading at fault.
pub open spec fn faulted(s: Reading) -> Reading {
    Reading { fault: true, ..s }
}

/// Whether the first event after number `i` that is not of kind `Other` is
/// character data.
pub open spec fn text_follows(tokens: Seq<Token>, i: int) -> bool
    decreases tokens.len() - i,
{
    if i < 0 || i + 1 >= tokens.len() {
        false
    } else if tokens[i + 1].kind == TokenKind::Other {
        text_follows(tokens, i + 1)
    } else {
        tokens[i + 1].kind == TokenKind::Text || tokens[i + 1].kind == TokenKind::CData
    }
}

/// The reading after one more event `t`; `last_of_run` says that no
/// character data follows it directly.
///
/// Nothing changes once the document element is complete or a fault is
/// found. A start tag opens an element and an end tag must close the
/// innermost open one by its name. Character data belongs to the innermost
/// open element: written text loses the white space at the start of a run
/// and at its end, and has its references resolved afterwards; CDATA is
/// taken as it is. Outside the document element only white space may stand.
pub open spec fn step(s: Reading, t: Token, last_of_run: bool) -> Reading {
    if s.fault || s.root is Some {
        s
    } else {
        match t.kind {
            TokenKind::Other => s,
            TokenKind::Open => Reading { open: s.open.push(empty_element(t.text)), fresh: true, ..s },
            TokenKind::Leaf => attach(s, empty_element(t.text)),
            TokenKind::Close => if s.open.len() == 0 || s.open.last().name != t.text {
                faulted(s)
            } else {
                attach(Reading { open: s.open.drop_last(), ..s }, s.open.last())
            },
            TokenKind::Text => if s.open.len() == 0 {
                if trimmed_start(t.text).len() == 0 {
                    s
                } else {
                    faulted(s)
                }
            } else if s.fresh && trimmed_start(t.text).len() == 0 {
                s
            } else {
                let piece = trimmed(t.text, s.fresh, last_of_run);
                if piece.len() == 0 {
                    Reading { fresh: false, ..s }
                } else {
                    match unescaped(piece) {
                        Some(u) => add_text(s, u),
                        None => faulted(s),
                    }
                }
            },
            TokenKind::CData => if s.open.len() == 0 {
                faulted(s)
            } else {
                add_text(s, t.text)
            },
            TokenKind::End => faulted(s),
            TokenKind::Invalid => faulted(s),
        }
    }
}

/// The reading after the first `n` of `tokens`.
pub open spec fn reading_after(tokens: Seq<Token>, n: nat) -> Reading
    decreases n,
{
    if n == 0 {
        Reading { open: Seq::empty(), root: None, fresh: true, fault: false }
    } else {
        step(
            reading_after(tokens, (n - 1) as nat),
            tokens[n - 1],
            !text_follows(tokens, n - 1),
        )
    }
}

/// The document element that `tokens` spell; `None` where they are at fault
/// before it is complete, or end without it.
pub open spec fn document_of(tokens: Seq<Token>) -> Option<ElementView> {
    let s = reading_after(tokens, tokens.len());
    if s.fault {
        None
    } else {
        s.root
    }
}

fn character_data_follows(tokens: &Vec<XmlToken>, i: usize) -> (r: bool)
    requires
        i < tokens.len(),
    ensures
        r == text_follows(token_views(tokens@), i as int),
{
    let mut j: usize = i;
    while j + 1 < tokens.len() && tokens[j + 1].kind == TokenKind::Other
        invariant
            i <= j < tokens.len(),
            text_follows(token_views(tokens@), i as int) == text_follows(
                token_views(tokens@),
                j as int,
            ),
        decreases tokens.len() - j,
    {
        j += 1;
    }
    if j + 1 < tokens.len() {
        tokens[j + 1].kind == TokenKind::Text || tokens[j + 1].kind == TokenKind::CData
    } else {
        false
    }
}

fn new_element(name: &String) -> (e: Element)
    ensures
        e@ == empty_element(name@),
{
    let e = Element { name: name.clone(), text: String::new(), children: Vec::new() };
    proof {
        assert(e@.children =~= Seq::<ElementView>::empty());
    }
    e
}

fn attach_to(stack: &mut Vec<Element>, root: &mut Option<Element>, e: Element)
    requires
        *old(root) is None,
    ensures
        ({
            let before = Reading {
                open: element_views(old(stack)@),
                root: None,
                fresh: true,
                fault: false,
            };
            let after = attach(before, e@);
            &&& element_views(final(stack)@) == after.open
            &&& opt_element(*final(root)) == after.root
        }),
{
    match stack.pop() {
        None => {
            *root = Some(e);
        },
        Some(parent) => {
            let mut parent = parent;
            let ghost before = parent;
            parent.children.push(e);
            proof {
                lemma_element_view(before);
                lemma_element_view(parent);
                assert(element_views(parent.children@) =~= element_views(
                    before.children@,
                ).push(e@));
            }
            stack.push(parent);
        },
    }
}

fn add_text_to(stack: &mut Vec<Element>, piece: &str)
    requires
        old(stack)@.len() > 0,
    ensures
        element_views(final(stack)@) == element_views(old(stack)@).drop_last().push(
            with_text(element_views(old(stack)@).last(), piece@),
        ),
{
    match stack.pop() {
        None => {},
        Some(top) => {
            let mut top = top;
            top.text.append(piece);
            stack.push(top);
        },
    }
}

/// Builds the document element that `tokens` spell.
pub fn read_tree(tokens: &Vec<XmlToken>) -> (r: Option<Element>)
    ensures
        opt_element(r) == document_of(token_views(tokens@)),
{
    let mut stack: Vec<Element> = Vec::new();
    let mut root: Option<Element> = None;
    let mut fresh = true;
    let mut fault = false;
    let mut i: usize = 0;
    assert(element_views(stack@) =~= Seq::<ElementView>::empty());
    while i < tokens.len()
        invariant
            i <= tokens.len(),
            reading_after(token_views(tokens@), i as nat) == (Reading {
                open: element_views(stack@),
                root: opt_element(root),
                fresh,
                fault,
            }),
        decreases tokens.len() - i,
    {
        let ghost before = reading_after(token_views(tokens@), i as nat);
        if !fault && root.is_none() {
            let token = &tokens[i];
            match token.kind {
                TokenKind::Other => {},
                TokenKind::Open => {
                    let e = new_element(&token.text);
                    stack.push(e);
                    fresh = true;
                    assert(element_views(stack@) =~= before.open.push(e@));
                },
                TokenKind::Leaf => {
                    let e = new_element(&token.text);
                    attach_to(&mut stack, &mut root, e);
                    fresh = true;
                },
                TokenKind::Close => {
                    match stack.pop() {
                        None => {
                            fault = true;
                        },
                        Some(top) => {
                            assert(element_views(stack@) =~= before.open.drop_last());
                            if top.name == token.text {
                                attach_to(&mut stack, &mut root, top);
                                fresh = true;
                            } else {
                                stack.push(top);
                                fault = true;
                                assert(element_views(stack@) =~= before.open);
                            }
                        },
                    }
                },
                TokenKind::Text => {
                    let lead = trim(token.text.as_str(), true, false);
                    if stack.len() == 0 {
                        if !lead.as_str().is_empty() {
                            fault = true;
                        }
                    } else if !fresh || !lead.as_str().is_empty() {
                        let last_of_run = !character_data_follows(tokens, i);
                        let piece = trim(token.text.as_str(), fresh, last_of_run);
                        if piece.as_str().is_empty() {
                            fresh = false;
                        } else {
                            match unescape(piece.as_str()) {
                                Some(u) => {
                                    add_text_to(&mut stack, u.as_str());
                                    fresh = false;
                                },
                                None => {
                                    fault = true;
                                },
                            }
                        }
                    }
                },
                TokenKind::CData => {
                    if stack.len() == 0 {
                        fault = true;
                    } else {
                        add_text_to(&mut stack, token.text.as_str());
                        fresh = false;
                    }
                },
                TokenKind::End => {
                    fault = true;
                },
                TokenKind::Invalid => {
                    fault = true;
                },
            }
        }
        i += 1;
    }
    if fault {
        None
    } else {
        root
    }
}

/// The fault of a document that is not well-formed, met while looking for
/// the element `root`.
pub open spec fn malformed(root: Seq<char>) -> Fault {
    Fault { field: root, raw_text: Seq::empty(), reason: DecodeReason::MalformedDocument }
}

/// The fault of a document whose element is called `found` where `root`
/// was expected.
pub open spec fn wrong_root(root: Seq<char>, found: Seq<char>) -> Fault {
    Fault { field: root, raw_text: found, reason: DecodeReason::UnexpectedRoot }
}

/// The document element of the XML text `xml`, which must be called
/// `root`; faults for a document that is not well-formed, and for another
/// root.
pub open spec fn root_of(xml: Seq<char>, root: Seq<char>) -> Result<ElementView, Fault> {
    match document_of(document_events(xml)) {
        None => Err(malformed(root)),
        Some(e) => if e.name == root {
            Ok(e)
        } else {
            Err(wrong_root(root, e.name))
        },
    }
}

/// Whether a parsed element and the outcome expected of the parse agree.
pub open spec fn parsed_as(r: Result<Element, DecodeError>, expected: Result<
    ElementView,
    Fault,
>) -> bool {
    match r {
        Ok(e) => expected == Ok::<ElementView, Fault>(e@),
        Err(x) => expected == Err::<ElementView, Fault>(x@),
    }
}

/// The same as `parse_document`, from the events of the document.
pub fn document_from_tokens(tokens: &Vec<XmlToken>, root: &str) -> (r: Result<
    Element,
    DecodeError,
>)
    ensures
        parsed_as(
            r,
            match document_of(token_views(tokens@)) {
                None => Err(malformed(root@)),
                Some(e) => if e.name == root@ {
                    Ok(e)
                } else {
                    Err(wrong_root(root@, e.name))
                },
            },
        ),
{
    proof {
        reveal_strlit("");
        assert(""@ =~= Seq::<char>::empty());
    }
    match read_tree(tokens) {
        None => Err(DecodeError::new(root, "", DecodeReason::MalformedDocument)),
        Some(e) => {
            if text_eq(e.name.as_str(), root) {
                Ok(e)
            } else {
                Err(DecodeError::new(root, e.name.as_str(), DecodeReason::UnexpectedRoot))
            }
        },
    }
}

/// Parses the XML text `xml`, whose document element must be called
/// `root`.
pub fn parse_document(xml: &str, root: &str) -> (r: Result<Element, DecodeError>)
    ensures
        parsed_as(r, root_of(xml@, root@)),
{
    let tokens = tokenize(xml);
    document_from_tokens(&tokens, root)
}

/// Those of the first `n` of `children` that are called `name`, in order.
pub open spec fn named_among(children: Seq<ElementView>, name: Seq<char>, n: nat) -> Seq<
    ElementView,
>
    decreases n,
{
    if n == 0 {
        Seq::empty()
    } else {
        let before = named_among(children, name, (n - 1) as nat);
        if n <= children.len() && children[n - 1].name == name {
            before.push(children[n - 1])
        } else {
            before
        }
    }
}

/// The children of `e` that are called `name`, in document order.
pub open spec fn named(e: ElementView, name: Seq<char>) -> Seq<ElementView> {
    named_among(e.children, name, e.children.len())
}

/// The fault of a field that occurs more than once.
pub open spec fn duplicate(field: Seq<char>) -> Fault {
    Fault { field, raw_text: Seq::empty(), reason: DecodeReason::DuplicateField }
}

/// The fault of a scalar field that holds elements.
pub open spec fn not_scalar(field: Seq<char>, text: Seq<char>) -> Fault {
    Fault { field, raw_text: text, reason: DecodeReason::UnexpectedElement }
}

/// The one child of `e` called `field`: `Ok(None)` where there is none, a
/// fault where there are several.
pub open spec fn only_child(e: ElementView, field: Seq<char>) -> Result<
    Option<ElementView>,
    Fault,
> {
    let found = named(e, field);
    if found.len() == 0 {
        Ok(None)
    } else if found.len() == 1 {
        Ok(Some(found[0]))
    } else {
        Err(duplicate(field))
    }
}

/// The text of the scalar field `field` of `e`: `Ok(None)` where the field
/// is absent or empty, a fault where it occurs twice or holds elements.
pub open spec fn text_reading(e: ElementView, field: Seq<char>) -> Result<
    Option<Seq<char>>,
    Fault,
> {
    match only_child(e, field) {
        Err(f) => Err(f),
        Ok(None) => Ok(None),
        Ok(Some(c)) => if c.children.len() > 0 {
            Err(not_scalar(field, c.text))
        } else if c.text.len() == 0 {
            Ok(None)
        } else {
            Ok(Some(c.text))
        },
    }
}

/// The integer field `field` of `e`, decoded tolerantly from its text.
pub open spec fn int_reading(e: ElementView, field: Seq<char>) -> Result<Option<i64>, Fault> {
    match text_reading(e, field) {
        Err(f) => Err(f),
        Ok(t) => optional_i64(field, t),
    }
}

/// The boolean field `field` of `e`, decoded tolerantly from its text.
pub open spec fn bool_reading(e: ElementView, field: Seq<char>) -> Result<Option<bool>, Fault> {
    match text_reading(e, field) {
        Err(f) => Err(f),
        Ok(t) => optional_bool(field, t),
    }
}

/// The floating-point field `field` of `e`, kept as the text that writes
/// the number.
pub open spec fn number_reading(e: ElementView, field: Seq<char>) -> Result<
    Option<Seq<char>>,
    Fault,
> {
    match text_reading(e, field) {
        Err(f) => Err(f),
        Ok(t) => optional_number(field, t),
    }
}

/// The fault of a reading, if it has one.
pub open spec fn fault_of<T>(reading: Result<T, Fault>) -> Option<Fault> {
    match reading {
        Ok(_) => None,
        Err(f) => Some(f),
    }
}

/// The first of two optional faults.
pub open spec fn or_fault(first: Option<Fault>, second: Option<Fault>) -> Option<Fault> {
    match first {
        Some(f) => Some(f),
        None => second,
    }
}

impl Element {
    /// The one child called `field`.
    pub fn child<'a>(&'a self, field: &str) -> (r: Result<Option<&'a Element>, DecodeError>)
        ensures
            match r {
                Ok(Some(c)) => only_child(self@, field@) == Ok::<Option<ElementView>, Fault>(
                    Some(c@),
                ),
                Ok(None) => only_child(self@, field@) == Ok::<Option<ElementView>, Fault>(None),
                Err(x) => only_child(self@, field@) == Err::<Option<ElementView>, Fault>(x@),
            },
    {
        let mut found: Option<&'a Element> = None;
        let mut i: usize = 0;
        while i < self.children.len()
            invariant
                i <= self.children.len(),
                self@.children == element_views(self.children@),
                match found {
                    Some(c) => named_among(self@.children, field@, i as nat) == seq![c@],
                    None => named_among(self@.children, field@, i as nat).len() == 0,
                },
            decreases self.children.len() - i,
        {
            let c = &self.children[i];
            if text_eq(c.name.as_str(), field) {
                if found.is_some() {
                    proof {
                        reveal_strlit("");
                        assert(""@ =~= Seq::<char>::empty());
                        lemma_named_grows(
                            self@.children,
                            field@,
                            (i + 1) as nat,
                            self@.children.len(),
                        );
                    }
                    return Err(DecodeError::new(field, "", DecodeReason::DuplicateField));
                }
                found = Some(c);
            }
            i += 1;
        }
        Ok(found)
    }

    /// The children called `name`, in document order.
    pub fn children_named<'a>(&'a self, name: &str) -> (found: Vec<&'a Element>)
        ensures
            found@.len() == named(self@, name@).len(),
            forall|k: int| 0 <= k < found@.len() ==> (#[trigger] found@[k])@ == named(
                self@,
                name@,
            )[k],
    {
        let mut found: Vec<&'a Element> = Vec::new();
        let mut i: usize = 0;
        while i < self.children.len()
            invariant
                i <= self.children.len(),
                self@.children == element_views(self.children@),
                found@.len() == named_among(self@.children, name@, i as nat).len(),
                forall|k: int| 0 <= k < found@.len() ==> (#[trigger] found@[k])@ == named_among(
                    self@.children,
                    name@,
                    i as nat,
                )[k],
            decreases self.children.len() - i,
        {
            let c = &self.children[i];
            if text_eq(c.name.as_str(), name) {
                found.push(c);
            }
            i += 1;
        }
        found
    }

    /// The text of the scalar field `field`.
    pub fn text_field(&self, field: &str) -> (r: Result<Option<String>, DecodeError>)
        ensures
            match r {
                Ok(t) => text_reading(self@, field@) == Ok::<Option<Seq<char>>, Fault>(
                    opt_text(t),
                ),
                Err(x) => text_reading(self@, field@) == Err::<Option<Seq<char>>, Fault>(x@),
            },
    {
        match self.child(field) {
            Err(x) => Err(x),
            Ok(None) => Ok(None),
            Ok(Some(c)) => {
                if c.children.len() > 0 {
                    Err(DecodeError::new(field, c.text.as_str(), DecodeReason::UnexpectedElement))
                } else if c.text.as_str().is_empty() {
                    Ok(None)
                } else {
                    Ok(Some(c.text.clone()))
                }
            },
        }
    }

    /// The integer field `field`.
    pub fn int_field(&self, field: &str) -> (r: Result<Option<i64>, DecodeError>)
        ensures
            agrees(r, int_reading(self@, field@)),
    {
        match self.text_field(field) {
            Err(x) => Err(x),
            Ok(None) => deserialize_optional_i64(field, None),
            Ok(Some(t)) => deserialize_optional_i64(field, Some(t.as_str())),
        }
    }

    /// The floating-point field `field`, as the text that writes it.
    pub fn number_field(&self, field: &str) -> (r: Result<Option<String>, DecodeError>)
        ensures
            match r {
                Ok(t) => number_reading(self@, field@) == Ok::<Option<Seq<char>>, Fault>(
                    opt_text(t),
                ),
                Err(x) => number_reading(self@, field@) == Err::<Option<Seq<char>>, Fault>(x@),
            },
    {
        match self.text_field(field) {
            Err(x) => Err(x),
            Ok(None) => deserialize_optional_f64(field, None),
            Ok(Some(t)) => deserialize_optional_f64(field, Some(t.as_str())),
        }
    }

    /// The boolean field `field`.
    pub fn bool_field(&self, field: &str) -> (r: Result<Option<bool>, DecodeError>)
        ensures
            agrees(r, bool_reading(self@, field@)),
    {
        match self.text_field(field) {
            Err(x) => Err(x),
            Ok(None) => deserialize_optional_bool(field, None),
            Ok(Some(t)) => deserialize_optional_bool(field, Some(t.as_str())),
        }
    }
}

/// Looking at more children never loses one that was found.
pub proof fn lemma_named_grows(children: Seq<ElementView>, name: Seq<char>, fewer: nat, more: nat)
    requires
        fewer <= more,
    ensures
        named_among(children, name, fewer).len() <= named_among(children, name, more).len(),
    decreases more,
{
    if fewer < more {
        lemma_named_grows(children, name, fewer, (more - 1) as nat);
    }
}

/// A field that is absent and one that is present and empty read alike:
/// as `None`, whatever the type of the field, and never as a fault.
pub proof fn law_absent_and_empty_fields_read_alike(
    absent: ElementView,
    empty: ElementView,
    field: Seq<char>,
)
    requires
        named(absent, field).len() == 0,
        named(empty, field).len() == 1,
        named(empty, field)[0].text.len() == 0,
        named(empty, field)[0].children.len() == 0,
    ensures
        text_reading(absent, field) == text_reading(empty, field),
        int_reading(absent, field) == int_reading(empty, field),
        bool_reading(absent, field) == bool_reading(empty, field),
        number_reading(absent, field) == number_reading(empty, field),
        text_reading(absent, field) == Ok::<Option<Seq<char>>, Fault>(None),
        int_reading(absent, field) == Ok::<Option<i64>, Fault>(None),
        bool_reading(absent, field) == Ok::<Option<bool>, Fault>(None),
        number_reading(absent, field) == Ok::<Option<Seq<char>>, Fault>(None),
{
}

/// An element without children has no child of any name: a wrapper that
/// holds nothing spells the empty list.
pub proof fn law_empty_wrapper_is_empty_list(e: ElementView, name: Seq<char>)
    requires
        e.children.len() == 0,
    ensures
        named(e, name) == Seq::<ElementView>::empty(),
{
}

} // verus!

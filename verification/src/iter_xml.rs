//! Materializing elements from a stream of events, and the iterator that picks
//! the elements of interest out of a document.

use vstd::prelude::*;
use vstd::string::StringExecFns;
use crate::element::{attribute_map, Element, ElementView};
use crate::error::{XmlError, XmlErrorView};
use crate::events::{EventSource, StartTag, StartTagView, XmlEvent, XmlEventView, XmlReader, document_events};
use crate::text::str_eq;

verus! {

/// The element that a tag, its children and its text make.
pub open spec fn assemble(tag: StartTagView, children: Seq<ElementView>, text: Seq<char>) -> ElementView {
    ElementView {
        name: tag.local_name,
        namespace: tag.namespace,
        attributes: attribute_map(tag.attributes),
        children,
        text,
    }
}

/// How input is taken that ends, or that the tokenizer rejects, inside an
/// element that is being materialized.
#[derive(Debug, Clone, Copy, PartialEq, Eq, Structural)]
pub enum Mode {
    /// The end of input ends the element as if it were closed there, and
    /// rejected input is passed over: a damaged document gives the part of
    /// the tree that can be read.
    Lenient,
    /// The end of input and rejected input are errors.
    Strict,
}

/// The element opened by `tag` once `children` and `text` have been read and
/// `events` follow, or the fault that reading it meets, together with the
/// events that remain.
///
/// Text is appended to the text, an opening tag starts a child that is read to
/// its own end first, a self-closing tag is a child without content, and the
/// closing tag with the name of `tag` ends the element. The end of the events
/// ends it too, and rejected input is passed over, unless the mode is strict:
/// then both are faults. Everything else is passed over.
pub open spec fn fill(
    tag: StartTagView,
    events: Seq<XmlEventView>,
    children: Seq<ElementView>,
    text: Seq<char>,
    mode: Mode,
) -> (Result<ElementView, XmlErrorView>, Seq<XmlEventView>)
    decreases events.len(),
{
    if events.len() == 0 || events[0] is Eof {
        match mode {
            Mode::Lenient => (Ok(assemble(tag, children, text)), events),
            Mode::Strict => (Err(XmlErrorView::UnexpectedEof), events),
        }
    } else {
        let rest = events.skip(1);
        match events[0] {
            XmlEventView::Start(t) => {
                let (child, after) = fill(t, rest, Seq::empty(), Seq::empty(), mode);
                match child {
                    Ok(c) => if after.len() <= rest.len() {
                        fill(tag, after, children.push(c), text, mode)
                    } else {
                        arbitrary()
                    },
                    Err(e) => (Err(e), after),
                }
            },
            XmlEventView::Empty(t) => fill(
                tag,
                rest,
                children.push(assemble(t, Seq::empty(), Seq::empty())),
                text,
                mode,
            ),
            XmlEventView::Text(s) => fill(tag, rest, children, text + s, mode),
            XmlEventView::End(name) => if name == tag.qname {
                (Ok(assemble(tag, children, text)), rest)
            } else {
                fill(tag, rest, children, text, mode)
            },
            XmlEventView::Invalid => match mode {
                Mode::Lenient => fill(tag, rest, children, text, mode),
                Mode::Strict => (Err(XmlErrorView::Malformed), rest),
            },
            _ => fill(tag, rest, children, text, mode),
        }
    }
}

/// The element opened by `tag` when `events` follow it, or the fault that
/// reading it meets, and the events that remain.
pub open spec fn materialize(tag: StartTagView, events: Seq<XmlEventView>, mode: Mode) -> (
    Result<ElementView, XmlErrorView>,
    Seq<XmlEventView>,
) {
    fill(tag, events, Seq::empty(), Seq::empty(), mode)
}

/// Reading an element never leaves more events than there were.
pub proof fn lemma_fill_shrinks(
    tag: StartTagView,
    events: Seq<XmlEventView>,
    children: Seq<ElementView>,
    text: Seq<char>,
    mode: Mode,
)
    ensures
        fill(tag, events, children, text, mode).1.len() <= events.len(),
    decreases events.len(),
{
    if events.len() > 0 {
        let rest = events.skip(1);
        match events[0] {
            XmlEventView::Start(t) => {
                lemma_fill_shrinks(t, rest, Seq::empty(), Seq::empty(), mode);
                let (child, after) = fill(t, rest, Seq::empty(), Seq::empty(), mode);
                if let Ok(c) = child {
                    lemma_fill_shrinks(tag, after, children.push(c), text, mode);
                }
            },
            XmlEventView::Empty(t) => {
                lemma_fill_shrinks(
                    tag,
                    rest,
                    children.push(assemble(t, Seq::empty(), Seq::empty())),
                    text,
                    mode,
                );
            },
            XmlEventView::Text(s) => {
                lemma_fill_shrinks(tag, rest, children, text + s, mode);
            },
            XmlEventView::End(name) => {
                if name != tag.qname {
                    lemma_fill_shrinks(tag, rest, children, text, mode);
                }
            },
            XmlEventView::Eof => {},
            XmlEventView::Invalid => {
                if mode is Lenient {
                    lemma_fill_shrinks(tag, rest, children, text, mode);
                }
            },
            _ => {
                lemma_fill_shrinks(tag, rest, children, text, mode);
            },
        }
    }
}

/// Lenient reading always gives an element.
pub proof fn lemma_lenient_fill(
    tag: StartTagView,
    events: Seq<XmlEventView>,
    children: Seq<ElementView>,
    text: Seq<char>,
)
    ensures
        fill(tag, events, children, text, Mode::Lenient).0 is Ok,
    decreases events.len(),
{
    let mode = Mode::Lenient;
    if events.len() > 0 {
        let rest = events.skip(1);
        match events[0] {
            XmlEventView::Start(t) => {
                lemma_lenient_fill(t, rest, Seq::empty(), Seq::empty());
                lemma_fill_shrinks(t, rest, Seq::empty(), Seq::empty(), mode);
                let (child, after) = fill(t, rest, Seq::empty(), Seq::empty(), mode);
                lemma_lenient_fill(tag, after, children.push(child->Ok_0), text);
            },
            XmlEventView::Empty(t) => {
                lemma_lenient_fill(
                    tag,
                    rest,
                    children.push(assemble(t, Seq::empty(), Seq::empty())),
                    text,
                );
            },
            XmlEventView::Text(s) => {
                lemma_lenient_fill(tag, rest, children, text + s);
            },
            XmlEventView::End(name) => {
                if name != tag.qname {
                    lemma_lenient_fill(tag, rest, children, text);
                }
            },
            XmlEventView::Eof => {},
            _ => {
                lemma_lenient_fill(tag, rest, children, text);
            },
        }
    }
}

/// What the iterator yields next from `events`, and the events that remain.
///
/// The first opening or self-closing tag whose name as written is in `interest`
/// is materialized. A piece of input that the tokenizer rejected is yielded as an
/// error. Everything else is passed over, at whatever depth it stands.
pub open spec fn scan(events: Seq<XmlEventView>, interest: Set<Seq<char>>, mode: Mode) -> (
    Option<Result<ElementView, XmlErrorView>>,
    Seq<XmlEventView>,
)
    decreases events.len(),
{
    if events.len() == 0 {
        (None, events)
    } else {
        let rest = events.skip(1);
        match events[0] {
            XmlEventView::Start(t) => if interest.contains(t.qname) {
                (Some(materialize(t, rest, mode).0), materialize(t, rest, mode).1)
            } else {
                scan(rest, interest, mode)
            },
            XmlEventView::Empty(t) => if interest.contains(t.qname) {
                (Some(Ok(assemble(t, Seq::empty(), Seq::empty()))), rest)
            } else {
                scan(rest, interest, mode)
            },
            XmlEventView::Invalid => (Some(Err(XmlErrorView::Malformed)), rest),
            XmlEventView::Eof => (None, events),
            _ => scan(rest, interest, mode),
        }
    }
}

/// The view of what the iterator yields.
pub open spec fn item_view(item: Option<Result<Element, XmlError>>) -> Option<Result<ElementView, XmlErrorView>> {
    match item {
        Some(Ok(e)) => Some(Ok(e.deep_view())),
        Some(Err(e)) => Some(Err(e.deep_view())),
        None => None,
    }
}

/// Pulls the elements with the tag names of interest out of a stream of events.
pub struct XmlIterator<S: EventSource> {
    tag_names: Vec<String>,
    source: S,
    mode: Mode,
}

/// An element without content.
fn leaf(tag: StartTag) -> (e: Element)
    ensures
        e.deep_view() == assemble(tag.deep_view(), Seq::empty(), Seq::empty()),
{
    let e = Element {
        local_name: tag.local_name,
        namespace: tag.namespace,
        attributes: tag.attributes,
        children: Vec::new(),
        text: String::new(),
    };
    proof {
        e.lemma_view();
        assert(e.deep_view().children =~= Seq::empty());
    }
    e
}

/// The view of what materializing gives.
pub open spec fn element_view(r: Result<Element, XmlError>) -> Result<ElementView, XmlErrorView> {
    match r {
        Ok(e) => Ok(e.deep_view()),
        Err(e) => Err(e.deep_view()),
    }
}

impl Element {
    /// Materialize the element whose opening tag `start` has just been read
    /// from `source`: consume events up to its closing tag, or to the end of
    /// input, which ends the element without an error.
    pub fn parse_start<S: EventSource>(source: &mut S, start: StartTag) -> (r: Result<
        Element,
        XmlError,
    >)
        ensures
            r is Ok,
            (element_view(r), final(source).pending()) == materialize(
                start.deep_view(),
                old(source).pending(),
                Mode::Lenient,
            ),
    {
        proof {
            lemma_lenient_fill(start.deep_view(), source.pending(), Seq::empty(), Seq::empty());
        }
        Element::parse_start_in(source, start, Mode::Lenient)
    }

    /// Materialize the element whose opening tag `start` has just been read
    /// from `source`, taking damaged input as `mode` says: consume events up
    /// to the element's closing tag, to the end of input, or to the fault.
    pub fn parse_start_in<S: EventSource>(source: &mut S, start: StartTag, mode: Mode) -> (r: Result<
        Element,
        XmlError,
    >)
        ensures
            (element_view(r), final(source).pending()) == materialize(
                start.deep_view(),
                old(source).pending(),
                mode,
            ),
        decreases old(source).pending().len(),
    {
        let ghost tag = start.deep_view();
        let ghost goal = materialize(tag, source.pending(), mode);
        let ghost limit = source.pending().len();
        let mut children: Vec<Element> = Vec::new();
        let mut text = String::new();
        let ghost mut kids: Seq<ElementView> = Seq::empty();
        loop
            invariant
                tag == start.deep_view(),
                goal == materialize(tag, old(source).pending(), mode),
                source.pending().len() <= limit,
                limit == old(source).pending().len(),
                kids.len() == children@.len(),
                forall|i: int| 0 <= i < kids.len() ==> #[trigger] kids[i] == children@[i].deep_view(),
                fill(tag, source.pending(), kids, text@, mode) == goal,
            decreases source.pending().len() + 1,
        {
            let ghost events = source.pending();
            let ev = source.next_event();
            proof {
                if events.len() > 0 {
                    lemma_fill_step(tag, events, kids, text@, mode);
                }
            }
            match ev {
                XmlEvent::Start(t) => {
                    let ghost inner = t.deep_view();
                    proof {
                        lemma_fill_shrinks(inner, events.skip(1), Seq::empty(), Seq::empty(), mode);
                    }
                    let child = Element::parse_start_in(source, t, mode)?;
                    proof {
                        kids = kids.push(child.deep_view());
                    }
                    children.push(child);
                },
                XmlEvent::Empty(t) => {
                    let child = leaf(t);
                    proof {
                        kids = kids.push(child.deep_view());
                    }
                    children.push(child);
                },
                XmlEvent::Text(s) => {
                    text.append(s.as_str());
                },
                XmlEvent::End(name) => {
                    if str_eq(name.as_str(), start.qname.as_str()) {
                        return Ok(Element::finish(start, children, text, Ghost(kids)));
                    }
                },
                XmlEvent::Eof => {
                    return match mode {
                        Mode::Lenient => Ok(Element::finish(start, children, text, Ghost(kids))),
                        Mode::Strict => Err(XmlError::UnexpectedEof),
                    };
                },
                XmlEvent::Invalid => {
                    match mode {
                        Mode::Lenient => {},
                        Mode::Strict => {
                            return Err(XmlError::Malformed);
                        },
                    }
                },
                XmlEvent::Other => {},
            }
        }
    }

    /// The element that an opening tag and what was read after it make.
    fn finish(
        start: StartTag,
        children: Vec<Element>,
        text: String,
        Ghost(kids): Ghost<Seq<ElementView>>,
    ) -> (e: Element)
        requires
            kids.len() == children@.len(),
            forall|i: int| 0 <= i < kids.len() ==> #[trigger] kids[i] == children@[i].deep_view(),
        ensures
            e.deep_view() == assemble(start.deep_view(), kids, text@),
    {
        let e = Element {
            local_name: start.local_name,
            namespace: start.namespace,
            attributes: start.attributes,
            children,
            text,
        };
        proof {
            e.lemma_view();
            assert(e.deep_view().children =~= kids);
        }
        e
    }
}

impl<S: EventSource> XmlIterator<S> {
    /// The tag names that the iterator looks for.
    pub closed spec fn interest(&self) -> Set<Seq<char>> {
        self.tag_names.deep_view().to_set()
    }

    /// The events that the iterator has still to look at.
    pub closed spec fn pending(&self) -> Seq<XmlEventView> {
        self.source.pending()
    }

    /// How the iterator takes damaged input inside an element.
    pub closed spec fn mode(&self) -> Mode {
        self.mode
    }

    /// An iterator over the elements of `source` whose tag name as written is
    /// one of `tag_names`. Inside an element it is lenient with damaged input.
    pub fn new(tag_names: Vec<String>, source: S) -> (it: Self)
        ensures
            it.interest() == tag_names.deep_view().to_set(),
            it.pending() == source.pending(),
            it.mode() == Mode::Lenient,
    {
        XmlIterator { tag_names, source, mode: Mode::Lenient }
    }

    /// An iterator over the elements of `source` whose tag name as written is
    /// one of `tag_names`, which takes damaged input inside an element as
    /// `mode` says.
    pub fn with_mode(tag_names: Vec<String>, source: S, mode: Mode) -> (it: Self)
        ensures
            it.interest() == tag_names.deep_view().to_set(),
            it.pending() == source.pending(),
            it.mode() == mode,
    {
        XmlIterator { tag_names, source, mode }
    }

    /// Whether `name` is one of the tag names of interest.
    fn is_of_interest(&self, name: &str) -> (r: bool)
        ensures
            r == self.interest().contains(name@),
    {
        let ghost names = self.tag_names.deep_view();
        let mut i: usize = 0;
        while i < self.tag_names.len()
            invariant
                i <= self.tag_names.len(),
                names == self.tag_names.deep_view(),
                forall|j: int| 0 <= j < i ==> names[j] != name@,
            decreases self.tag_names.len() - i,
        {
            if str_eq(self.tag_names[i].as_str(), name) {
                assert(names[i as int] == name@);
                return true;
            }
            i += 1;
        }
        false
    }

    /// Materialize the element whose opening tag `start` has just been read:
    /// consume events up to its closing tag, or to the end of input, which
    /// ends the element without an error.
    pub fn parse_start(&mut self, start: StartTag) -> (r: Result<Element, XmlError>)
        ensures
            r is Ok,
            (element_view(r), final(self).pending()) == materialize(
                start.deep_view(),
                old(self).pending(),
                Mode::Lenient,
            ),
            final(self).interest() == old(self).interest(),
            final(self).mode() == old(self).mode(),
    {
        Element::parse_start(&mut self.source, start)
    }

    /// Everything that the iterator still yields, in order.
    pub fn collect_all(self) -> (r: Vec<Result<Element, XmlError>>)
        ensures
            r@.len() == scan_all(self.pending(), self.interest(), self.mode()).len(),
            forall|i: int|
                0 <= i < r@.len() ==> element_view(#[trigger] r@[i]) == scan_all(
                    self.pending(),
                    self.interest(),
                    self.mode(),
                )[i],
    {
        let ghost all = scan_all(self.pending(), self.interest(), self.mode());
        let mut iterator = self;
        let mut found: Vec<Result<Element, XmlError>> = Vec::new();
        let ghost mut views: Seq<Result<ElementView, XmlErrorView>> = Seq::empty();
        loop
            invariant
                iterator.interest() == self.interest(),
                iterator.mode() == self.mode(),
                all == scan_all(self.pending(), self.interest(), self.mode()),
                views + scan_all(iterator.pending(), iterator.interest(), iterator.mode()) == all,
                views.len() == found@.len(),
                forall|i: int| 0 <= i < views.len() ==> element_view(#[trigger] found@[i]) == views[i],
            decreases iterator.pending().len(),
        {
            let ghost events = iterator.pending();
            proof {
                lemma_scan_consumes(events, iterator.interest(), iterator.mode());
            }
            match iterator.next() {
                Some(item) => {
                    proof {
                        let rest = scan_all(
                            iterator.pending(),
                            iterator.interest(),
                            iterator.mode(),
                        );
                        assert(views.push(element_view(item)) + rest =~= views + (seq![
                            element_view(item),
                        ] + rest));
                        views = views.push(element_view(item));
                    }
                    found.push(item);
                },
                None => {
                    proof {
                        assert(views + Seq::empty() =~= views);
                    }
                    return found;
                },
            }
        }
    }

    /// The next element of interest, an error for input that the tokenizer
    /// rejected or that is damaged in a way that the mode does not allow, or
    /// `None` at the end of the input.
    pub fn next(&mut self) -> (r: Option<Result<Element, XmlError>>)
        ensures
            (item_view(r), final(self).pending()) == scan(
                old(self).pending(),
                old(self).interest(),
                old(self).mode(),
            ),
            final(self).interest() == old(self).interest(),
            final(self).mode() == old(self).mode(),
    {
        let ghost goal = scan(self.source.pending(), self.interest(), self.mode);
        loop
            invariant
                goal == scan(old(self).pending(), old(self).interest(), old(self).mode()),
                self.interest() == old(self).interest(),
                self.mode == old(self).mode,
                scan(self.source.pending(), self.interest(), self.mode) == goal,
            decreases self.source.pending().len() + 1,
        {
            let ghost events = self.source.pending();
            let ev = self.source.next_event();
            proof {
                if events.len() > 0 {
                    lemma_scan_step(events, self.interest(), self.mode);
                }
            }
            match ev {
                XmlEvent::Start(t) => {
                    if self.is_of_interest(t.qname.as_str()) {
                        return Some(Element::parse_start_in(&mut self.source, t, self.mode));
                    }
                },
                XmlEvent::Empty(t) => {
                    if self.is_of_interest(t.qname.as_str()) {
                        return Some(Ok(leaf(t)));
                    }
                },
                XmlEvent::Invalid => {
                    return Some(Err(XmlError::Malformed));
                },
                XmlEvent::Eof => {
                    return None;
                },
                _ => {},
            }
        }
    }
}

/// One step of [`fill`], spelled out.
pub proof fn lemma_fill_step(
    tag: StartTagView,
    events: Seq<XmlEventView>,
    children: Seq<ElementView>,
    text: Seq<char>,
    mode: Mode,
)
    requires
        events.len() > 0,
    ensures
        fill(tag, events, children, text, mode) == match events[0] {
            XmlEventView::Start(t) => {
                let (child, after) = fill(t, events.skip(1), Seq::empty(), Seq::empty(), mode);
                match child {
                    Ok(c) => fill(tag, after, children.push(c), text, mode),
                    Err(e) => (Err(e), after),
                }
            },
            XmlEventView::Empty(t) => fill(
                tag,
                events.skip(1),
                children.push(assemble(t, Seq::empty(), Seq::empty())),
                text,
                mode,
            ),
            XmlEventView::Text(s) => fill(tag, events.skip(1), children, text + s, mode),
            XmlEventView::End(name) => if name == tag.qname {
                (Ok(assemble(tag, children, text)), events.skip(1))
            } else {
                fill(tag, events.skip(1), children, text, mode)
            },
            XmlEventView::Eof => match mode {
                Mode::Lenient => (Ok(assemble(tag, children, text)), events),
                Mode::Strict => (Err(XmlErrorView::UnexpectedEof), events),
            },
            XmlEventView::Invalid => match mode {
                Mode::Lenient => fill(tag, events.skip(1), children, text, mode),
                Mode::Strict => (Err(XmlErrorView::Malformed), events.skip(1)),
            },
            XmlEventView::Other => fill(tag, events.skip(1), children, text, mode),
        },
{
    match events[0] {
        XmlEventView::Start(t) => {
            lemma_fill_shrinks(t, events.skip(1), Seq::empty(), Seq::empty(), mode);
        },
        _ => {},
    }
}

/// One step of [`scan`], spelled out.
pub proof fn lemma_scan_step(events: Seq<XmlEventView>, interest: Set<Seq<char>>, mode: Mode)
    requires
        events.len() > 0,
    ensures
        scan(events, interest, mode) == match events[0] {
            XmlEventView::Start(t) => if interest.contains(t.qname) {
                (Some(materialize(t, events.skip(1), mode).0), materialize(t, events.skip(1), mode).1)
            } else {
                scan(events.skip(1), interest, mode)
            },
            XmlEventView::Empty(t) => if interest.contains(t.qname) {
                (Some(Ok(assemble(t, Seq::empty(), Seq::empty()))), events.skip(1))
            } else {
                scan(events.skip(1), interest, mode)
            },
            XmlEventView::Invalid => (Some(Err(XmlErrorView::Malformed)), events.skip(1)),
            XmlEventView::Eof => (None, events),
            _ => scan(events.skip(1), interest, mode),
        },
{
}

/// Everything that the iterator yields from `events`, in order.
pub open spec fn scan_all(events: Seq<XmlEventView>, interest: Set<Seq<char>>, mode: Mode) -> Seq<
    Result<ElementView, XmlErrorView>,
>
    decreases events.len(),
{
    let (item, rest) = scan(events, interest, mode);
    match item {
        Some(found) => if rest.len() < events.len() {
            seq![found] + scan_all(rest, interest, mode)
        } else {
            arbitrary()
        },
        None => Seq::empty(),
    }
}

/// The iterator comes to an end: whenever it yields something it has consumed
/// at least one event, and it never leaves more events than there were.
pub proof fn lemma_scan_consumes(events: Seq<XmlEventView>, interest: Set<Seq<char>>, mode: Mode)
    ensures
        scan(events, interest, mode).1.len() <= events.len(),
        scan(events, interest, mode).0 is Some ==> scan(events, interest, mode).1.len()
            < events.len(),
    decreases events.len(),
{
    if events.len() > 0 {
        let rest = events.skip(1);
        match events[0] {
            XmlEventView::Start(t) => {
                if interest.contains(t.qname) {
                    lemma_fill_shrinks(t, rest, Seq::empty(), Seq::empty(), mode);
                } else {
                    lemma_scan_consumes(rest, interest, mode);
                }
            },
            XmlEventView::Empty(t) => {
                if !interest.contains(t.qname) {
                    lemma_scan_consumes(rest, interest, mode);
                }
            },
            XmlEventView::Invalid => {},
            XmlEventView::Eof => {},
            _ => {
                lemma_scan_consumes(rest, interest, mode);
            },
        }
    }
}

impl<'a> XmlIterator<XmlReader<'a>> {
    /// An iterator over the elements of the document `bytes` whose tag name as
    /// written is one of `tag_names`.
    pub fn from_bytes(tag_names: Vec<String>, bytes: &'a [u8]) -> (it: Self)
        ensures
            it.interest() == tag_names.deep_view().to_set(),
            it.pending() == document_events(bytes@),
            it.mode() == Mode::Lenient,
    {
        XmlIterator::new(tag_names, XmlReader::new(bytes))
    }
}

} // verus!

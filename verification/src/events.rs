//! XML events as plain values, and the sources that hand them out one by one.

use vstd::prelude::*;
use vstd::string::StrSliceExecFns;
use quick_xml::NsReader;
use quick_xml::events::Event;
use quick_xml::name::ResolveResult;
use crate::text::ascii_bytes;

verus! {

/// The number of the colon among the ASCII characters.
const COLON: u8 = 58;

/// The opening tag of an element.
#[derive(Debug, Clone, PartialEq, Eq, Default)]
pub struct StartTag {
    /// Tag name as written, with its prefix.
    pub qname: String,
    /// Tag name without its prefix.
    pub local_name: String,
    /// URI that the prefix is bound to, if it resolves.
    pub namespace: Option<String>,
    /// Attribute names and unescaped values in document order.
    pub attributes: Vec<(String, String)>,
}

/// Mathematical view of a [`StartTag`].
pub ghost struct StartTagView {
    pub qname: Seq<char>,
    pub local_name: Seq<char>,
    pub namespace: Option<Seq<char>>,
    pub attributes: Seq<(Seq<char>, Seq<char>)>,
}

impl DeepView for StartTag {
    type V = StartTagView;

    open spec fn deep_view(&self) -> StartTagView {
        StartTagView {
            qname: self.qname@,
            local_name: self.local_name@,
            namespace: self.namespace.deep_view(),
            attributes: self.attributes.deep_view(),
        }
    }
}

/// One step of a tokenized document.
#[derive(Debug, Clone, PartialEq, Eq)]
pub enum XmlEvent {
    /// An opening tag; the element's content follows.
    Start(StartTag),
    /// A self-closing tag: an element without content.
    Empty(StartTag),
    /// A closing tag, with the tag name as written.
    End(String),
    /// Character data, unescaped.
    Text(String),
    /// A comment, declaration, CDATA section, processing instruction or doctype.
    Other,
    /// A piece of input that the tokenizer rejected.
    Invalid,
    /// The end of the input.
    Eof,
}

/// Mathematical view of an [`XmlEvent`].
pub ghost enum XmlEventView {
    Start(StartTagView),
    Empty(StartTagView),
    End(Seq<char>),
    Text(Seq<char>),
    Other,
    Invalid,
    Eof,
}

impl DeepView for XmlEvent {
    type V = XmlEventView;

    open spec fn deep_view(&self) -> XmlEventView {
        match self {
            XmlEvent::Start(t) => XmlEventView::Start(t.deep_view()),
            XmlEvent::Empty(t) => XmlEventView::Empty(t.deep_view()),
            XmlEvent::End(n) => XmlEventView::End(n@),
            XmlEvent::Text(s) => XmlEventView::Text(s@),
            XmlEvent::Other => XmlEventView::Other,
            XmlEvent::Invalid => XmlEventView::Invalid,
            XmlEvent::Eof => XmlEventView::Eof,
        }
    }
}

/// What kind of event a tokenizer has handed out.
#[derive(Debug, Clone, Copy, PartialEq, Eq, Structural)]
pub enum EventKind {
    Start,
    Empty,
    End,
    Text,
    Other,
    Eof,
}

impl XmlEventView {
    /// The kind of a valid event.
    pub open spec fn kind(self) -> EventKind {
        match self {
            XmlEventView::Start(_) => EventKind::Start,
            XmlEventView::Empty(_) => EventKind::Empty,
            XmlEventView::End(_) => EventKind::End,
            XmlEventView::Text(_) => EventKind::Text,
            XmlEventView::Eof => EventKind::Eof,
            _ => EventKind::Other,
        }
    }

    /// The tag name as written, for the three events that carry one.
    pub open spec fn tag_name(self) -> Seq<char> {
        match self {
            XmlEventView::Start(t) => t.qname,
            XmlEventView::Empty(t) => t.qname,
            XmlEventView::End(n) => n,
            _ => Seq::empty(),
        }
    }

    /// The attributes of an opening or self-closing tag.
    pub open spec fn tag_attributes(self) -> Seq<(Seq<char>, Seq<char>)> {
        match self {
            XmlEventView::Start(t) => t.attributes,
            XmlEventView::Empty(t) => t.attributes,
            _ => Seq::empty(),
        }
    }

    /// The character data of a text event.
    pub open spec fn text(self) -> Seq<char> {
        match self {
            XmlEventView::Text(s) => s,
            _ => Seq::empty(),
        }
    }

    /// The event as the library reports it: tags get the resolved namespace
    /// and the local name that their written name gives; whatever is neither
    /// tag, text nor end of input counts as `Other`.
    pub open spec fn resolved(self, namespace: Option<Seq<char>>) -> XmlEventView {
        match self {
            XmlEventView::Start(t) => XmlEventView::Start(resolved_tag(t, namespace)),
            XmlEventView::Empty(t) => XmlEventView::Empty(resolved_tag(t, namespace)),
            XmlEventView::End(n) => XmlEventView::End(n),
            XmlEventView::Text(s) => XmlEventView::Text(s),
            XmlEventView::Eof => XmlEventView::Eof,
            _ => XmlEventView::Other,
        }
    }
}

/// A tag with the resolved namespace and the local name that its written name gives.
pub open spec fn resolved_tag(t: StartTagView, namespace: Option<Seq<char>>) -> StartTagView {
    StartTagView {
        qname: t.qname,
        local_name: local_part(t.qname),
        namespace,
        attributes: t.attributes,
    }
}

/// The position of the first colon in `name`, or its length if there is none.
pub open spec fn colon_index(name: Seq<char>) -> int
    decreases name.len(),
{
    if name.len() == 0 || name[0] == ':' {
        0
    } else {
        1 + colon_index(name.skip(1))
    }
}

/// A qualified name without its prefix: what follows the first colon, or the
/// whole name if it has no colon.
pub open spec fn local_part(name: Seq<char>) -> Seq<char> {
    if colon_index(name) < name.len() {
        name.skip(colon_index(name) + 1)
    } else {
        name
    }
}

/// Where no character before `i` is a colon, the first colon is at or after `i`.
pub proof fn lemma_colon_index(name: Seq<char>, i: int)
    requires
        0 <= i <= name.len(),
        forall|j: int| 0 <= j < i ==> name[j] != ':',
    ensures
        i < name.len() && name[i] == ':' ==> colon_index(name) == i,
        i == name.len() ==> colon_index(name) == name.len(),
    decreases i,
{
    if i > 0 {
        lemma_colon_index(name.skip(1), i - 1);
    }
}

/// Strip the prefix from a qualified name.
pub fn local_name_of(qname: &str) -> (r: String)
    ensures
        r@ == local_part(qname@),
{
    match ascii_bytes(qname) {
        Some(bytes) => {
            let n = bytes.len();
            let mut i: usize = 0;
            while i < n
                invariant
                    i <= n,
                    n == bytes@.len(),
                    n == qname@.len(),
                    qname.is_ascii(),
                    forall|k: int| 0 <= k < n ==> #[trigger] bytes@[k] as int == qname@[k] as int,
                    forall|j: int| 0 <= j < i ==> qname@[j] != ':',
                decreases n - i,
            {
                assert(bytes@[i as int] as int == qname@[i as int] as int);
                if bytes[i] == COLON {
                    proof {
                        lemma_colon_index(qname@, i as int);
                    }
                    return qname.substring_ascii(i + 1, n).to_owned();
                }
                i += 1;
            }
            proof {
                lemma_colon_index(qname@, n as int);
            }
            qname.to_owned()
        },
        None => local_name_by_characters(qname),
    }
}

/// Strip the prefix from a qualified name, character by character.
fn local_name_by_characters(qname: &str) -> (r: String)
    ensures
        r@ == local_part(qname@),
{
    let n = qname.unicode_len();
    let mut i: usize = 0;
    while i < n
        invariant
            i <= n,
            n == qname@.len(),
            forall|j: int| 0 <= j < i ==> qname@[j] != ':',
        decreases n - i,
    {
        if qname.get_char(i) == ':' {
            proof {
                lemma_colon_index(qname@, i as int);
            }
            return qname.substring_char(i + 1, n).to_owned();
        }
        i += 1;
    }
    proof {
        lemma_colon_index(qname@, n as int);
    }
    qname.to_owned()
}

/// `quick_xml::NsReader`: the tokenizer, which also keeps track of the
/// namespaces in scope. Nothing is known of what is inside it but what the
/// functions below state.
#[verifier::external_type_specification]
#[verifier::external_body]
#[verifier::reject_recursive_types(R)]
pub struct ExNsReader<R>(NsReader<R>);

/// `quick_xml::events::Event`: one event as the tokenizer hands it out, still
/// in the bytes of the document.
#[verifier::external_type_specification]
#[verifier::external_body]
pub struct ExEvent<'a>(Event<'a>);

/// The events that a fresh tokenizer yields for a document, up to the end of input.
pub uninterp spec fn document_events(bytes: Seq<u8>) -> Seq<XmlEventView>;

/// The events that a tokenizer has still to yield before the end of input.
pub uninterp spec fn remaining_events(reader: NsReader<&[u8]>) -> Seq<XmlEventView>;

/// What a tokenizer's event holds: its kind, the tag name as written, the
/// attributes and the text.
pub uninterp spec fn event_content(event: Event) -> XmlEventView;

/// `quick_xml::NsReader::from_reader` on a byte slice: a tokenizer at the start of
/// the document, with the default configuration.
#[verifier::external_body]
fn open_reader<'a>(bytes: &'a [u8]) -> (reader: NsReader<&'a [u8]>)
    ensures
        remaining_events(reader) == document_events(bytes@),
{
    NsReader::from_reader(bytes)
}

/// `quick_xml::NsReader::read_resolved_event`: hands out the first event that
/// remains, with the namespace that its tag name is bound to, and keeps the rest.
/// Each call consumes input or reports the end of it, so the events that remain
/// are finitely many, and from the end of input on every call returns `Eof`.
/// An error stands for one rejected piece of input and comes back as `None`.
#[verifier::external_body]
fn read_raw<'a>(reader: &mut NsReader<&'a [u8]>) -> (r: (Option<String>, Option<Event<'a>>))
    ensures
        remaining_events(*old(reader)).len() == 0 ==> r.1 is Some && event_content(r.1->0) is Eof
            && remaining_events(*final(reader)).len() == 0,
        remaining_events(*old(reader)).len() > 0 ==> remaining_events(*final(reader))
            == remaining_events(*old(reader)).skip(1) && remaining_events(*old(reader))[0]
            == raw_view(r) && !(raw_view(r) is Eof),
{
    match reader.read_resolved_event() {
        Ok((ResolveResult::Bound(n), e)) => (Some(String::from_utf8_lossy(n.0).into_owned()), Some(e)),
        Ok((_, e)) => (None, Some(e)),
        Err(_) => (None, None),
    }
}

/// The event that an outcome of reading stands for.
pub open spec fn raw_view(r: (Option<String>, Option<Event>)) -> XmlEventView {
    match r.1 {
        Some(e) => event_content(e).resolved(r.0.deep_view()),
        None => XmlEventView::Invalid,
    }
}

/// Tells the variants of `quick_xml::events::Event` apart.
#[verifier::external_body]
fn event_kind(event: &Event) -> (k: EventKind)
    ensures
        k == event_content(*event).kind(),
{
    match event {
        Event::Start(_) => EventKind::Start,
        Event::Empty(_) => EventKind::Empty,
        Event::End(_) => EventKind::End,
        Event::Text(_) => EventKind::Text,
        Event::Eof => EventKind::Eof,
        _ => EventKind::Other,
    }
}

/// `BytesStart::name` and `BytesEnd::name`: the tag name as written, converted
/// as lossy UTF-8; empty for an event without a tag.
#[verifier::external_body]
fn event_tag_name(event: &Event) -> (name: String)
    ensures
        name@ == event_content(*event).tag_name(),
{
    match event {
        Event::Start(t) | Event::Empty(t) => String::from_utf8_lossy(t.name().0).into_owned(),
        Event::End(t) => String::from_utf8_lossy(t.name().0).into_owned(),
        _ => String::new(),
    }
}

/// `BytesStart::attributes` with `Attribute::unescape_value`: the attributes that
/// parse, in document order, names converted as lossy UTF-8, and a value that
/// cannot be unescaped left empty; none for an event that is no opening tag.
#[verifier::external_body]
fn event_attributes(event: &Event) -> (attributes: Vec<(String, String)>)
    ensures
        attributes.deep_view() == event_content(*event).tag_attributes(),
{
    match event {
        Event::Start(t) | Event::Empty(t) => t.attributes().filter_map(|a| a.ok()).map(
            |a| (String::from_utf8_lossy(a.key.0).into_owned(), a.unescape_value().unwrap_or_default().into_owned()),
        ).collect(),
        _ => Vec::new(),
    }
}

/// `BytesText::unescape`: the character data of a text event, decoded and
/// unescaped, or empty where it cannot be; empty for any other event.
#[verifier::external_body]
fn event_text(event: &Event) -> (text: String)
    ensures
        text@ == event_content(*event).text(),
{
    match event {
        Event::Text(t) => t.unescape().unwrap_or_default().into_owned(),
        _ => String::new(),
    }
}

/// A place that hands out the events of a document in order.
pub trait EventSource {
    /// The events still to come before the end of input; none of them is `Eof`.
    spec fn pending(&self) -> Seq<XmlEventView>;

    /// Hand out the next event, or `Eof` once none is left.
    fn next_event(&mut self) -> (ev: XmlEvent)
        ensures
            old(self).pending().len() == 0 ==> ev is Eof && final(self).pending().len() == 0,
            old(self).pending().len() > 0 ==> !(ev is Eof) && ev.deep_view() == old(self).pending()[0]
                && final(self).pending() == old(self).pending().skip(1),
    ;
}

/// A tokenizer over a document held in memory.
pub struct XmlReader<'a> {
    reader: NsReader<&'a [u8]>,
}

impl<'a> XmlReader<'a> {
    /// A tokenizer at the start of `bytes`.
    pub fn new(bytes: &'a [u8]) -> (r: Self)
        ensures
            r.pending() == document_events(bytes@),
    {
        XmlReader { reader: open_reader(bytes) }
    }

    fn tag_of(event: &Event, namespace: Option<String>) -> (tag: StartTag)
        ensures
            tag.deep_view() == resolved_tag(
                StartTagView {
                    qname: event_content(*event).tag_name(),
                    local_name: Seq::empty(),
                    namespace: None,
                    attributes: event_content(*event).tag_attributes(),
                },
                namespace.deep_view(),
            ),
    {
        let qname = event_tag_name(event);
        let local_name = local_name_of(qname.as_str());
        StartTag { qname, local_name, namespace, attributes: event_attributes(event) }
    }
}

impl<'a> EventSource for XmlReader<'a> {
    closed spec fn pending(&self) -> Seq<XmlEventView> {
        remaining_events(self.reader)
    }

    fn next_event(&mut self) -> (ev: XmlEvent) {
        let raw = read_raw(&mut self.reader);
        let ev = match raw.1 {
            None => XmlEvent::Invalid,
            Some(event) => match event_kind(&event) {
                EventKind::Start => XmlEvent::Start(Self::tag_of(&event, raw.0)),
                EventKind::Empty => XmlEvent::Empty(Self::tag_of(&event, raw.0)),
                EventKind::End => XmlEvent::End(event_tag_name(&event)),
                EventKind::Text => XmlEvent::Text(event_text(&event)),
                EventKind::Other => XmlEvent::Other,
                EventKind::Eof => XmlEvent::Eof,
            },
        };
        ev
    }
}

/// The events before the first `Eof`.
pub open spec fn until_eof(events: Seq<XmlEventView>) -> Seq<XmlEventView>
    decreases events.len(),
{
    if events.len() == 0 || events[0] is Eof {
        Seq::empty()
    } else {
        seq![events[0]] + until_eof(events.skip(1))
    }
}

/// Events that are handed out from memory, in the order in which they were given.
pub struct EventQueue {
    /// The events still to come, the next one last.
    stack: Vec<XmlEvent>,
}

impl EventQueue {
    /// A queue that hands out `events` in order and ends at the first `Eof`
    /// among them, or after the last.
    pub fn new(events: Vec<XmlEvent>) -> (q: Self)
        ensures
            q.pending() == until_eof(events.deep_view()),
    {
        let ghost all = events.deep_view();
        let mut events = events;
        let mut stack: Vec<XmlEvent> = Vec::new();
        while events.len() > 0
            invariant
                all =~= events.deep_view() + stack.deep_view().reverse(),
            decreases events.len(),
        {
            let ghost before = events.deep_view();
            let ghost done = stack.deep_view();
            let e = events.pop().unwrap();
            stack.push(e);
            proof {
                assert(events.deep_view() =~= before.drop_last());
                assert(stack.deep_view() =~= done.push(e.deep_view()));
                assert(stack.deep_view().reverse() =~= seq![e.deep_view()] + done.reverse());
            }
        }
        proof {
            assert(all =~= stack.deep_view().reverse());
        }
        EventQueue { stack }
    }
}

impl EventSource for EventQueue {
    closed spec fn pending(&self) -> Seq<XmlEventView> {
        until_eof(self.stack.deep_view().reverse())
    }

    fn next_event(&mut self) -> (ev: XmlEvent) {
        let ghost before = self.stack.deep_view();
        let n = self.stack.len();
        if n == 0 {
            return XmlEvent::Eof;
        }
        assert(before.reverse()[0] == before[n - 1]);
        match &self.stack[n - 1] {
            XmlEvent::Eof => {
                return XmlEvent::Eof;
            },
            _ => {},
        }
        let ev = self.stack.pop().unwrap();
        proof {
            assert(self.stack.deep_view() =~= before.drop_last());
            assert(before.reverse().skip(1) =~= before.drop_last().reverse());
            assert(until_eof(before.reverse()) == seq![before.reverse()[0]] + until_eof(
                before.reverse().skip(1),
            ));
            assert(old(self).pending().skip(1) =~= until_eof(before.reverse().skip(1)));
        }
        ev
    }
}

} // verus!

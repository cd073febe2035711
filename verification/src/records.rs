//! The stream of reference data records of a document.

use vstd::prelude::*;
use crate::error::{XmlError, XmlErrorView};
use crate::events::{document_events, EventSource, XmlEventView, XmlReader};
use crate::from_xml::FromXml;
use crate::iter_xml::{scan, Mode, XmlIterator};
use crate::model::{ReferenceData, ReferenceDataView};

verus! {

/// The view of what the stream of records yields.
pub open spec fn record_view(item: Option<Result<ReferenceData, XmlError>>) -> Option<
    Result<ReferenceDataView, XmlErrorView>,
> {
    match item {
        Some(Ok(data)) => Some(Ok(data.deep_view())),
        Some(Err(e)) => Some(Err(e.deep_view())),
        None => None,
    }
}

/// The record that the next element of interest in `events` decodes to, or the
/// error that the tokenizer or the decoder meets first, and the events that
/// remain; no record at the end of the events.
pub open spec fn next_record(events: Seq<XmlEventView>, interest: Set<Seq<char>>, mode: Mode) -> (
    Option<Result<ReferenceDataView, XmlErrorView>>,
    Seq<XmlEventView>,
) {
    let found = scan(events, interest, mode);
    match found.0 {
        Some(Ok(elem)) => (Some(ReferenceData::decode(elem)), found.1),
        Some(Err(e)) => (Some(Err(e)), found.1),
        None => (None, found.1),
    }
}

/// Yields the reference data records of a document one by one, each decoded
/// from a `RefData` element.
pub struct IterRefData<S: EventSource> {
    xml_iterator: XmlIterator<S>,
}

impl<S: EventSource> IterRefData<S> {
    /// The events that the stream has still to look at.
    pub closed spec fn pending(&self) -> Seq<XmlEventView> {
        self.xml_iterator.pending()
    }

    /// The tag names of the elements that the stream decodes.
    pub closed spec fn interest(&self) -> Set<Seq<char>> {
        self.xml_iterator.interest()
    }

    /// How the stream takes damaged input inside a record.
    pub closed spec fn mode(&self) -> Mode {
        self.xml_iterator.mode()
    }

    /// The stream of the records that the events of `source` hold; inside a
    /// record it is lenient with damaged input.
    pub fn new(source: S) -> (it: Self)
        ensures
            it.interest() == set!["RefData"@],
            it.pending() == source.pending(),
            it.mode() == Mode::Lenient,
    {
        Self::with_mode(source, Mode::Lenient)
    }

    /// The stream of the records that the events of `source` hold, which
    /// takes damaged input inside a record as `mode` says.
    pub fn with_mode(source: S, mode: Mode) -> (it: Self)
        ensures
            it.interest() == set!["RefData"@],
            it.pending() == source.pending(),
            it.mode() == mode,
    {
        let mut tag_names: Vec<String> = Vec::new();
        tag_names.push("RefData".to_owned());
        proof {
            let names = tag_names.deep_view();
            assert(names[0] == "RefData"@);
            assert(names.to_set() =~= set!["RefData"@]) by {
                assert forall|n: Seq<char>| names.to_set().contains(n) <==> set!["RefData"@].contains(
                    n,
                ) by {
                    if names.contains(n) {
                        let i = choose|i: int| 0 <= i < names.len() && names[i] == n;
                    }
                }
            }
        }
        IterRefData { xml_iterator: XmlIterator::with_mode(tag_names, source, mode) }
    }

    /// The next record, the error that kept it from being decoded, or `None`
    /// at the end of the document.
    pub fn next(&mut self) -> (r: Option<Result<ReferenceData, XmlError>>)
        ensures
            (record_view(r), final(self).pending()) == next_record(
                old(self).pending(),
                old(self).interest(),
                old(self).mode(),
            ),
            final(self).interest() == old(self).interest(),
            final(self).mode() == old(self).mode(),
    {
        match self.xml_iterator.next() {
            Some(Ok(elem)) => Some(ReferenceData::from_xml(&elem)),
            Some(Err(e)) => Some(Err(e)),
            None => None,
        }
    }
}

impl<'a> IterRefData<XmlReader<'a>> {
    /// The stream of the records of the document `bytes`.
    pub fn from_bytes(bytes: &'a [u8]) -> (it: Self)
        ensures
            it.interest() == set!["RefData"@],
            it.pending() == document_events(bytes@),
            it.mode() == Mode::Lenient,
    {
        IterRefData::new(XmlReader::new(bytes))
    }
}

} // verus!

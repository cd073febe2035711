//! Documents as trees: the events that a tree is written as, and the law that
//! materializing those events gives the tree back.

use vstd::prelude::*;
use crate::element::ElementView;
use crate::error::XmlErrorView;
use crate::events::{StartTagView, XmlEventView};
use crate::iter_xml::{
    assemble, fill, lemma_fill_step, lemma_scan_step, materialize, scan, scan_all, Mode,
};

verus! {

/// An element as it is written in a document: its opening tag, its own text and
/// its child elements in order.
pub ghost struct XmlNode {
    pub tag: StartTagView,
    pub text: Seq<char>,
    pub children: Seq<XmlNode>,
}

impl XmlNode {
    /// The element that the node stands for.
    pub open spec fn element(self) -> ElementView
        decreases self, self.children.len() + 1,
    {
        assemble(self.tag, self.elements_from(0), self.text)
    }

    /// The elements of the children from index `from` on.
    pub open spec fn elements_from(self, from: nat) -> Seq<ElementView>
        decreases self, self.children.len() - from,
    {
        if from < self.children.len() {
            seq![self.children[from as int].element()] + self.elements_from(from + 1)
        } else {
            Seq::empty()
        }
    }

    /// The events that the node is written as: the opening tag, then the content.
    pub open spec fn events(self) -> Seq<XmlEventView>
        decreases self, self.children.len() + 2,
    {
        seq![XmlEventView::Start(self.tag)] + self.content()
    }

    /// The events after the opening tag: the text if there is any, the children
    /// in order, and the closing tag.
    pub open spec fn content(self) -> Seq<XmlEventView>
        decreases self, self.children.len() + 1,
    {
        self.text_events() + self.events_from(0) + seq![XmlEventView::End(self.tag.qname)]
    }

    /// The node's text as events: one text event, or none where the text is empty.
    pub open spec fn text_events(self) -> Seq<XmlEventView> {
        if self.text.len() > 0 {
            seq![XmlEventView::Text(self.text)]
        } else {
            Seq::empty()
        }
    }

    /// The events of the children from index `from` on.
    pub open spec fn events_from(self, from: nat) -> Seq<XmlEventView>
        decreases self, self.children.len() - from,
    {
        if from < self.children.len() {
            self.children[from as int].events() + self.events_from(from + 1)
        } else {
            Seq::empty()
        }
    }
}

/// Materializing the events that a tree is written as gives the tree back and
/// leaves what follows it untouched, in either mode: the children stand in
/// document order, and the text of an element holds none of the text of its
/// descendants.
pub proof fn lemma_materialize_written(node: XmlNode, rest: Seq<XmlEventView>, mode: Mode)
    ensures
        materialize(node.tag, node.content() + rest, mode) == (
            Ok::<ElementView, XmlErrorView>(node.element()),
            rest,
        ),
    decreases node, node.children.len() + 1,
{
    let close = seq![XmlEventView::End(node.tag.qname)];
    let tail = node.events_from(0) + close + rest;
    assert(node.content() + rest =~= node.text_events() + tail);
    if node.text.len() > 0 {
        let events = node.text_events() + tail;
        lemma_fill_step(node.tag, events, Seq::empty(), Seq::empty(), mode);
        assert(events.skip(1) =~= tail);
        assert(Seq::<char>::empty() + node.text =~= node.text);
        lemma_fill_children(node, 0, Seq::empty(), node.text, rest, mode);
    } else {
        assert(node.text_events() + tail =~= tail);
        assert(node.text =~= Seq::<char>::empty());
        lemma_fill_children(node, 0, Seq::empty(), Seq::empty(), rest, mode);
    }
    assert(Seq::<ElementView>::empty() + node.elements_from(0) =~= node.elements_from(0));
}

/// Reading on from the child with index `from`, with `children` already read,
/// ends at the node's closing tag with the remaining children added in order.
pub proof fn lemma_fill_children(
    node: XmlNode,
    from: nat,
    children: Seq<ElementView>,
    text: Seq<char>,
    rest: Seq<XmlEventView>,
    mode: Mode,
)
    requires
        from <= node.children.len(),
    ensures
        fill(
            node.tag,
            node.events_from(from) + seq![XmlEventView::End(node.tag.qname)] + rest,
            children,
            text,
            mode,
        ) == (
            Ok::<ElementView, XmlErrorView>(
                assemble(node.tag, children + node.elements_from(from), text),
            ),
            rest,
        ),
    decreases node, node.children.len() - from,
{
    let close = seq![XmlEventView::End(node.tag.qname)];
    let events = node.events_from(from) + close + rest;
    if from < node.children.len() {
        let child = node.children[from as int];
        let after = node.events_from(from + 1) + close + rest;
        assert(node.events_from(from) == child.events() + node.events_from(from + 1));
        assert(events =~= seq![XmlEventView::Start(child.tag)] + (child.content() + after));
        lemma_fill_step(node.tag, events, children, text, mode);
        assert(events.skip(1) =~= child.content() + after);
        lemma_materialize_written(child, after, mode);
        lemma_fill_children(node, from + 1, children.push(child.element()), text, rest, mode);
        assert(node.elements_from(from) == seq![child.element()] + node.elements_from(from + 1));
        assert(children.push(child.element()) + node.elements_from(from + 1) =~= children
            + node.elements_from(from));
    } else {
        assert(node.events_from(from) =~= Seq::<XmlEventView>::empty());
        assert(events =~= close + rest);
        lemma_fill_step(node.tag, events, children, text, mode);
        assert(events.skip(1) =~= rest);
        assert(node.elements_from(from) =~= Seq::<ElementView>::empty());
        assert(children + node.elements_from(from) =~= children);
    }
}

/// Whether the iterator passes over `event`: it is no tag of interest, no
/// rejected input and not the end of input.
pub open spec fn passed_over(event: XmlEventView, interest: Set<Seq<char>>) -> bool {
    match event {
        XmlEventView::Start(t) => !interest.contains(t.qname),
        XmlEventView::Empty(t) => !interest.contains(t.qname),
        XmlEventView::Invalid => false,
        XmlEventView::Eof => false,
        _ => true,
    }
}

/// Matching does not depend on depth: events that the iterator passes over,
/// such as the opening tags of enclosing elements that are not of interest,
/// change nothing in what it yields from the events after them.
pub proof fn lemma_scan_passes_over(
    before: Seq<XmlEventView>,
    events: Seq<XmlEventView>,
    interest: Set<Seq<char>>,
    mode: Mode,
)
    requires
        forall|i: int| 0 <= i < before.len() ==> passed_over(#[trigger] before[i], interest),
    ensures
        scan(before + events, interest, mode) == scan(events, interest, mode),
    decreases before.len(),
{
    if before.len() > 0 {
        let all = before + events;
        assert(all[0] == before[0]);
        assert(all.skip(1) =~= before.skip(1) + events);
        lemma_scan_step(all, interest, mode);
        assert forall|i: int| 0 <= i < before.skip(1).len() implies passed_over(
            #[trigger] before.skip(1)[i],
            interest,
        ) by {
            assert(before.skip(1)[i] == before[i + 1]);
        }
        lemma_scan_passes_over(before.skip(1), events, interest, mode);
    } else {
        assert(before + events =~= events);
    }
}

/// A written tree whose tag is of interest is yielded whole, wherever it stands
/// among events that are passed over.
pub proof fn lemma_scan_written(
    before: Seq<XmlEventView>,
    node: XmlNode,
    rest: Seq<XmlEventView>,
    interest: Set<Seq<char>>,
    mode: Mode,
)
    requires
        forall|i: int| 0 <= i < before.len() ==> passed_over(#[trigger] before[i], interest),
        interest.contains(node.tag.qname),
    ensures
        scan(before + node.events() + rest, interest, mode) == (
            Some(Ok::<ElementView, XmlErrorView>(node.element())),
            rest,
        ),
{
    let events = node.events() + rest;
    assert(before + node.events() + rest =~= before + events);
    lemma_scan_passes_over(before, events, interest, mode);
    lemma_scan_step(events, interest, mode);
    assert(events.skip(1) =~= node.content() + rest);
    lemma_materialize_written(node, rest, mode);
}

/// An element of interest as it stands in a document: after some events that
/// the iterator passes over.
pub ghost struct Placed {
    pub before: Seq<XmlEventView>,
    pub node: XmlNode,
}

/// The events of the placed elements from index `from` on, and after them the
/// events `after`.
pub open spec fn placed_events(placed: Seq<Placed>, from: nat, after: Seq<XmlEventView>) -> Seq<
    XmlEventView,
>
    decreases placed.len() - from,
{
    if from < placed.len() {
        placed[from as int].before + placed[from as int].node.events() + placed_events(
            placed,
            from + 1,
            after,
        )
    } else {
        after
    }
}

/// The elements that the placed elements from index `from` on stand for.
pub open spec fn placed_elements(placed: Seq<Placed>, from: nat) -> Seq<
    Result<ElementView, XmlErrorView>,
>
    decreases placed.len() - from,
{
    if from < placed.len() {
        seq![Ok(placed[from as int].node.element())] + placed_elements(placed, from + 1)
    } else {
        Seq::empty()
    }
}

/// A document that holds a number of elements of interest, at whatever depth
/// and with whatever the iterator passes over around them, yields exactly
/// these elements, in document order and without an error.
pub proof fn lemma_scan_all_placed(
    placed: Seq<Placed>,
    from: nat,
    after: Seq<XmlEventView>,
    interest: Set<Seq<char>>,
    mode: Mode,
)
    requires
        forall|k: int|
            0 <= k < placed.len() ==> interest.contains((#[trigger] placed[k]).node.tag.qname),
        forall|k: int, i: int|
            0 <= k < placed.len() && 0 <= i < placed[k].before.len() ==> passed_over(
                #[trigger] placed[k].before[i],
                interest,
            ),
        forall|i: int| 0 <= i < after.len() ==> passed_over(#[trigger] after[i], interest),
    ensures
        scan_all(placed_events(placed, from, after), interest, mode) == placed_elements(
            placed,
            from,
        ),
        placed_elements(placed, from).len() == if from <= placed.len() {
            placed.len() - from
        } else {
            0
        },
    decreases placed.len() - from,
{
    if from < placed.len() {
        let here = placed[from as int];
        let rest = placed_events(placed, from + 1, after);
        let events = placed_events(placed, from, after);
        assert(events == here.before + here.node.events() + rest);
        assert(interest.contains(here.node.tag.qname));
        assert forall|i: int| 0 <= i < here.before.len() implies passed_over(
            #[trigger] here.before[i],
            interest,
        ) by {
            assert(passed_over(placed[from as int].before[i], interest));
        }
        lemma_scan_written(here.before, here.node, rest, interest, mode);
        lemma_scan_all_placed(placed, from + 1, after, interest, mode);
        assert(here.node.events().len() > 0);
        assert(rest.len() < events.len());
    } else {
        lemma_scan_passes_over(after, Seq::empty(), interest, mode);
        assert(after + Seq::<XmlEventView>::empty() =~= after);
    }
}

} // verus!

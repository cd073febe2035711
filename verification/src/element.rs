//! The element tree that the decoder materializes, and lookups on it.

use vstd::prelude::*;
use crate::error::{XmlError, XmlErrorView, result_view};
use crate::text::str_eq;

verus! {

/// One XML element with everything below it.
#[derive(Debug, PartialEq, Eq, Default)]
pub struct Element {
    /// Tag name without its namespace prefix.
    pub local_name: String,
    /// URI that the tag's prefix is bound to, if it resolves.
    pub namespace: Option<String>,
    /// Attribute names and unescaped values in document order; where a name
    /// occurs twice the later value counts.
    pub attributes: Vec<(String, String)>,
    /// Child elements in document order.
    pub children: Vec<Element>,
    /// The element's own text nodes joined together; text of descendants is not part of it.
    pub text: String,
}

/// Mathematical view of an [`Element`].
pub ghost struct ElementView {
    pub name: Seq<char>,
    pub namespace: Option<Seq<char>>,
    pub attributes: Map<Seq<char>, Seq<char>>,
    pub children: Seq<ElementView>,
    pub text: Seq<char>,
}

/// The mapping that a list of attributes stands for: later entries replace earlier
/// ones of the same name.
pub open spec fn attribute_map(pairs: Seq<(Seq<char>, Seq<char>)>) -> Map<Seq<char>, Seq<char>>
    decreases pairs.len(),
{
    if pairs.len() == 0 {
        Map::empty()
    } else {
        attribute_map(pairs.drop_last()).insert(pairs.last().0, pairs.last().1)
    }
}

/// The first element of `kids` that is named `name`.
pub open spec fn first_named(kids: Seq<ElementView>, name: Seq<char>) -> Option<ElementView>
    decreases kids.len(),
{
    if kids.len() == 0 {
        None
    } else if kids[0].name == name {
        Some(kids[0])
    } else {
        first_named(kids.skip(1), name)
    }
}

impl ElementView {
    /// The first direct child named `name`.
    pub open spec fn find_child(self, name: Seq<char>) -> Option<ElementView> {
        first_named(self.children, name)
    }

    /// The first direct child named `name`, or the error for a missing element.
    pub open spec fn get_child(self, name: Seq<char>) -> Result<ElementView, XmlErrorView> {
        match self.find_child(name) {
            Some(c) => Ok(c),
            None => Err(XmlErrorView::ElementNotFound),
        }
    }

    /// The text of the first direct child named `name`, or the error for a
    /// missing element.
    pub open spec fn child_text(self, name: Seq<char>) -> Result<Seq<char>, XmlErrorView> {
        match self.find_child(name) {
            Some(c) => Ok(c.text),
            None => Err(XmlErrorView::ElementNotFound),
        }
    }

    /// The first direct child.
    pub open spec fn find_first_child(self) -> Option<ElementView> {
        if self.children.len() > 0 {
            Some(self.children[0])
        } else {
            None
        }
    }

    /// The first direct child, or the error for a missing element.
    pub open spec fn get_first_child(self) -> Result<ElementView, XmlErrorView> {
        match self.find_first_child() {
            Some(c) => Ok(c),
            None => Err(XmlErrorView::ElementNotFound),
        }
    }

    /// The value of attribute `key`.
    pub open spec fn find_attr(self, key: Seq<char>) -> Option<Seq<char>> {
        if self.attributes.contains_key(key) {
            Some(self.attributes[key])
        } else {
            None
        }
    }

    /// The value of attribute `key`, or the error for a missing attribute.
    pub open spec fn get_attr(self, key: Seq<char>) -> Result<Seq<char>, XmlErrorView> {
        match self.find_attr(key) {
            Some(v) => Ok(v),
            None => Err(XmlErrorView::AttributeNotFound),
        }
    }

    /// The descendant that a search for `name` reaches.
    ///
    /// With `left_only` the search follows first children downwards and stops at
    /// the first one named `name`. Without it the search goes through the
    /// children in document order and continues below each of them in the same
    /// way; on that way it compares no name, so that it comes back with nothing
    /// ([`lemma_search_finds_nothing`]).
    pub open spec fn find_descendant(self, name: Seq<char>, left_only: bool) -> Option<ElementView>
        decreases self, 1int, 0int,
    {
        if left_only {
            if self.children.len() == 0 {
                None
            } else if self.children[0].name == name {
                Some(self.children[0])
            } else {
                self.children[0].find_descendant(name, true)
            }
        } else {
            self.search_below(name, 0)
        }
    }

    /// The result of the search without `left_only` over the children from index `from` on.
    pub open spec fn search_below(self, name: Seq<char>, from: int) -> Option<ElementView>
        decreases self, 0int, self.children.len() - from,
    {
        if 0 <= from < self.children.len() {
            match self.children[from].find_descendant(name, false) {
                Some(c) => Some(c),
                None => self.search_below(name, from + 1),
            }
        } else {
            None
        }
    }
}

impl Element {
    /// The views of the first `n` children, in order.
    pub open spec fn child_views(&self, n: nat) -> Seq<ElementView>
        decreases self, n,
    {
        if 0 < n <= self.children@.len() {
            self.child_views((n - 1) as nat).push(self.children@[n - 1].deep_view())
        } else {
            Seq::empty()
        }
    }
}

impl DeepView for Element {
    type V = ElementView;

    open spec fn deep_view(&self) -> ElementView
        decreases self, self.children@.len() + 1,
    {
        ElementView {
            name: self.local_name@,
            namespace: self.namespace.deep_view(),
            attributes: attribute_map(self.attributes.deep_view()),
            children: self.child_views(self.children@.len()),
            text: self.text@,
        }
    }
}

/// A search through the children from index `from` on, which compares no
/// name, finds nothing.
pub proof fn lemma_search_below_all_children(elem: ElementView, name: Seq<char>, from: int)
    ensures
        elem.search_below(name, from) is None,
    decreases elem, elem.children.len() - from,
{
    if 0 <= from < elem.children.len() {
        let child = elem.children[from];
        lemma_search_below_all_children(child, name, 0);
        lemma_search_below_all_children(elem, name, from + 1);
        assert(child.find_descendant(name, false) == child.search_below(name, 0));
        assert(elem.search_below(name, from) == match child.find_descendant(name, false) {
            Some(c) => Some(c),
            None => elem.search_below(name, from + 1),
        });
    }
}

/// A search without `left_only` finds nothing.
pub proof fn lemma_search_finds_nothing(elem: ElementView, name: Seq<char>)
    ensures
        elem.find_descendant(name, false) is None,
{
    lemma_search_below_all_children(elem, name, 0);
}

/// A child named `name` before which no child has that name is the first one so named.
pub proof fn lemma_first_named_at(kids: Seq<ElementView>, name: Seq<char>, i: int)
    requires
        0 <= i < kids.len(),
        kids[i].name == name,
        forall|j: int| 0 <= j < i ==> kids[j].name != name,
    ensures
        first_named(kids, name) == Some(kids[i]),
    decreases kids.len(),
{
    if i > 0 {
        lemma_first_named_at(kids.skip(1), name, i - 1);
    }
}

/// Where no child is named `name`, the lookup finds nothing.
pub proof fn lemma_first_named_absent(kids: Seq<ElementView>, name: Seq<char>)
    requires
        forall|j: int| 0 <= j < kids.len() ==> kids[j].name != name,
    ensures
        first_named(kids, name) is None,
    decreases kids.len(),
{
    if kids.len() > 0 {
        lemma_first_named_absent(kids.skip(1), name);
    }
}

/// The last entry for `key` gives its value in the attribute mapping.
pub proof fn lemma_attribute_last(pairs: Seq<(Seq<char>, Seq<char>)>, key: Seq<char>, i: int)
    requires
        0 <= i < pairs.len(),
        pairs[i].0 == key,
        forall|j: int| i < j < pairs.len() ==> pairs[j].0 != key,
    ensures
        attribute_map(pairs).contains_key(key),
        attribute_map(pairs)[key] == pairs[i].1,
    decreases pairs.len(),
{
    if i < pairs.len() - 1 {
        lemma_attribute_last(pairs.drop_last(), key, i);
    }
}

/// A name that no entry carries is not in the attribute mapping.
pub proof fn lemma_attribute_absent(pairs: Seq<(Seq<char>, Seq<char>)>, key: Seq<char>)
    requires
        forall|j: int| 0 <= j < pairs.len() ==> pairs[j].0 != key,
    ensures
        !attribute_map(pairs).contains_key(key),
    decreases pairs.len(),
{
    if pairs.len() > 0 {
        lemma_attribute_absent(pairs.drop_last(), key);
    }
}

impl Element {
    /// The view of an element holds the views of its parts, child by child.
    pub proof fn lemma_view(&self)
        ensures
            self.deep_view().name == self.local_name@,
            self.deep_view().namespace == self.namespace.deep_view(),
            self.deep_view().attributes == attribute_map(self.attributes.deep_view()),
            self.deep_view().text == self.text@,
            self.deep_view().children.len() == self.children@.len(),
            forall|i: int|
                0 <= i < self.children@.len() ==> #[trigger] self.deep_view().children[i]
                    == self.children@[i].deep_view(),
    {
        self.lemma_child_views(self.children@.len());
    }

    proof fn lemma_child_views(&self, n: nat)
        requires
            n <= self.children@.len(),
        ensures
            self.child_views(n).len() == n,
            forall|i: int|
                0 <= i < n ==> #[trigger] self.child_views(n)[i] == self.children@[i].deep_view(),
        decreases n,
    {
        if n > 0 {
            self.lemma_child_views((n - 1) as nat);
            assert(self.child_views(n) == self.child_views((n - 1) as nat).push(
                self.children@[n - 1].deep_view(),
            ));
        }
    }

    /// The element's own text.
    pub fn text(&self) -> (r: &str)
        ensures
            r@ == self.deep_view().text,
    {
        proof {
            self.lemma_view();
        }
        self.text.as_str()
    }

    /// The element's tag name without its prefix.
    pub fn name(&self) -> (r: &str)
        ensures
            r@ == self.deep_view().name,
    {
        proof {
            self.lemma_view();
        }
        self.local_name.as_str()
    }

    /// The text of the first immediate child with the given tag name, or an
    /// error if no such child is present.
    pub fn child_text(&self, tag_name: &str) -> (r: Result<&str, XmlError>)
        ensures
            result_view(r) == self.deep_view().child_text(tag_name@),
    {
        match self.find_child(tag_name) {
            Some(c) => Ok(c.text()),
            None => Err(XmlError::ElementNotFound),
        }
    }

    /// Search for the first immediate child with the given tag name.
    pub fn find_child(&self, tag_name: &str) -> (r: Option<&Element>)
        ensures
            r.deep_view() == self.deep_view().find_child(tag_name@),
    {
        let ghost kids = self.deep_view().children;
        proof {
            self.lemma_view();
        }
        let mut i: usize = 0;
        while i < self.children.len()
            invariant
                i <= self.children.len(),
                kids == self.deep_view().children,
                kids.len() == self.children@.len(),
                forall|j: int|
                    0 <= j < kids.len() ==> #[trigger] kids[j] == self.children@[j].deep_view(),
                forall|j: int| 0 <= j < i ==> kids[j].name != tag_name@,
            decreases self.children.len() - i,
        {
            proof {
                self.children[i as int].lemma_view();
            }
            if str_eq(self.children[i].local_name.as_str(), tag_name) {
                proof {
                    lemma_first_named_at(kids, tag_name@, i as int);
                }
                return Some(&self.children[i]);
            }
            i += 1;
        }
        proof {
            lemma_first_named_absent(kids, tag_name@);
        }
        None
    }

    /// Return the first immediate child with the given tag name, or an error if
    /// no such child is present.
    pub fn get_child(&self, tag_name: &str) -> (r: Result<&Element, XmlError>)
        ensures
            result_view(r) == self.deep_view().get_child(tag_name@),
    {
        match self.find_child(tag_name) {
            Some(c) => Ok(c),
            None => Err(XmlError::ElementNotFound),
        }
    }

    /// Search for the given attribute.
    pub fn find_attr(&self, key: &str) -> (r: Option<&String>)
        ensures
            r.deep_view() == self.deep_view().find_attr(key@),
    {
        let ghost pairs = self.attributes.deep_view();
        proof {
            self.lemma_view();
        }
        let mut i: usize = self.attributes.len();
        while i > 0
            invariant
                i <= self.attributes.len(),
                pairs == self.attributes.deep_view(),
                forall|j: int| i <= j < pairs.len() ==> pairs[j].0 != key@,
            decreases i,
        {
            i -= 1;
            if str_eq(self.attributes[i].0.as_str(), key) {
                proof {
                    lemma_attribute_last(pairs, key@, i as int);
                }
                return Some(&self.attributes[i].1);
            }
        }
        proof {
            lemma_attribute_absent(pairs, key@);
        }
        None
    }

    /// Return the value of the attribute with the given name, or an error if no
    /// such attribute is present.
    pub fn get_attr(&self, key: &str) -> (r: Result<&String, XmlError>)
        ensures
            result_view(r) == self.deep_view().get_attr(key@),
    {
        match self.find_attr(key) {
            Some(v) => Ok(v),
            None => Err(XmlError::AttributeNotFound),
        }
    }

    /// Return the first child element, if the element has children.
    pub fn find_first_child(&self) -> (r: Option<&Element>)
        ensures
            r.deep_view() == self.deep_view().find_first_child(),
    {
        proof {
            self.lemma_view();
        }
        if self.children.len() > 0 {
            Some(&self.children[0])
        } else {
            None
        }
    }

    /// Return the first child element, or an error if the element has no children.
    pub fn get_first_child(&self) -> (r: Result<&Element, XmlError>)
        ensures
            result_view(r) == self.deep_view().get_first_child(),
    {
        match self.find_first_child() {
            Some(c) => Ok(c),
            None => Err(XmlError::ElementNotFound),
        }
    }

    /// The element's children in document order.
    pub fn iter_children(&self) -> (r: &Vec<Element>)
        ensures
            r.deep_view() == self.deep_view().children,
    {
        proof {
            self.lemma_view();
            assert(self.children.deep_view() =~= self.deep_view().children);
        }
        &self.children
    }

    /// Find the descendant that a search for the given tag name reaches; see
    /// [`ElementView::find_descendant`] for the order of the search.
    pub fn find_descendant(&self, tag_name: &str, left_only: bool) -> (r: Option<&Element>)
        ensures
            r.deep_view() == self.deep_view().find_descendant(tag_name@, left_only),
        decreases self,
    {
        proof {
            self.lemma_view();
        }
        if left_only {
            if self.children.len() == 0 {
                return None;
            }
            let child = &self.children[0];
            proof {
                child.lemma_view();
            }
            if str_eq(child.local_name.as_str(), tag_name) {
                Some(child)
            } else {
                child.find_descendant(tag_name, left_only)
            }
        } else {
            let ghost view = self.deep_view();
            let mut i: usize = 0;
            while i < self.children.len()
                invariant
                    i <= self.children.len(),
                    !left_only,
                    view == self.deep_view(),
                    view.children.len() == self.children@.len(),
                    forall|j: int|
                        0 <= j < view.children.len() ==> #[trigger] view.children[j]
                            == self.children@[j].deep_view(),
                    view.search_below(tag_name@, i as int) == view.find_descendant(tag_name@, false),
                decreases self.children.len() - i,
            {
                assert(view.search_below(tag_name@, i as int) == match view.children[i as int].find_descendant(
                    tag_name@,
                    false,
                ) {
                    Some(c) => Some(c),
                    None => view.search_below(tag_name@, i + 1),
                });
                let found = self.children[i].find_descendant(tag_name, left_only);
                assert(found.deep_view() == view.children[i as int].find_descendant(
                    tag_name@,
                    false,
                ));
                if found.is_some() {
                    return found;
                }
                i += 1;
            }
            None
        }
    }
}

} // verus!

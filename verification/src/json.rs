//! JSON values as plain data, and the lookups that reading search results needs.

use vstd::prelude::*;
use crate::text::str_eq;

verus! {

/// A JSON value.
#[derive(Debug, PartialEq, Eq)]
pub enum Json {
    Null,
    Bool(bool),
    /// A number, with its value where it is an integer of 64 bits.
    Number(Option<i64>),
    Text(String),
    Array(Vec<Json>),
    /// An object: its members in order; where a name occurs twice the later
    /// member counts.
    Object(Vec<(String, Json)>),
}

/// Mathematical view of a [`Json`] value.
pub ghost enum JsonView {
    Null,
    Bool(bool),
    Number(Option<i64>),
    Text(Seq<char>),
    Array(Seq<JsonView>),
    Object(Seq<(Seq<char>, JsonView)>),
}

impl Json {
    /// The number of items of an array or of members of an object.
    pub open spec fn width(&self) -> nat {
        match self {
            Json::Array(items) => items@.len(),
            Json::Object(members) => members@.len(),
            _ => 0,
        }
    }

    /// The views of the first `n` items of an array.
    pub open spec fn item_views(&self, n: nat) -> Seq<JsonView>
        decreases self, n,
    {
        match self {
            Json::Array(items) => if 0 < n <= items@.len() {
                self.item_views((n - 1) as nat).push(items@[n - 1].deep_view())
            } else {
                Seq::empty()
            },
            _ => Seq::empty(),
        }
    }

    /// The views of the first `n` members of an object.
    pub open spec fn member_views(&self, n: nat) -> Seq<(Seq<char>, JsonView)>
        decreases self, n,
    {
        match self {
            Json::Object(members) => if 0 < n <= members@.len() {
                self.member_views((n - 1) as nat).push(
                    (members@[n - 1].0@, members@[n - 1].1.deep_view()),
                )
            } else {
                Seq::empty()
            },
            _ => Seq::empty(),
        }
    }
}

impl DeepView for Json {
    type V = JsonView;

    open spec fn deep_view(&self) -> JsonView
        decreases self, self.width() + 1,
    {
        match self {
            Json::Null => JsonView::Null,
            Json::Bool(b) => JsonView::Bool(*b),
            Json::Number(n) => JsonView::Number(*n),
            Json::Text(s) => JsonView::Text(s@),
            Json::Array(items) => JsonView::Array(self.item_views(items@.len())),
            Json::Object(members) => JsonView::Object(self.member_views(members@.len())),
        }
    }
}

/// The member named `key` among the members of an object: the last one of that name.
pub open spec fn member_of(members: Seq<(Seq<char>, JsonView)>, key: Seq<char>) -> Option<JsonView>
    decreases members.len(),
{
    if members.len() == 0 {
        None
    } else if members.last().0 == key {
        Some(members.last().1)
    } else {
        member_of(members.drop_last(), key)
    }
}

impl JsonView {
    /// The member named `key` of an object; nothing for a value that is no
    /// object or has no such member.
    pub open spec fn member(self, key: Seq<char>) -> Option<JsonView> {
        match self {
            JsonView::Object(members) => member_of(members, key),
            _ => None,
        }
    }

    /// The characters of a text; nothing for any other value.
    pub open spec fn as_text(self) -> Option<Seq<char>> {
        match self {
            JsonView::Text(s) => Some(s),
            _ => None,
        }
    }

    /// The value of a number that is an integer of 64 bits; nothing for any
    /// other value.
    pub open spec fn as_integer(self) -> Option<i64> {
        match self {
            JsonView::Number(n) => n,
            _ => None,
        }
    }

    /// The items of an array; nothing for any other value.
    pub open spec fn items(self) -> Option<Seq<JsonView>> {
        match self {
            JsonView::Array(items) => Some(items),
            _ => None,
        }
    }
}

/// A member after which no member has its name is the one that a lookup finds.
pub proof fn lemma_member_at(members: Seq<(Seq<char>, JsonView)>, key: Seq<char>, i: int)
    requires
        0 <= i < members.len(),
        members[i].0 == key,
        forall|j: int| i < j < members.len() ==> members[j].0 != key,
    ensures
        member_of(members, key) == Some(members[i].1),
    decreases members.len(),
{
    if i < members.len() - 1 {
        lemma_member_at(members.drop_last(), key, i);
    }
}

/// Where no member has the name, a lookup finds nothing.
pub proof fn lemma_member_absent(members: Seq<(Seq<char>, JsonView)>, key: Seq<char>)
    requires
        forall|j: int| 0 <= j < members.len() ==> members[j].0 != key,
    ensures
        member_of(members, key) is None,
    decreases members.len(),
{
    if members.len() > 0 {
        lemma_member_absent(members.drop_last(), key);
    }
}

impl Json {
    proof fn lemma_item_views(&self, n: nat)
        requires
            self is Array,
            n <= self->Array_0@.len(),
        ensures
            self.item_views(n).len() == n,
            forall|i: int|
                0 <= i < n ==> #[trigger] self.item_views(n)[i] == self->Array_0@[i].deep_view(),
        decreases n,
    {
        if n > 0 {
            self.lemma_item_views((n - 1) as nat);
            assert(self.item_views(n) == self.item_views((n - 1) as nat).push(
                self->Array_0@[n - 1].deep_view(),
            ));
        }
    }

    proof fn lemma_member_views(&self, n: nat)
        requires
            self is Object,
            n <= self->Object_0@.len(),
        ensures
            self.member_views(n).len() == n,
            forall|i: int|
                0 <= i < n ==> #[trigger] self.member_views(n)[i] == (
                    self->Object_0@[i].0@,
                    self->Object_0@[i].1.deep_view(),
                ),
        decreases n,
    {
        if n > 0 {
            self.lemma_member_views((n - 1) as nat);
            assert(self.member_views(n) == self.member_views((n - 1) as nat).push(
                (self->Object_0@[n - 1].0@, self->Object_0@[n - 1].1.deep_view()),
            ));
        }
    }

    /// The view of an array holds the views of its items, and the view of an
    /// object the names and the views of its members.
    pub proof fn lemma_view(&self)
        ensures
            match self {
                Json::Array(items) => self.deep_view() is Array && self.deep_view()->Array_0.len()
                    == items@.len() && forall|i: int|
                    0 <= i < items@.len() ==> #[trigger] self.deep_view()->Array_0[i]
                        == items@[i].deep_view(),
                Json::Object(members) => self.deep_view() is Object
                    && self.deep_view()->Object_0.len() == members@.len() && forall|i: int|
                    0 <= i < members@.len() ==> #[trigger] self.deep_view()->Object_0[i] == (
                        members@[i].0@,
                        members@[i].1.deep_view(),
                    ),
                _ => true,
            },
    {
        match self {
            Json::Array(items) => {
                self.lemma_item_views(items@.len());
            },
            Json::Object(members) => {
                self.lemma_member_views(members@.len());
            },
            _ => {},
        }
    }

    /// The member named `key` of an object.
    pub fn member(&self, key: &str) -> (r: Option<&Json>)
        ensures
            r.deep_view() == self.deep_view().member(key@),
    {
        proof {
            self.lemma_view();
        }
        match self {
            Json::Object(members) => {
                let ghost views = self.deep_view()->Object_0;
                let mut i: usize = members.len();
                while i > 0
                    invariant
                        i <= members.len(),
                        self.deep_view() == JsonView::Object(views),
                        views.len() == members@.len(),
                        forall|j: int|
                            0 <= j < views.len() ==> #[trigger] views[j] == (
                                members@[j].0@,
                                members@[j].1.deep_view(),
                            ),
                        forall|j: int| i <= j < views.len() ==> views[j].0 != key@,
                    decreases i,
                {
                    i -= 1;
                    if str_eq(members[i].0.as_str(), key) {
                        proof {
                            lemma_member_at(views, key@, i as int);
                        }
                        return Some(&members[i].1);
                    }
                }
                proof {
                    lemma_member_absent(views, key@);
                }
                None
            },
            _ => None,
        }
    }

    /// The characters of a text.
    pub fn as_str(&self) -> (r: Option<&str>)
        ensures
            r.deep_view() == self.deep_view().as_text(),
    {
        match self {
            Json::Text(s) => Some(s.as_str()),
            _ => None,
        }
    }

    /// The value of a number that is an integer of 64 bits.
    pub fn as_i64(&self) -> (r: Option<i64>)
        ensures
            r == self.deep_view().as_integer(),
    {
        match self {
            Json::Number(n) => *n,
            _ => None,
        }
    }

    /// The items of an array.
    pub fn as_array(&self) -> (r: Option<&Vec<Json>>)
        ensures
            r.deep_view() == self.deep_view().items(),
    {
        proof {
            self.lemma_view();
        }
        match self {
            Json::Array(items) => {
                assert(items.deep_view() =~= self.deep_view()->Array_0);
                Some(items)
            },
            _ => None,
        }
    }

    /// Whether the value is an object.
    pub fn is_object(&self) -> (r: bool)
        ensures
            r == (self.deep_view() is Object),
    {
        match self {
            Json::Object(_) => true,
            _ => false,
        }
    }
}

} // verus!

//! Searching a register page by page: what to ask for, and what a page that
//! came back adds to the search.

use vstd::prelude::*;
use vstd::string::StringExecFns;
use crate::coded::Coded;
use crate::download::{
    outcome_view, DownloadError, DownloadErrorView, FirdsDoc, FirdsDocType, FirdsDocView,
    FirdsSource,
};
use crate::json::{Json, JsonView};

verus! {

/// A search in progress: the pages read so far and the documents on them.
#[derive(Debug, Clone, PartialEq, Eq)]
pub struct Search {
    /// The position in the results from which the next page starts.
    pub start: i64,
    /// The number of results that a page is asked to hold.
    pub rows: i64,
    /// The number of results that the register reports; negative until a page
    /// has reported it.
    pub num_found: i64,
    /// The documents on the pages read so far, in order.
    pub docs: Vec<FirdsDoc>,
}

/// Mathematical view of a [`Search`].
pub ghost struct SearchView {
    pub start: i64,
    pub rows: i64,
    pub num_found: i64,
    pub docs: Seq<FirdsDocView>,
}

impl DeepView for Search {
    type V = SearchView;

    open spec fn deep_view(&self) -> SearchView {
        SearchView {
            start: self.start,
            rows: self.rows,
            num_found: self.num_found,
            docs: self.docs.deep_view(),
        }
    }
}

/// The names under which a register's page holds the results: the member that
/// holds everything, in it the member with the number of results, and in it
/// the member with the list of documents.
pub open spec fn page_names(source: FirdsSource) -> (Seq<char>, Seq<char>, Seq<char>) {
    match source {
        FirdsSource::Esma => ("response"@, "numFound"@, "docs"@),
        FirdsSource::Fca => ("hits"@, "total"@, "hits"@),
    }
}

/// The document that an entry of a register's search result stands for.
pub open spec fn doc_of(entry: JsonView, source: FirdsSource) -> Result<FirdsDocView, DownloadErrorView> {
    match source {
        FirdsSource::Esma => FirdsDoc::of_esma_json(entry),
        FirdsSource::Fca => FirdsDoc::of_fca_json(entry),
    }
}

/// The documents `docs` with the ones added that the entries from index `from`
/// on stand for; the first entry that cannot be read is the error.
pub open spec fn docs_with(
    docs: Seq<FirdsDocView>,
    entries: Seq<JsonView>,
    from: int,
    source: FirdsSource,
) -> Result<Seq<FirdsDocView>, DownloadErrorView>
    decreases entries.len() - from,
{
    if 0 <= from < entries.len() {
        match doc_of(entries[from], source) {
            Ok(doc) => docs_with(docs.push(doc), entries, from + 1, source),
            Err(e) => Err(e),
        }
    } else {
        Ok(docs)
    }
}

/// One step of [`docs_with`], spelled out.
pub proof fn lemma_docs_step(
    docs: Seq<FirdsDocView>,
    entries: Seq<JsonView>,
    from: int,
    source: FirdsSource,
)
    requires
        0 <= from < entries.len(),
    ensures
        docs_with(docs, entries, from, source) == match doc_of(entries[from], source) {
            Ok(doc) => docs_with(docs.push(doc), entries, from + 1, source),
            Err(e) => Err(e),
        },
{
}

/// The sum of two numbers, kept within the range of 64 bits.
pub open spec fn clamped_sum(a: i64, b: i64) -> i64 {
    if a + b > i64::MAX {
        i64::MAX
    } else if a + b < i64::MIN {
        i64::MIN
    } else {
        (a + b) as i64
    }
}

/// The search after a page has been read.
///
/// The page must hold the results as an object. Until a page has reported the
/// number of results, that number is read from the page. The documents of the
/// page are added to the ones found so far, and the next page starts after
/// the rows that this page was asked to hold.
pub open spec fn after_page(search: SearchView, page: JsonView, source: FirdsSource) -> Result<
    SearchView,
    DownloadErrorView,
> {
    let names = page_names(source);
    let body = page.member(names.0);
    let unknown = search.num_found < 0;
    let found = match body->0.member(names.1) {
        Some(n) => n.as_integer(),
        None => None,
    };
    let entries = match body->0.member(names.2) {
        Some(list) => list.items(),
        None => None,
    };
    let docs = docs_with(search.docs, entries->0, 0, source);
    if body is None || !(body->0 is Object) {
        Err(DownloadErrorView::BadJson)
    } else if unknown && found is None {
        Err(DownloadErrorView::BadJson)
    } else if entries is None {
        Err(DownloadErrorView::BadJson)
    } else if docs is Err {
        Err(docs->Err_0)
    } else {
        Ok(
            SearchView {
                start: clamped_sum(search.start, search.rows),
                rows: search.rows,
                num_found: if unknown {
                    found->0
                } else {
                    search.num_found
                },
                docs: docs->Ok_0,
            },
        )
    }
}

impl Search {
    /// A search of which no page has been read: it starts at the first
    /// result and asks for a hundred results on a page.
    pub fn new() -> (s: Self)
        ensures
            s.deep_view() == (SearchView {
                start: 0,
                rows: 100,
                num_found: -1i64,
                docs: Seq::empty(),
            }),
    {
        let s = Search { start: 0, rows: 100, num_found: -1, docs: Vec::new() };
        assert(s.docs.deep_view() =~= Seq::empty());
        s
    }

    /// Whether another page is to be read: as long as the number of results is
    /// unknown, or results remain after the pages read so far.
    pub fn wants_page(&self) -> (r: bool)
        ensures
            r == (self.num_found < 0 || self.num_found > self.start),
    {
        self.num_found < 0 || self.num_found > self.start
    }

    /// Read a document from an entry of a register's search result.
    fn read_doc(entry: &Json, source: FirdsSource) -> (r: Result<FirdsDoc, DownloadError>)
        ensures
            outcome_view(r) == doc_of(entry.deep_view(), source),
    {
        match source {
            FirdsSource::Esma => FirdsDoc::from_esma_json(entry),
            FirdsSource::Fca => FirdsDoc::from_fca_json(entry),
        }
    }

    /// Take in a page of a register's search result.
    pub fn accept_page(self, page: &Json, source: FirdsSource) -> (r: Result<Search, DownloadError>)
        ensures
            outcome_view(r) == after_page(self.deep_view(), page.deep_view(), source),
    {
        let ghost goal = after_page(self.deep_view(), page.deep_view(), source);
        let (outer, count, list) = match source {
            FirdsSource::Esma => ("response", "numFound", "docs"),
            FirdsSource::Fca => ("hits", "total", "hits"),
        };
        let body = match page.member(outer) {
            Some(b) => b,
            None => {
                return Err(DownloadError::BadJson);
            },
        };
        if !body.is_object() {
            return Err(DownloadError::BadJson);
        }
        let mut num_found = self.num_found;
        if num_found < 0 {
            let reported = match body.member(count) {
                Some(n) => n.as_i64(),
                None => None,
            };
            num_found = match reported {
                Some(n) => n,
                None => {
                    return Err(DownloadError::BadJson);
                },
            };
        }
        let listed = match body.member(list) {
            Some(l) => l.as_array(),
            None => None,
        };
        let entries = match listed {
            Some(e) => e,
            None => {
                return Err(DownloadError::BadJson);
            },
        };
        let start = self.start;
        let rows = self.rows;
        let mut docs = self.docs;
        let ghost views = entries.deep_view();
        let ghost all = docs_with(docs.deep_view(), views, 0, source);
        assert(goal == match all {
            Ok(found) => Ok(
                SearchView { start: clamped_sum(start, rows), rows, num_found, docs: found },
            ),
            Err(e) => Err(e),
        });
        let mut i: usize = 0;
        while i < entries.len()
            invariant
                i <= entries.len(),
                views == entries.deep_view(),
                goal == after_page(self.deep_view(), page.deep_view(), source),
                goal == match all {
                    Ok(found) => Ok(
                        SearchView { start: clamped_sum(start, rows), rows, num_found, docs: found },
                    ),
                    Err(e) => Err(e),
                },
                docs_with(docs.deep_view(), views, i as int, source) == all,
            decreases entries.len() - i,
        {
            proof {
                lemma_docs_step(docs.deep_view(), views, i as int, source);
            }
            let ghost before = docs.deep_view();
            let doc = Self::read_doc(&entries[i], source)?;
            docs.push(doc);
            assert(docs.deep_view() =~= before.push(doc.deep_view()));
            i += 1;
        }
        let next = if rows >= 0 {
            if start > i64::MAX - rows {
                i64::MAX
            } else {
                start + rows
            }
        } else {
            if start < i64::MIN - rows {
                i64::MIN
            } else {
                start + rows
            }
        };
        Ok(Search { start: next, rows, num_found, docs })
    }

    /// Take in a page of an ESMA search result.
    pub fn accept_esma_page(self, page: &Json) -> (r: Result<Search, DownloadError>)
        ensures
            outcome_view(r) == after_page(self.deep_view(), page.deep_view(), FirdsSource::Esma),
    {
        self.accept_page(page, FirdsSource::Esma)
    }

    /// Take in a page of an FCA search result.
    pub fn accept_fca_page(self, page: &Json) -> (r: Result<Search, DownloadError>)
        ensures
            outcome_view(r) == after_page(self.deep_view(), page.deep_view(), FirdsSource::Fca),
    {
        self.accept_page(page, FirdsSource::Fca)
    }
}

/// The filter for files that were published in a period, with the two ends
/// of the period written as the register wants them.
pub fn publication_filter(from: &str, to: &str) -> (r: String)
    ensures
        r@ == "publication_date:["@ + from@ + " TO "@ + to@ + "]"@,
{
    let mut r = "publication_date:[".to_owned();
    r.append(from);
    r.append(" TO ");
    r.append(to);
    r.append("]");
    r
}

/// What an ESMA search asks for: files of one kind, or with `*` files of any kind.
pub fn esma_query(file_type: Option<FirdsDocType>) -> (r: String)
    ensures
        r@ == match file_type {
            Some(t) => t.code_of(),
            None => "*"@,
        },
{
    match file_type {
        Some(t) => t.code().to_owned(),
        None => "*".to_owned(),
    }
}

/// What an FCA search asks for: files that pass the filter, and are of one
/// kind where a kind is given.
pub fn fca_query(filter: &str, file_type: Option<FirdsDocType>) -> (r: String)
    ensures
        r@ == match file_type {
            Some(t) => "((file_type:"@ + t.code_of() + ") AND ("@ + filter@ + "))"@,
            None => "("@ + filter@ + ")"@,
        },
{
    match file_type {
        Some(t) => {
            let mut r = "((file_type:".to_owned();
            r.append(t.code());
            r.append(") AND (");
            r.append(filter);
            r.append("))");
            r
        },
        None => {
            let mut r = "(".to_owned();
            r.append(filter);
            r.append(")");
            r
        },
    }
}

} // verus!

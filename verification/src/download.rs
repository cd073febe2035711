//! Search results of the registers: the documents that a search lists, the
//! pages that it comes in, and the check of a downloaded file.

use vstd::prelude::*;
use vstd::string::StringExecFns;
use crate::coded::{Coded, lemma_value_of_parsed, value_of};
use crate::json::{Json, JsonView};
use crate::parse_utils::instant_outcome;
use crate::scalar::{instant_of_text, parse_instant, Timestamp};
use crate::text::str_eq;

verus! {

/// Why a search result could not be read, or a downloaded file not accepted.
#[derive(Debug, Clone, PartialEq, Eq)]
pub enum DownloadError {
    /// A JSON object lacks the member of this name.
    JsonMapKeyNotFound(String),
    /// The JSON is not of the expected shape.
    BadJson,
    /// The text is the code of no kind of file.
    EnumParseError(String),
    /// A text is no date and time in the RFC 3339 notation.
    BadDateTime,
    /// The file does not have the published checksum; holds the MD5 sum that
    /// it does have.
    Md5CheckFailed(String),
    /// No checksum was published for the file.
    NoMd5Sum,
}

/// Mathematical view of a [`DownloadError`].
pub ghost enum DownloadErrorView {
    JsonMapKeyNotFound(Seq<char>),
    BadJson,
    EnumParseError(Seq<char>),
    BadDateTime,
    Md5CheckFailed(Seq<char>),
    NoMd5Sum,
}

impl DeepView for DownloadError {
    type V = DownloadErrorView;

    open spec fn deep_view(&self) -> DownloadErrorView {
        match self {
            DownloadError::JsonMapKeyNotFound(k) => DownloadErrorView::JsonMapKeyNotFound(k@),
            DownloadError::BadJson => DownloadErrorView::BadJson,
            DownloadError::EnumParseError(s) => DownloadErrorView::EnumParseError(s@),
            DownloadError::BadDateTime => DownloadErrorView::BadDateTime,
            DownloadError::Md5CheckFailed(s) => DownloadErrorView::Md5CheckFailed(s@),
            DownloadError::NoMd5Sum => DownloadErrorView::NoMd5Sum,
        }
    }
}

/// View of an outcome: the view of the value, or the view of the error.
pub open spec fn outcome_view<T: DeepView>(r: Result<T, DownloadError>) -> Result<
    T::V,
    DownloadErrorView,
> {
    match r {
        Ok(v) => Ok(v.deep_view()),
        Err(e) => Err(e.deep_view()),
    }
}

/// The kind of a published file.
#[derive(Debug, Clone, Copy, PartialEq, Eq, Structural)]
pub enum FirdsDocType {
    /// A full file: every instrument in the register.
    Fulins,
    /// A delta file: what changed on one day.
    Dltins,
    /// A file of cancellations.
    Fulcan,
}

impl DeepView for FirdsDocType {
    type V = FirdsDocType;

    open spec fn deep_view(&self) -> FirdsDocType {
        *self
    }
}

impl Coded for FirdsDocType {
    open spec fn code_of(self) -> Seq<char> {
        match self {
            FirdsDocType::Fulins => "FULINS"@,
            FirdsDocType::Dltins => "DLTINS"@,
            FirdsDocType::Fulcan => "FULCAN"@,
        }
    }

    fn code(&self) -> (r: &'static str) {
        match self {
            FirdsDocType::Fulins => "FULINS",
            FirdsDocType::Dltins => "DLTINS",
            FirdsDocType::Fulcan => "FULCAN",
        }
    }

    fn from_code(code: &str) -> (r: Option<Self>) {
        if str_eq(code, "FULINS") {
            Some(FirdsDocType::Fulins)
        } else if str_eq(code, "DLTINS") {
            Some(FirdsDocType::Dltins)
        } else if str_eq(code, "FULCAN") {
            Some(FirdsDocType::Fulcan)
        } else {
            None
        }
    }

    proof fn lemma_codes_differ(a: Self, b: Self) {
        reveal_strlit("FULINS");
        reveal_strlit("DLTINS");
        reveal_strlit("FULCAN");
        assert("FULINS"@[0] == 'F' && "FULINS"@[3] == 'I');
        assert("DLTINS"@[0] == 'D' && "DLTINS"@[3] == 'I');
        assert("FULCAN"@[0] == 'F' && "FULCAN"@[3] == 'C');
    }
}

/// The register that publishes a file.
#[derive(Debug, Clone, Copy, PartialEq, Eq, Structural)]
pub enum FirdsSource {
    /// European Securities and Markets Authority (EU).
    Esma,
    /// Financial Conduct Authority (UK).
    Fca,
}

impl DeepView for FirdsSource {
    type V = FirdsSource;

    open spec fn deep_view(&self) -> FirdsSource {
        *self
    }
}

impl Coded for FirdsSource {
    open spec fn code_of(self) -> Seq<char> {
        match self {
            FirdsSource::Esma => "ESMA"@,
            FirdsSource::Fca => "FCA"@,
        }
    }

    fn code(&self) -> (r: &'static str) {
        match self {
            FirdsSource::Esma => "ESMA",
            FirdsSource::Fca => "FCA",
        }
    }

    fn from_code(code: &str) -> (r: Option<Self>) {
        if str_eq(code, "ESMA") {
            Some(FirdsSource::Esma)
        } else if str_eq(code, "FCA") {
            Some(FirdsSource::Fca)
        } else {
            None
        }
    }

    proof fn lemma_codes_differ(a: Self, b: Self) {
        reveal_strlit("ESMA");
        reveal_strlit("FCA");
        assert("ESMA"@[0] == 'E');
        assert("FCA"@[0] == 'F');
    }
}

/// The kind of file that a text is the code of, or the error that holds the text.
pub open spec fn doc_type_of(text: Seq<char>) -> Result<FirdsDocType, DownloadErrorView> {
    match value_of::<FirdsDocType>(text) {
        Some(t) => Ok(t),
        None => Err(DownloadErrorView::EnumParseError(text)),
    }
}

impl FirdsDocType {
    /// Read the kind of file from its code in upper case: `FULINS`, `DLTINS` or
    /// `FULCAN`.
    pub fn from_str(s: &str) -> (r: Result<Self, DownloadError>)
        ensures
            outcome_view(r) == doc_type_of(s@),
    {
        let parsed = Self::from_code(s);
        proof {
            lemma_value_of_parsed(s@, parsed);
        }
        match parsed {
            Some(t) => Ok(t),
            None => Err(DownloadError::EnumParseError(s.to_owned())),
        }
    }
}

/// The text of the member `key` of an object: a value that is no object is of
/// the wrong shape, the member may be missing, and a member that is no text is
/// of the wrong shape.
pub open spec fn text_member(value: JsonView, key: Seq<char>) -> Result<Seq<char>, DownloadErrorView> {
    if !(value is Object) {
        Err(DownloadErrorView::BadJson)
    } else {
        match value.member(key) {
            None => Err(DownloadErrorView::JsonMapKeyNotFound(key)),
            Some(m) => match m.as_text() {
                Some(s) => Ok(s),
                None => Err(DownloadErrorView::BadJson),
            },
        }
    }
}

/// The member `key` of an object where that member is an object itself.
pub open spec fn object_member(value: JsonView, key: Seq<char>) -> Result<JsonView, DownloadErrorView> {
    if !(value is Object) {
        Err(DownloadErrorView::BadJson)
    } else {
        match value.member(key) {
            None => Err(DownloadErrorView::JsonMapKeyNotFound(key)),
            Some(m) => if m is Object {
                Ok(m)
            } else {
                Err(DownloadErrorView::BadJson)
            },
        }
    }
}

/// Get the text of a member of a JSON value that is taken to be an object.
pub fn str_from_value<'a>(value: &'a Json, k: &str) -> (r: Result<&'a str, DownloadError>)
    ensures
        outcome_view(r) == text_member(value.deep_view(), k@),
{
    if !value.is_object() {
        return Err(DownloadError::BadJson);
    }
    match value.member(k) {
        None => Err(DownloadError::JsonMapKeyNotFound(k.to_owned())),
        Some(m) => match m.as_str() {
            Some(s) => Ok(s),
            None => Err(DownloadError::BadJson),
        },
    }
}

/// Get the object that is a member of a JSON value that is taken to be an
/// object.
pub fn map_from_value<'a>(value: &'a Json, k: &str) -> (r: Result<&'a Json, DownloadError>)
    ensures
        outcome_view(r) == object_member(value.deep_view(), k@),
{
    if !value.is_object() {
        return Err(DownloadError::BadJson);
    }
    match value.member(k) {
        None => Err(DownloadError::JsonMapKeyNotFound(k.to_owned())),
        Some(m) => if m.is_object() {
            Ok(m)
        } else {
            Err(DownloadError::BadJson)
        },
    }
}

/// A file that a search of a register lists.
#[derive(Debug, Clone, PartialEq, Eq)]
pub struct FirdsDoc {
    /// The register that publishes the file.
    pub source: FirdsSource,
    /// The address to download the file from.
    pub download_link: String,
    /// The register's identifier of the file.
    pub file_id: String,
    /// The name of the file.
    pub file_name: String,
    /// The kind of file.
    pub file_type: FirdsDocType,
    /// When the file was published or last refreshed.
    pub timestamp: Timestamp,
    /// The MD5 checksum of the file as lower-case hexadecimal digits, where one
    /// was published.
    pub checksum: Option<String>,
}

/// Mathematical view of a [`FirdsDoc`].
pub ghost struct FirdsDocView {
    pub source: FirdsSource,
    pub download_link: Seq<char>,
    pub file_id: Seq<char>,
    pub file_name: Seq<char>,
    pub file_type: FirdsDocType,
    pub timestamp: Timestamp,
    pub checksum: Option<Seq<char>>,
}

impl DeepView for FirdsDoc {
    type V = FirdsDocView;

    open spec fn deep_view(&self) -> FirdsDocView {
        FirdsDocView {
            source: self.source,
            download_link: self.download_link@,
            file_id: self.file_id@,
            file_name: self.file_name@,
            file_type: self.file_type,
            timestamp: self.timestamp,
            checksum: self.checksum.deep_view(),
        }
    }
}

/// The instant that a text denotes, or the error for a text that denotes none.
pub open spec fn timestamp_of(text: Seq<char>) -> Result<Timestamp, DownloadErrorView> {
    match instant_of_text(text) {
        Some(t) => Ok(t),
        None => Err(DownloadErrorView::BadDateTime),
    }
}

/// Read an instant in the RFC 3339 notation.
fn timestamp_from(text: &str) -> (r: Result<Timestamp, DownloadError>)
    ensures
        outcome_view(r) == timestamp_of(text@),
{
    match instant_outcome(parse_instant(text)) {
        Ok(t) => Ok(t),
        Err(_) => Err(DownloadError::BadDateTime),
    }
}

impl FirdsDoc {
    /// The document that an entry of an ESMA search result stands for.
    pub open spec fn of_esma_json(json: JsonView) -> Result<FirdsDocView, DownloadErrorView> {
        let link = text_member(json, "download_link"@);
        let id = text_member(json, "id"@);
        let name = text_member(json, "file_name"@);
        let type_text = text_member(json, "file_type"@);
        let file_type = doc_type_of(type_text->Ok_0);
        let time_text = text_member(json, "timestamp"@);
        let timestamp = timestamp_of(time_text->Ok_0);
        let checksum = text_member(json, "checksum"@);
        if link is Err {
            Err(link->Err_0)
        } else if id is Err {
            Err(id->Err_0)
        } else if name is Err {
            Err(name->Err_0)
        } else if type_text is Err {
            Err(type_text->Err_0)
        } else if file_type is Err {
            Err(file_type->Err_0)
        } else if time_text is Err {
            Err(time_text->Err_0)
        } else if timestamp is Err {
            Err(timestamp->Err_0)
        } else if checksum is Err {
            Err(checksum->Err_0)
        } else {
            Ok(
                FirdsDocView {
                    source: FirdsSource::Esma,
                    download_link: link->Ok_0,
                    file_id: id->Ok_0,
                    file_name: name->Ok_0,
                    file_type: file_type->Ok_0,
                    timestamp: timestamp->Ok_0,
                    checksum: Some(checksum->Ok_0),
                },
            )
        }
    }

    /// The document that an entry of an FCA search result stands for. Most of
    /// it stands in the member `_source`; the FCA publishes no checksum.
    pub open spec fn of_fca_json(json: JsonView) -> Result<FirdsDocView, DownloadErrorView> {
        let source = object_member(json, "_source"@);
        let link = text_member(source->Ok_0, "download_link"@);
        let id = text_member(json, "_id"@);
        let name = text_member(source->Ok_0, "file_name"@);
        let type_text = text_member(source->Ok_0, "file_type"@);
        let file_type = doc_type_of(type_text->Ok_0);
        let time_text = text_member(source->Ok_0, "last_refreshed"@);
        let timestamp = timestamp_of(time_text->Ok_0);
        if source is Err {
            Err(source->Err_0)
        } else if link is Err {
            Err(link->Err_0)
        } else if id is Err {
            Err(id->Err_0)
        } else if name is Err {
            Err(name->Err_0)
        } else if type_text is Err {
            Err(type_text->Err_0)
        } else if file_type is Err {
            Err(file_type->Err_0)
        } else if time_text is Err {
            Err(time_text->Err_0)
        } else if timestamp is Err {
            Err(timestamp->Err_0)
        } else {
            Ok(
                FirdsDocView {
                    source: FirdsSource::Fca,
                    download_link: link->Ok_0,
                    file_id: id->Ok_0,
                    file_name: name->Ok_0,
                    file_type: file_type->Ok_0,
                    timestamp: timestamp->Ok_0,
                    checksum: None,
                },
            )
        }
    }

    /// Read a document from an entry of an ESMA search result.
    pub fn from_esma_json(json: &Json) -> (r: Result<Self, DownloadError>)
        ensures
            outcome_view(r) == Self::of_esma_json(json.deep_view()),
    {
        Ok(
            FirdsDoc {
                source: FirdsSource::Esma,
                download_link: str_from_value(json, "download_link")?.to_owned(),
                file_id: str_from_value(json, "id")?.to_owned(),
                file_name: str_from_value(json, "file_name")?.to_owned(),
                file_type: FirdsDocType::from_str(str_from_value(json, "file_type")?)?,
                timestamp: timestamp_from(str_from_value(json, "timestamp")?)?,
                checksum: Some(str_from_value(json, "checksum")?.to_owned()),
            },
        )
    }

    /// Read a document from an entry of an FCA search result.
    pub fn from_fca_json(json: &Json) -> (r: Result<Self, DownloadError>)
        ensures
            outcome_view(r) == Self::of_fca_json(json.deep_view()),
    {
        let source_json = map_from_value(json, "_source")?;
        Ok(
            FirdsDoc {
                source: FirdsSource::Fca,
                download_link: str_from_value(source_json, "download_link")?.to_owned(),
                file_id: str_from_value(json, "_id")?.to_owned(),
                file_name: str_from_value(source_json, "file_name")?.to_owned(),
                file_type: FirdsDocType::from_str(str_from_value(source_json, "file_type")?)?,
                timestamp: timestamp_from(str_from_value(source_json, "last_refreshed")?)?,
                checksum: None,
            },
        )
    }

    /// Whether a file with the MD5 sum `md5_hex` is the file that was
    /// published: an error without a published checksum, and an error that
    /// holds the sum if it is another than the published one.
    pub open spec fn checked(doc: FirdsDocView, md5_hex: Seq<char>) -> Result<(), DownloadErrorView> {
        match doc.checksum {
            Some(published) => if md5_hex == published {
                Ok(())
            } else {
                Err(DownloadErrorView::Md5CheckFailed(md5_hex))
            },
            None => Err(DownloadErrorView::NoMd5Sum),
        }
    }

    /// Verify a downloaded file by its MD5 sum, given as lower-case
    /// hexadecimal digits.
    pub fn verify_file(&self, md5_hex: &str) -> (r: Result<(), DownloadError>)
        ensures
            outcome_view(r) == Self::checked(self.deep_view(), md5_hex@),
    {
        match &self.checksum {
            Some(published) => if str_eq(md5_hex, published.as_str()) {
                Ok(())
            } else {
                Err(DownloadError::Md5CheckFailed(md5_hex.to_owned()))
            },
            None => Err(DownloadError::NoMd5Sum),
        }
    }
}

} // verus!

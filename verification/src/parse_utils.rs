//! Reading scalars out of elements that may be absent: an absent element gives
//! no value, and a present one gives its value or the error of its kind.

use vstd::prelude::*;
use vstd::string::StrSliceExecFns;
use crate::coded::{Coded, lemma_value_of_parsed, value_of};
use crate::element::{Element, ElementView};
use crate::error::{result_view, XmlError, XmlErrorView};
use crate::scalar::{date_of_text, instant_of_text, parse_date, parse_instant, Date, Decimal, Timestamp};
use crate::text::{bool_of_text, i32_of_text, is_decimal_text, parse_bool, parse_i32};

verus! {

/// A value that is read from the text of an element.
pub trait FromText: Sized + DeepView {
    /// The value that a text denotes, or the error for a text that denotes none.
    spec fn of_text(text: Seq<char>) -> Result<Self::V, XmlErrorView>;

    /// Read the value that `text` denotes.
    fn from_text(text: &str) -> (r: Result<Self, XmlError>)
        ensures
            result_view(r) == Self::of_text(text@),
    ;
}

impl FromText for i32 {
    open spec fn of_text(text: Seq<char>) -> Result<i32, XmlErrorView> {
        match i32_of_text(text) {
            Some(v) => Ok(v),
            None => Err(XmlErrorView::IntParse),
        }
    }

    fn from_text(text: &str) -> (r: Result<i32, XmlError>) {
        match parse_i32(text) {
            Some(v) => Ok(v),
            None => Err(XmlError::IntParse),
        }
    }
}

impl FromText for bool {
    open spec fn of_text(text: Seq<char>) -> Result<bool, XmlErrorView> {
        match bool_of_text(text) {
            Some(v) => Ok(v),
            None => Err(XmlErrorView::BoolParse),
        }
    }

    fn from_text(text: &str) -> (r: Result<bool, XmlError>) {
        match parse_bool(text) {
            Some(v) => Ok(v),
            None => Err(XmlError::BoolParse),
        }
    }
}

impl FromText for Decimal {
    open spec fn of_text(text: Seq<char>) -> Result<Seq<char>, XmlErrorView> {
        if is_decimal_text(text) {
            Ok(text)
        } else {
            Err(XmlErrorView::FloatParse)
        }
    }

    fn from_text(text: &str) -> (r: Result<Decimal, XmlError>) {
        match Decimal::parse(text) {
            Some(v) => {
                assert(Self::of_text(text@) == Ok::<Seq<char>, XmlErrorView>(text@));
                Ok(v)
            },
            None => {
                assert(Self::of_text(text@) == Err::<Seq<char>, XmlErrorView>(
                    XmlErrorView::FloatParse,
                ));
                Err(XmlError::FloatParse)
            },
        }
    }
}

/// The value of a closed enumeration that a text is the code of, or the error
/// that holds the text.
pub open spec fn coded_of_text<T: Coded>(text: Seq<char>) -> Result<T, XmlErrorView> {
    match value_of::<T>(text) {
        Some(v) => Ok(v),
        None => Err(XmlErrorView::EnumParse(text)),
    }
}

/// Read the value of a closed enumeration from its code. A text outside the
/// table is an error, never a default value.
pub fn coded_from_text<T: Coded>(text: &str) -> (r: Result<T, XmlError>)
    ensures
        match r {
            Ok(v) => coded_of_text::<T>(text@) == Ok::<T, XmlErrorView>(v),
            Err(e) => coded_of_text::<T>(text@) == Err::<T, XmlErrorView>(e.deep_view()),
        },
{
    let parsed = T::from_code(text);
    proof {
        lemma_value_of_parsed(text@, parsed);
    }
    match parsed {
        Some(v) => Ok(v),
        None => Err(XmlError::EnumParse(text.to_owned())),
    }
}

/// A text that is the code of no value is rejected with the error that holds
/// it, and a text that is accepted is the code of the value that it gives.
pub proof fn lemma_unknown_code_rejected<T: Coded>(text: Seq<char>)
    ensures
        (forall|v: T| v.code_of() != text) ==> coded_of_text::<T>(text) == Err::<T, XmlErrorView>(
            XmlErrorView::EnumParse(text),
        ),
        coded_of_text::<T>(text) is Ok ==> coded_of_text::<T>(text)->Ok_0.code_of() == text,
{
}

/// The first child named `child_name` of an element that may be absent.
pub open spec fn child_of(elem: Option<ElementView>, child_name: Seq<char>) -> Option<ElementView> {
    match elem {
        Some(e) => e.find_child(child_name),
        None => None,
    }
}

/// The text of an element that may be absent.
pub open spec fn text_of(elem: Option<ElementView>) -> Option<Seq<char>> {
    match elem {
        Some(e) => Some(e.text),
        None => None,
    }
}

/// The first ten characters of a text, or all of it where it is shorter.
pub open spec fn date_part(text: Seq<char>) -> Seq<char> {
    if text.len() > 10 {
        text.take(10)
    } else {
        text
    }
}

/// The date that the text of an element begins with, for an element that may
/// be absent.
pub open spec fn date_of(elem: Option<ElementView>) -> Result<Option<Date>, XmlErrorView> {
    match elem {
        Some(e) => match date_of_text(date_part(e.text)) {
            Some(d) => Ok(Some(d)),
            None => Err(XmlErrorView::DateTimeParse),
        },
        None => Ok(None),
    }
}

/// The instant that the text of an element denotes, for an element that may
/// be absent.
pub open spec fn instant_of(elem: Option<ElementView>) -> Result<Option<Timestamp>, XmlErrorView> {
    match elem {
        Some(e) => match instant_of_text(e.text) {
            Some(t) => Ok(Some(t)),
            None => Err(XmlErrorView::DateTimeParse),
        },
        None => Ok(None),
    }
}

/// The value that the text of an element denotes, for an element that may be
/// absent.
pub open spec fn parsed_of<T: FromText>(elem: Option<ElementView>) -> Result<
    Option<T::V>,
    XmlErrorView,
> {
    match elem {
        Some(e) => match T::of_text(e.text) {
            Ok(v) => Ok(Some(v)),
            Err(x) => Err(x),
        },
        None => Ok(None),
    }
}

/// Search for an immediate child element with the given name. Gives `None` if
/// `elem` is `None` or has no such child.
pub fn child_or_none<'a>(elem: Option<&'a Element>, child_name: &str) -> (r: Option<&'a Element>)
    ensures
        r.deep_view() == child_of(elem.deep_view(), child_name@),
{
    match elem {
        Some(e) => e.find_child(child_name),
        None => None,
    }
}

/// The text of the element, if there is an element.
pub fn text_or_none<'a>(elem: Option<&'a Element>) -> (r: Option<&'a str>)
    ensures
        r.deep_view() == text_of(elem.deep_view()),
{
    match elem {
        Some(e) => {
            proof {
                e.lemma_view();
            }
            Some(e.text.as_str())
        },
        None => None,
    }
}

/// The first ten characters of a text, or all of it where it is shorter: the
/// part that holds the date where a time of day follows it.
pub fn date_prefix(text: &str) -> (r: &str)
    ensures
        r@ == date_part(text@),
{
    let n = text.unicode_len();
    if n > 10 {
        text.substring_char(0, 10)
    } else {
        text
    }
}

/// The outcome of reading a date, as the decoder reports it.
pub fn date_outcome(parsed: Result<Date, chrono::ParseError>) -> (r: Result<Date, XmlError>)
    ensures
        match parsed {
            Ok(date) => r == Ok::<Date, XmlError>(date),
            Err(_) => r == Err::<Date, XmlError>(XmlError::DateTimeParse),
        },
{
    match parsed {
        Ok(date) => Ok(date),
        Err(_) => Err(XmlError::DateTimeParse),
    }
}

/// The outcome of reading an instant, as the decoder reports it.
pub fn instant_outcome(parsed: Result<Timestamp, chrono::ParseError>) -> (r: Result<Timestamp, XmlError>)
    ensures
        match parsed {
            Ok(instant) => r == Ok::<Timestamp, XmlError>(instant),
            Err(_) => r == Err::<Timestamp, XmlError>(XmlError::DateTimeParse),
        },
{
    match parsed {
        Ok(instant) => Ok(instant),
        Err(_) => Err(XmlError::DateTimeParse),
    }
}

/// Read a whole text as a date of the form year-month-day.
pub fn date_from_text(text: &str) -> (r: Result<Date, XmlError>)
    ensures
        result_view(r) == match date_of_text(text@) {
            Some(d) => Ok::<Date, XmlErrorView>(d),
            None => Err(XmlErrorView::DateTimeParse),
        },
{
    date_outcome(parse_date(text))
}

/// Read the date that the text of the element begins with, if there is an
/// element. What follows the first ten characters is not looked at.
pub fn date_or_none(elem: Option<&Element>) -> (r: Result<Option<Date>, XmlError>)
    ensures
        result_view(r) == date_of(elem.deep_view()),
{
    match elem {
        Some(e) => {
            proof {
                e.lemma_view();
            }
            match date_from_text(date_prefix(e.text.as_str())) {
                Ok(d) => Ok(Some(d)),
                Err(x) => Err(x),
            }
        },
        None => Ok(None),
    }
}

/// Read the text of the element as an instant in the RFC 3339 notation, if
/// there is an element.
pub fn datetime_or_none(elem: Option<&Element>) -> (r: Result<Option<Timestamp>, XmlError>)
    ensures
        result_view(r) == instant_of(elem.deep_view()),
{
    match elem {
        Some(e) => {
            proof {
                e.lemma_view();
            }
            match instant_outcome(parse_instant(e.text.as_str())) {
                Ok(t) => Ok(Some(t)),
                Err(x) => Err(x),
            }
        },
        None => Ok(None),
    }
}

/// Read the text of the element as a value of `T`, if there is an element.
pub fn parse_or_none<T: FromText>(elem: Option<&Element>) -> (r: Result<Option<T>, XmlError>)
    ensures
        result_view(r) == parsed_of::<T>(elem.deep_view()),
{
    match elem {
        Some(e) => {
            proof {
                e.lemma_view();
            }
            match T::from_text(e.text.as_str()) {
                Ok(v) => Ok(Some(v)),
                Err(x) => Err(x),
            }
        },
        None => Ok(None),
    }
}

} // verus!

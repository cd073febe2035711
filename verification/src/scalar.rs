//! Scalar values of the records: decimal numbers, calendar dates and instants.

use vstd::prelude::*;
use chrono::Datelike;
use crate::text::{is_decimal, is_decimal_text};

verus! {

/// A decimal number, kept in the notation in which it was written.
///
/// The text is the decimal notation of a floating-point value: whoever needs
/// the number reads it from the text.
#[derive(Debug, PartialEq, Eq)]
pub struct Decimal {
    text: String,
}

impl Clone for Decimal {
    fn clone(&self) -> (r: Self)
        ensures
            r.deep_view() == self.deep_view(),
    {
        proof {
            use_type_invariant(self);
        }
        Decimal { text: self.text.clone() }
    }
}

impl DeepView for Decimal {
    type V = Seq<char>;

    closed spec fn deep_view(&self) -> Seq<char> {
        self.text@
    }
}

impl Decimal {
    #[verifier::type_invariant]
    spec fn well_formed(self) -> bool {
        is_decimal_text(self.text@)
    }

    /// Accept `text` as a number if it is the decimal notation of one.
    pub fn parse(text: &str) -> (r: Option<Decimal>)
        ensures
            r is Some <==> is_decimal_text(text@),
            r is Some ==> r->0.deep_view() == text@,
    {
        if is_decimal(text) {
            Some(Decimal { text: text.to_owned() })
        } else {
            None
        }
    }

    /// The notation of the number.
    pub fn as_str(&self) -> (r: &str)
        ensures
            r@ == self.deep_view(),
            is_decimal_text(r@),
    {
        proof {
            use_type_invariant(self);
        }
        self.text.as_str()
    }
}

/// A calendar date.
#[derive(Debug, Clone, Copy, PartialEq, Eq, Structural)]
pub struct Date {
    pub year: i32,
    /// The month, counted from 1.
    pub month: u32,
    /// The day of the month, counted from 1.
    pub day: u32,
}

impl DeepView for Date {
    type V = Date;

    open spec fn deep_view(&self) -> Date {
        *self
    }
}

/// An instant, counted from the start of 1970 in UTC.
#[derive(Debug, Clone, Copy, PartialEq, Eq, Structural)]
pub struct Timestamp {
    /// Whole seconds, leap seconds not counted.
    pub seconds: i64,
    /// Nanoseconds since the last whole second.
    pub nanos: u32,
}

impl DeepView for Timestamp {
    type V = Timestamp;

    open spec fn deep_view(&self) -> Timestamp {
        *self
    }
}

/// `chrono::ParseError`: why a text is no date or no instant. The library
/// looks at no detail of it.
#[verifier::external_type_specification]
#[verifier::external_body]
pub struct ExParseError(chrono::ParseError);

/// The date that a text of the form year-month-day denotes, if it denotes one.
pub uninterp spec fn date_of_text(text: Seq<char>) -> Option<Date>;

/// The instant that a text in the RFC 3339 notation denotes, if it denotes one.
pub uninterp spec fn instant_of_text(text: Seq<char>) -> Option<Timestamp>;

/// `chrono::NaiveDate::parse_from_str` with the format `%Y-%m-%d`: the date that
/// the text denotes, handed back as year, month and day, or the parser's error.
#[verifier::external_body]
pub(crate) fn parse_date(text: &str) -> (r: Result<Date, chrono::ParseError>)
    ensures
        match r {
            Ok(date) => date_of_text(text@) == Some(date),
            Err(_) => date_of_text(text@) is None,
        },
{
    match chrono::NaiveDate::parse_from_str(text, "%Y-%m-%d") {
        Ok(d) => Ok(Date { year: d.year(), month: d.month(), day: d.day() }),
        Err(e) => Err(e),
    }
}

/// `chrono::DateTime::parse_from_rfc3339`: the instant that the text denotes,
/// handed back as seconds and nanoseconds since the start of 1970 in UTC, or the
/// parser's error.
#[verifier::external_body]
pub(crate) fn parse_instant(text: &str) -> (r: Result<Timestamp, chrono::ParseError>)
    ensures
        match r {
            Ok(instant) => instant_of_text(text@) == Some(instant),
            Err(_) => instant_of_text(text@) is None,
        },
{
    match chrono::DateTime::parse_from_rfc3339(text) {
        Ok(t) => Ok(Timestamp { seconds: t.timestamp(), nanos: t.timestamp_subsec_nanos() }),
        Err(e) => Err(e),
    }
}

} // verus!

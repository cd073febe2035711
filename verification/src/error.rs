//! Error values of the decoder and their mathematical views.

use vstd::prelude::*;

verus! {

/// A commodity classification code that breaks the rules of the taxonomy.
#[derive(Debug, Clone, Copy, PartialEq, Eq, Structural)]
pub enum ProductError {
    /// A code of the next level is mandatory and was not given.
    NoSubProduct,
    /// A code is not in its table, or a further code was given where none is allowed.
    BadSubProduct,
    /// A sub-product code was given for a base product that stands alone.
    BadProduct,
}

impl DeepView for ProductError {
    type V = ProductError;

    open spec fn deep_view(&self) -> ProductError {
        *self
    }
}

/// Why an element could not be decoded.
#[derive(Debug, Clone, PartialEq, Eq)]
pub enum XmlError {
    /// The tokenizer rejected the input.
    Malformed,
    /// The input ended inside an element.
    UnexpectedEof,
    /// Text is not a 32-bit integer.
    IntParse,
    /// Text is not a decimal number.
    FloatParse,
    /// Text is neither `true` nor `false`.
    BoolParse,
    /// Text is neither a date nor a date and time of the expected form.
    DateTimeParse,
    /// A required child element is absent.
    ElementNotFound,
    /// A child element carries a tag that the record does not know.
    UnexpectedElement,
    /// A required attribute is absent.
    AttributeNotFound,
    /// An element has no text where some was expected.
    TextNotFound,
    /// Text is not one of the codes of a closed enumeration; holds the text.
    EnumParse(String),
    /// The commodity classification codes break the taxonomy.
    Product(ProductError),
}

/// Mathematical view of an [`XmlError`].
pub ghost enum XmlErrorView {
    Malformed,
    UnexpectedEof,
    IntParse,
    FloatParse,
    BoolParse,
    DateTimeParse,
    ElementNotFound,
    UnexpectedElement,
    AttributeNotFound,
    TextNotFound,
    EnumParse(Seq<char>),
    Product(ProductError),
}

impl DeepView for XmlError {
    type V = XmlErrorView;

    open spec fn deep_view(&self) -> XmlErrorView {
        match self {
            XmlError::Malformed => XmlErrorView::Malformed,
            XmlError::UnexpectedEof => XmlErrorView::UnexpectedEof,
            XmlError::IntParse => XmlErrorView::IntParse,
            XmlError::FloatParse => XmlErrorView::FloatParse,
            XmlError::BoolParse => XmlErrorView::BoolParse,
            XmlError::DateTimeParse => XmlErrorView::DateTimeParse,
            XmlError::ElementNotFound => XmlErrorView::ElementNotFound,
            XmlError::UnexpectedElement => XmlErrorView::UnexpectedElement,
            XmlError::AttributeNotFound => XmlErrorView::AttributeNotFound,
            XmlError::TextNotFound => XmlErrorView::TextNotFound,
            XmlError::EnumParse(code) => XmlErrorView::EnumParse(code@),
            XmlError::Product(e) => XmlErrorView::Product(*e),
        }
    }
}

/// View of a decoding outcome: the view of the value, or the view of the error.
pub open spec fn result_view<T: DeepView>(r: Result<T, XmlError>) -> Result<T::V, XmlErrorView> {
    match r {
        Ok(v) => Ok(v.deep_view()),
        Err(e) => Err(e.deep_view()),
    }
}

} // verus!

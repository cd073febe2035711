//! Typed decoding of FIRDS reference data.
//!
//! FIRDS, the Financial Instruments Reference Data System, is published as
//! large XML documents with one record for each instrument on each trading
//! venue. This library turns such a document into typed records:
//!
//! - [`events`] hands out the events of a document one by one, from a
//!   tokenizer or from memory;
//! - [`iter_xml`] materializes the elements with the tag names of interest as
//!   trees ([`element`]), and passes over everything else;
//! - [`from_xml`] decodes the records of [`model`] from such trees, with the
//!   scalars of [`scalar`] and [`parse_utils`], the enumerations of
//!   [`categories`] and the commodity classification of [`product`];
//! - [`records`] puts the two together into the stream of the reference data
//!   records of a document;
//! - [`document`] states what materializing does to a tree that is written
//!   out as events.
//!
//! Around that, [`download`], [`search`] and [`json`] read the results of a
//! search for published files, and [`validity`] keeps the period for which a
//! record was the latest one of its instrument.
//!
//! Every function states what it returns over the mathematical views of its
//! arguments: a sequence of characters for a text, a tree of such views for an
//! element, and so on.

pub mod text;
pub mod error;
pub mod element;
pub mod events;
pub mod iter_xml;
pub mod document;
pub mod coded;
pub mod categories;
pub mod product;
pub mod scalar;
pub mod model;
pub mod parse_utils;
pub mod from_xml;
pub mod records;
pub mod json;
pub mod download;
pub mod search;
pub mod validity;

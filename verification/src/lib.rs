//! Expansion of tutorial directives embedded in book text.
//!
//! A directive is a `{{#name arguments}}` token in a chapter. Each one is
//! replaced by a link or a block that points at the tutorial's code as of a
//! given step, at the API documentation, or at the reference manual.
//!
//! - [`step`]: the steps of the tutorial, their text and their order.
//! - [`source_link`] and [`manual_link`]: the two small languages in which
//!   a directive writes a link.
//! - [`directive`]: the kinds of directive and the reading of an occurrence.
//! - [`render`]: what each directive is replaced by.
//! - [`engine`]: finding the occurrences in a text and putting the text
//!   together again.
//! - [`lines`]: the choice of lines from a file.
//! - [`host`]: the comparison of the host's version.
//! - [`pattern`], [`decimal`], [`text`]: searching, numbers and strings.

pub mod decimal;
pub mod directive;
pub mod engine;
pub mod error;
pub mod host;
pub mod lines;
pub mod manual_link;
pub mod pattern;
pub mod render;
pub mod source_link;
pub mod step;
pub mod text;

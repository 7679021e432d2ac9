//! Headlines: the view-model of a small news reader.
//!
//! The library holds the list of news cards, says which widgets a frame shows
//! and in what order, and describes the fonts the reader wants. A host
//! application feeds the resulting plans to its GUI toolkit.

pub mod decimal;
pub mod card;
pub mod draw;
pub mod fonts;

pub mod reader;
pub mod render;

pub use crate::card::NewsCardData;
pub use crate::reader::Headlines;

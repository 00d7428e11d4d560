//! Client-side core of a paginated hypertext browser: lazy search-result
//! sequences, incrementally hydrated articles, and the query/locator
//! construction they rely on.
//!
//! Network transport and HTML parsing live outside this crate; everything
//! here works on plain values handed in by that outer layer.

pub mod article;
pub mod encode;
pub mod error;
pub mod explorer;
pub mod locator;
pub mod paging;
pub mod tag;

pub use encode::percent_encode;
pub use error::Error;
pub use paging::pages_needed;

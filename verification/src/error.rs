//! Failure taxonomy of the client core.

use vstd::prelude::*;

verus! {

/// Every fallible operation of this crate reports one of these classes.
///
/// `Transport` covers network-level failures surfaced by the outer fetch
/// layer; `Parse` a document that lacks a field the site is expected to
/// provide (or provides one that breaks an invariant); `Index` a request
/// for an image position the article does not hold; `Uri` a locator or
/// query that cannot form a valid request target.
#[derive(Clone, Copy, Debug, PartialEq, Eq, Structural)]
pub enum Error {
    Transport,
    Parse,
    Index,
    Uri,
}

} // verus!

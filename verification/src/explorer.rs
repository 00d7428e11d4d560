//! The lazy search-result sequence.
//!
//! A `Page` tracks one search: which results page the next advancement
//! will fetch, whether a fetch is outstanding (at most one per sequence),
//! and the total result count the site last reported. The fetch itself is
//! a suspension point owned by the outer transport layer; that layer
//! drives the sequence through `begin_fetch`, `complete_success` and
//! `complete_failure`, and every position decision is verified here.
//! A failed fetch never advances the position, so the caller may retry
//! the identical page.

use vstd::prelude::*;
use vstd::string::StringSliceAdditionalSpecFns;
use crate::encode::spec_percent_encode;
use crate::locator::page_query;
use crate::locator::search_query;
use crate::locator::spec_decimal;
use crate::paging::pages_needed;
use crate::paging::spec_pages_needed;

verus! {

/// How many result summaries one search-results page holds.
pub const ARTICLES_PER_PAGE: usize = 25;

/// A lazy, restartable sequence of search-result batches, one site page
/// per advancement. Construction performs no fetch; the first
/// advancement does.
pub struct Page {
    /// The page the next advancement fetches.
    pub page: usize,
    /// The total result count the site last reported; `None` until a
    /// page has been fetched successfully.
    pub results: Option<usize>,
    /// The encoded search filter. Immutable for the sequence's life.
    pub query: String,
    /// Whether a fetch is outstanding. At most one ever is.
    pub pending: bool,
}

impl Page {
    /// The state after skipping `n` pages without I/O: the position
    /// moves forward, any in-flight fetch is discarded, everything
    /// else is kept.
    pub open spec fn spec_skip(self, n: usize) -> Page
        recommends
            self.page + n <= usize::MAX,
    {
        Page { page: (self.page + n) as usize, pending: false, ..self }
    }

    /// A fresh sequence positioned at `page`, idle, with no result
    /// count known yet.
    pub fn new(page: usize, query: String) -> (r: Page)
        ensures
            r.page == page,
            r.results is None,
            r.query@ == query@,
            !r.pending,
    {
        Page { page, results: None, query, pending: false }
    }

    /// The total result count the site last reported, if any page has
    /// been fetched successfully yet.
    pub fn results(&self) -> (r: Option<usize>)
        ensures
            r == self.results,
    {
        self.results
    }

    /// The number of search-results pages, derived from the reported
    /// result count; `None` until a count is known. A count of zero
    /// yields zero pages.
    pub fn len(&self) -> (r: Option<usize>)
        ensures
            (r is Some) == (self.results is Some),
            r matches Some(c) ==> self.results matches Some(n) && c == spec_pages_needed(
                n as nat,
                ARTICLES_PER_PAGE as nat,
            ),
    {
        match self.results {
            Some(n) => Some(pages_needed(n, ARTICLES_PER_PAGE)),
            None => None,
        }
    }

    /// The page the next advancement fetches.
    pub fn page(&self) -> (r: usize)
        ensures
            r == self.page,
    {
        self.page
    }

    /// Advance the starting position by `n` pages without any I/O,
    /// discarding any in-flight fetch.
    pub fn skip(self, n: usize) -> (r: Page)
        requires
            self.page + n <= usize::MAX,
        ensures
            r == self.spec_skip(n),
            r.page == self.page + n,
            r.results == self.results,
            r.query@ == self.query@,
            !r.pending,
    {
        let mut s = self;
        s.page = s.page + n;
        s.pending = false;
        s
    }

    /// The query-string target the next advancement requests:
    /// `?page=<current page>&<filter>`.
    pub fn fetch_query(&self) -> (res: String)
        ensures
            res@ == "?page="@ + spec_decimal(self.page as nat) + "&"@ + self.query@,
    {
        page_query(self.page, self.query.as_str())
    }

    /// Note that a fetch of the current page has been started. A no-op
    /// while one is already outstanding: the sequence is single-flight.
    /// Says whether a new fetch must actually be issued.
    pub fn begin_fetch(&mut self) -> (started: bool)
        ensures
            started == !old(self).pending,
            final(self).pending,
            final(self).page == old(self).page,
            final(self).results == old(self).results,
            final(self).query@ == old(self).query@,
    {
        let started = !self.pending;
        self.pending = true;
        started
    }

    /// Record a successful fetch and parse of the current page: the
    /// position advances by one and the reported result count replaces
    /// the tracked total (the site may legitimately revise it between
    /// pages; the last report wins).
    pub fn complete_success(&mut self, result_count: usize)
        requires
            old(self).pending,
            old(self).page < usize::MAX,
        ensures
            !final(self).pending,
            final(self).page == old(self).page + 1,
            final(self).results == Some(result_count),
            final(self).query@ == old(self).query@,
    {
        self.pending = false;
        self.page = self.page + 1;
        self.results = Some(result_count);
    }

    /// Record a failed fetch or parse: the sequence returns to idle at
    /// the same position, so the next advancement retries the
    /// identical page, and the tracked result count is kept.
    pub fn complete_failure(&mut self)
        requires
            old(self).pending,
        ensures
            !final(self).pending,
            final(self).page == old(self).page,
            final(self).results == old(self).results,
            final(self).query@ == old(self).query@,
    {
        self.pending = false;
    }
}

/// Start a search: a fresh sequence at page zero whose filter is the
/// percent-encoded keyword.
pub fn search(keyword: &str) -> (r: Page)
    ensures
        r.page == 0,
        r.results is None,
        !r.pending,
        r.query@ == "f_search="@ + spec_percent_encode(keyword.spec_bytes()),
{
    Page::new(0, search_query(keyword))
}

/// Skipping `k` pages and then advancing fetches exactly page
/// `start + k`; for `k >= 1` that is never the starting page itself.
pub proof fn lemma_skip_then_fetch(p: Page, k: usize)
    requires
        p.page + k <= usize::MAX,
    ensures
        p.spec_skip(k).page == p.page + k,
        k >= 1 ==> p.spec_skip(k).page != p.page,
{
}

} // verus!

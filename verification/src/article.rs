//! Articles and their incremental hydration.
//!
//! An article is resolved from one fetched document (metadata, the first
//! page of image locators, the first page of comments) and completed on
//! demand: image locators are appended page by page, comments are
//! replaced wholesale by the full listing. The fetching itself lives in
//! the outer transport layer; every state decision and every mutation of
//! the accumulated data stands here, verified.

use vstd::prelude::*;
use crate::error::Error;
use crate::paging::pages_needed;
use crate::paging::spec_pages_needed;
use crate::tag::TagMap;

verus! {

/// How many image locators one pagination sub-page of an article holds.
pub const IMAGES_PER_PAGE: usize = 40;

/// The content category of an article.
#[derive(Clone, Copy, Debug, PartialEq, Eq, Structural)]
pub enum ArticleKind {
    Doujinshi,
    Manga,
    ArtistCg,
    GameCg,
    Western,
    NonH,
    ImageSet,
    Cosplay,
    AsianPorn,
    Misc,
}

/// One search-result entry as listed on a results page.
#[derive(Debug, Clone)]
pub struct ResultSummary {
    pub path: String,
    pub title: String,
    pub thumb: String,
    pub tags: TagMap,
}

/// The fields of an article that a result listing already shows.
#[derive(Debug, Clone)]
pub struct DraftMeta {
    pub kind: ArticleKind,
    pub thumb: String,
    pub posted: String,
    pub path: String,
    pub title: String,
    pub tags: TagMap,
    pub uploader: String,
    pub length: usize,
}

/// A lightweight view of an article before full resolution.
pub struct Draft {
    pub meta: DraftMeta,
}

impl Draft {
    pub fn new(meta: DraftMeta) -> (r: Draft)
        ensures
            r.meta == meta,
    {
        Draft { meta }
    }

    pub fn meta(&self) -> (r: &DraftMeta)
        ensures
            *r == self.meta,
    {
        &self.meta
    }
}

/// The full metadata of a resolved article. Immutable once parsed.
#[derive(Debug, Clone)]
pub struct ArticleMeta {
    pub path: String,
    pub title: String,
    pub original_title: String,
    pub kind: ArticleKind,
    pub thumb: String,
    pub uploader: String,
    pub posted: String,
    pub parent: Option<String>,
    pub visible: bool,
    pub language: String,
    pub translated: bool,
    pub file_size: String,
    /// Total number of content pages the article has.
    pub length: usize,
    pub favorited: usize,
    pub rating_count: usize,
    /// Average rating in thousandths of a star.
    pub rating_milli: u64,
    pub tags: TagMap,
}

/// The tally attached to a scored comment.
#[derive(Debug, Clone)]
pub struct Vote {
    pub score: i64,
    pub voters: Vec<(String, i64)>,
    pub omitted: usize,
}

/// One comment under an article. `vote` is `None` exactly when the
/// comment is the uploader's own, which the site lists without a score.
#[derive(Debug, Clone)]
pub struct Comment {
    pub posted: String,
    pub edited: Option<String>,
    pub vote: Option<Vote>,
    pub writer: String,
    pub content: String,
}

impl Comment {
    /// The comment's score, or `None` for an uploader comment.
    pub fn score(&self) -> (r: Option<i64>)
        ensures
            r == match self.vote {
                Some(v) => Some(v.score),
                None => None,
            },
    {
        match &self.vote {
            Some(v) => Some(v.score),
            None => None,
        }
    }

    /// The named voters and their deltas, or `None` for an uploader
    /// comment.
    pub fn voters(&self) -> (r: Option<&Vec<(String, i64)>>)
        ensures
            (r is Some) == (self.vote is Some),
            r matches Some(w) ==> self.vote matches Some(v) && w@ == v.voters@,
    {
        match &self.vote {
            Some(v) => Some(&v.voters),
            None => None,
        }
    }

    /// How many voters the site left unnamed, or `None` for an
    /// uploader comment.
    pub fn omitted_voter(&self) -> (r: Option<usize>)
        ensures
            r == match self.vote {
                Some(v) => Some(v.omitted),
                None => None,
            },
    {
        match &self.vote {
            Some(v) => Some(v.omitted),
            None => None,
        }
    }
}

/// A fully- or partially-hydrated article: metadata, the image page
/// locators accumulated so far, and the currently-known comments.
pub struct Article {
    pub meta: ArticleMeta,
    pub links: Vec<String>,
    pub comments: Vec<Comment>,
}

impl Article {
    /// The image page locators accumulated so far, as text.
    pub open spec fn spec_links(&self) -> Seq<Seq<char>> {
        self.links.deep_view()
    }

    /// The accumulated locators never outnumber the article's content
    /// pages.
    pub open spec fn wf(&self) -> bool {
        self.links@.len() <= self.meta.length
    }

    /// Whether every content page's image locator is already present;
    /// once true, further image loading is a no-op.
    pub open spec fn spec_fully_loaded(&self) -> bool {
        self.links@.len() >= self.meta.length
    }

    /// The index of the pagination sub-page the loader would fetch
    /// next, recomputed from how many locators are already present:
    /// `None` once the article is fully loaded.
    pub open spec fn spec_next_image_page(&self) -> Option<nat> {
        if self.spec_fully_loaded() {
            None
        } else {
            Some(spec_pages_needed(self.links@.len(), IMAGES_PER_PAGE as nat))
        }
    }

    /// Assemble an article from one parsed document: its metadata, the
    /// first page's image locators, and the first page of comments.
    /// A document listing more locators than the article has content
    /// pages is malformed and is rejected as a parse failure.
    pub fn assemble(meta: ArticleMeta, links: Vec<String>, comments: Vec<Comment>) -> (r: Result<
        Article,
        Error,
    >)
        ensures
            links@.len() <= meta.length ==> (r matches Ok(a) && a.meta == meta && a.links@
                == links@ && a.comments@ == comments@ && a.wf()),
            links@.len() > meta.length ==> r == Err::<Article, Error>(Error::Parse),
    {
        if links.len() <= meta.length {
            Ok(Article { meta, links, comments })
        } else {
            Err(Error::Parse)
        }
    }

    pub fn meta(&self) -> (r: &ArticleMeta)
        ensures
            *r == self.meta,
    {
        &self.meta
    }

    /// The currently-known comments, in site order.
    pub fn comments(&self) -> (r: &Vec<Comment>)
        ensures
            r@ == self.comments@,
    {
        &self.comments
    }

    /// The image page locators accumulated so far, in content-page
    /// order.
    pub fn image_page_locators(&self) -> (r: &Vec<String>)
        ensures
            r@ == self.links@,
    {
        &self.links
    }

    /// Whether every content page's image locator is already present.
    pub fn fully_loaded(&self) -> (r: bool)
        ensures
            r == self.spec_fully_loaded(),
    {
        self.links.len() >= self.meta.length
    }

    /// Which pagination sub-page the image loader must fetch next, or
    /// `None` once the article is fully loaded. Recomputed from the
    /// current locator count, so a re-run after a partial failure
    /// resumes instead of duplicating.
    pub fn next_image_page(&self) -> (r: Option<usize>)
        ensures
            (r is None) == self.spec_fully_loaded(),
            r matches Some(p) ==> Some(p as nat) == self.spec_next_image_page(),
    {
        if self.links.len() >= self.meta.length {
            None
        } else {
            Some(pages_needed(self.links.len(), IMAGES_PER_PAGE))
        }
    }

    /// Append one fetched sub-page's image locators, in page order.
    /// A page that would push the count past the article's length is
    /// malformed and is rejected without touching the accumulated
    /// state.
    pub fn append_image_page(&mut self, page: Vec<String>) -> (r: Result<(), Error>)
        requires
            old(self).wf(),
        ensures
            final(self).wf(),
            final(self).meta == old(self).meta,
            final(self).comments@ == old(self).comments@,
            page@.len() + old(self).links@.len() <= old(self).meta.length ==> r is Ok
                && final(self).links@ == old(self).links@ + page@,
            page@.len() + old(self).links@.len() > old(self).meta.length ==> r == Err::<
                (),
                Error,
            >(Error::Parse) && final(self).links@ == old(self).links@,
    {
        let mut page = page;
        if page.len() <= self.meta.length - self.links.len() {
            self.links.append(&mut page);
            Ok(())
        } else {
            Err(Error::Parse)
        }
    }

    /// Replace the comments wholesale with a freshly fetched full
    /// listing; metadata and image locators stay untouched.
    pub fn replace_comments(&mut self, comments: Vec<Comment>)
        ensures
            final(self).comments@ == comments@,
            final(self).meta == old(self).meta,
            final(self).links@ == old(self).links@,
    {
        self.comments = comments;
    }

    /// The locator of the image viewer page at `index`, or an index
    /// failure when `index` is out of range — asked before any fetch,
    /// so an out-of-range request costs no round trip.
    pub fn image_page_locator(&self, index: usize) -> (r: Result<&String, Error>)
        ensures
            index < self.links@.len() ==> (r matches Ok(s) && s@ == self.spec_links()[
                index as int
            ]),
            index >= self.links@.len() ==> r == Err::<&String, Error>(Error::Index),
    {
        if index < self.links.len() {
            Ok(&self.links[index])
        } else {
            Err(Error::Index)
        }
    }
}

/// Once every image page locator is present, the loader asks for no
/// further sub-page: a repeated full-image load performs zero fetches
/// and leaves the locator list unchanged.
pub proof fn lemma_image_load_idempotent(a: Article)
    requires
        a.spec_fully_loaded(),
    ensures
        a.spec_next_image_page() is None,
{
}

/// A failed sub-page fetch appends nothing, so after two pages succeed
/// and a later one fails, the locator list holds exactly the entries it
/// started with, followed by the first page's and then the second
/// page's, in that order.
pub proof fn lemma_partial_progress(
    a0: Article,
    a1: Article,
    a2: Article,
    p1: Seq<String>,
    p2: Seq<String>,
)
    requires
        a1.links@ == a0.links@ + p1,
        a2.links@ == a1.links@ + p2,
    ensures
        a2.links@ == a0.links@ + p1 + p2,
{
}

} // verus!

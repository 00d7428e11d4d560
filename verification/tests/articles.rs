use ehentai::article::Article;
use ehentai::article::ArticleKind;
use ehentai::article::ArticleMeta;
use ehentai::article::Comment;
use ehentai::article::Draft;
use ehentai::article::DraftMeta;
use ehentai::article::Vote;
use ehentai::tag::TagKind;
use ehentai::tag::TagMap;
use ehentai::Error;

fn meta_with_length(length: usize) -> ArticleMeta {
    ArticleMeta {
        path: String::from("/g/1556174/cfe385099d/"),
        title: String::from("a title"),
        original_title: String::from("an original title"),
        kind: ArticleKind::Doujinshi,
        thumb: String::from("https://example.org/thumb.jpg"),
        uploader: String::from("someone"),
        posted: String::from("2020-01-02 03:04"),
        parent: None,
        visible: true,
        language: String::from("Korean"),
        translated: true,
        file_size: String::from("12.3 MiB"),
        length,
        favorited: 5,
        rating_count: 11,
        rating_milli: 4500,
        tags: TagMap::new(),
    }
}

fn locators(prefix: &str, n: usize) -> Vec<String> {
    let mut v = Vec::new();
    let mut i = 0;
    while i < n {
        v.push(format!("{}-{}", prefix, i));
        i += 1;
    }
    v
}

// Mirrors the transport driver: fetch sub-pages until the article is
// fully loaded, taking each page from `pages` in order; the page at
// position `fail_at` (if any) fails instead of appending.
fn drive_image_load(
    article: &mut Article,
    pages: &mut Vec<Vec<String>>,
    fail_at: Option<usize>,
) -> Result<usize, Error> {
    let mut fetches = 0;
    while let Some(index) = article.next_image_page() {
        if fail_at == Some(index) {
            return Err(Error::Transport);
        }
        let page = pages.remove(0);
        fetches += 1;
        article.append_image_page(page)?;
    }
    Ok(fetches)
}

#[test]
fn assemble_accepts_a_consistent_document() {
    let article = Article::assemble(meta_with_length(3), locators("p0", 3), Vec::new()).unwrap();
    assert!(article.fully_loaded());
    assert_eq!(article.meta().length, 3);
}

#[test]
fn assemble_rejects_excess_locators() {
    let r = Article::assemble(meta_with_length(2), locators("p0", 3), Vec::new());
    assert_eq!(r.err(), Some(Error::Parse));
}

#[test]
fn forty_one_pages_need_one_extra_fetch() {
    // An article of 41 content pages resolves with the first 40
    // locators and needs ceil(41 / 40) - 1 = 1 further fetch.
    let mut article =
        Article::assemble(meta_with_length(41), locators("p0", 40), Vec::new()).unwrap();
    assert_eq!(article.next_image_page(), Some(1));

    let mut pages = vec![locators("p1", 1)];
    let fetches = drive_image_load(&mut article, &mut pages, None).unwrap();
    assert_eq!(fetches, 1);
    assert!(article.fully_loaded());
    assert_eq!(article.image_page_locators().len(), 41);
}

#[test]
fn repeated_load_performs_no_fetch() {
    let mut article =
        Article::assemble(meta_with_length(41), locators("p0", 40), Vec::new()).unwrap();
    let mut pages = vec![locators("p1", 1)];
    drive_image_load(&mut article, &mut pages, None).unwrap();
    let before: Vec<String> = article.image_page_locators().clone();

    // A second full load finds the article complete: zero fetches,
    // locators unchanged.
    let fetches = drive_image_load(&mut article, &mut Vec::new(), None).unwrap();
    assert_eq!(fetches, 0);
    assert_eq!(article.image_page_locators(), &before);
}

#[test]
fn failure_keeps_the_successful_prefix() {
    // 200 content pages: the resolve brought page 0 (40 locators) and
    // four more sub-pages are needed. The third sub-page fails.
    let mut article =
        Article::assemble(meta_with_length(200), locators("p0", 40), Vec::new()).unwrap();
    let mut pages = vec![locators("p1", 40), locators("p2", 40)];
    let r = drive_image_load(&mut article, &mut pages, Some(3));
    assert_eq!(r, Err(Error::Transport));

    // Exactly the page-0 entries plus pages 1 and 2 remain, in order.
    let mut expected = locators("p0", 40);
    expected.extend(locators("p1", 40));
    expected.extend(locators("p2", 40));
    assert_eq!(article.image_page_locators(), &expected);
    assert!(!article.fully_loaded());

    // The retry resumes at sub-page 3 rather than starting over.
    assert_eq!(article.next_image_page(), Some(3));
    let mut rest = vec![locators("p3", 40), locators("p4", 40)];
    let fetches = drive_image_load(&mut article, &mut rest, None).unwrap();
    assert_eq!(fetches, 2);
    assert!(article.fully_loaded());
    assert_eq!(article.image_page_locators().len(), 200);
}

#[test]
fn oversized_sub_page_is_a_parse_error() {
    let mut article =
        Article::assemble(meta_with_length(41), locators("p0", 40), Vec::new()).unwrap();
    let r = article.append_image_page(locators("p1", 2));
    assert_eq!(r, Err(Error::Parse));
    assert_eq!(article.image_page_locators().len(), 40);
}

#[test]
fn out_of_range_image_index_fails_without_fetching() {
    let article =
        Article::assemble(meta_with_length(5), locators("p0", 2), Vec::new()).unwrap();
    assert_eq!(article.image_page_locator(2).err(), Some(Error::Index));
    assert_eq!(article.image_page_locator(usize::MAX).err(), Some(Error::Index));
    assert_eq!(article.image_page_locator(0).ok(), Some(&String::from("p0-0")));
    assert_eq!(article.image_page_locator(1).ok(), Some(&String::from("p0-1")));
}

#[test]
fn comments_are_replaced_wholesale() {
    let first = vec![uploader_comment("hello")];
    let mut article =
        Article::assemble(meta_with_length(5), locators("p0", 2), first).unwrap();
    assert_eq!(article.comments().len(), 1);

    let full = vec![uploader_comment("hello"), scored_comment("second", 3)];
    article.replace_comments(full);
    assert_eq!(article.comments().len(), 2);
    assert_eq!(article.comments()[1].content, "second");
    // Image locators are untouched by a comment reload.
    assert_eq!(article.image_page_locators().len(), 2);
}

fn uploader_comment(content: &str) -> Comment {
    Comment {
        posted: String::from("2020-01-02 03:04"),
        edited: None,
        vote: None,
        writer: String::from("someone"),
        content: String::from(content),
    }
}

fn scored_comment(content: &str, score: i64) -> Comment {
    Comment {
        posted: String::from("2020-01-03 04:05"),
        edited: Some(String::from("2020-01-04 05:06")),
        vote: Some(Vote {
            score,
            voters: vec![(String::from("a"), 1), (String::from("b"), 2)],
            omitted: 4,
        }),
        writer: String::from("else"),
        content: String::from(content),
    }
}

#[test]
fn uploader_comment_has_no_score() {
    let c = uploader_comment("mine");
    assert_eq!(c.score(), None);
    assert!(c.voters().is_none());
    assert_eq!(c.omitted_voter(), None);
}

#[test]
fn scored_comment_reports_its_vote() {
    let c = scored_comment("text", 3);
    assert_eq!(c.score(), Some(3));
    let voters = c.voters().unwrap();
    assert_eq!(voters.len(), 2);
    assert_eq!(voters[0], (String::from("a"), 1));
    assert_eq!(c.omitted_voter(), Some(4));
}

#[test]
fn tag_map_keeps_pairs_unique() {
    let mut tags = TagMap::new();
    tags.add(TagKind::Language, String::from("korean"));
    tags.add(TagKind::Language, String::from("korean"));
    tags.add(TagKind::Artist, String::from("korean"));
    tags.add(TagKind::Artist, String::from("hota."));
    assert_eq!(tags.len(), 3);
    assert!(tags.has(TagKind::Language, &String::from("korean")));
    assert!(tags.has(TagKind::Artist, &String::from("hota.")));
    assert!(!tags.has(TagKind::Parody, &String::from("korean")));
}

#[test]
fn draft_exposes_its_metadata() {
    let draft = Draft::new(DraftMeta {
        kind: ArticleKind::Manga,
        thumb: String::from("https://example.org/t.jpg"),
        posted: String::from("2020-01-02"),
        path: String::from("/g/1/ab/"),
        title: String::from("a title"),
        tags: TagMap::new(),
        uploader: String::from("someone"),
        length: 10,
    });
    assert_eq!(draft.meta().title, "a title");
    assert_eq!(draft.meta().length, 10);
}

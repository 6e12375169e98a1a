use vstd::prelude::*;
use crate::card::card_from_api;
use crate::content::{article_from_api, content_from_api};
use crate::json::{items_in, items_of, text_in, text_of, Json};
use crate::like::{LikedPost, LikedPostView};
use crate::media::{Media, MediaView};
use crate::media_api::media_from_api;
use crate::meta::GlobalVal;
use crate::post::{Article, Card, Content, Post, PostView, QuotePost, QuotePostView};
use crate::text::{same_text};
use crate::numbers::{parse_i64, parsed_i64};
use crate::users::{user_from_api, User};

verus! {

/// Whether a record stands for a post that was deleted.
pub open spec fn is_tombstone(json: Json) -> bool {
    text_of(json.field("__typename"@)) == Some("TweetTombstone"@)
}

/// The post inside a record that wraps it; the record itself where it
/// wraps nothing.
pub open spec fn unwrapped(json: Json) -> Json {
    match json.field("tweet"@) {
        Some(inner) => inner,
        None => json,
    }
}

/// The media among `items` that can be read, in order.
pub open spec fn media_list(items: Seq<Json>, save_dir: Option<Seq<char>>) -> Seq<MediaView>
    decreases items.len(),
{
    if items.len() == 0 {
        Seq::empty()
    } else {
        match media_from_api(items.last(), save_dir) {
            Some(m) => media_list(items.drop_last(), save_dir).push(m),
            None => media_list(items.drop_last(), save_dir),
        }
    }
}

/// The number of a post.
pub open spec fn post_number(json: Json) -> Option<i64> {
    match text_of(json.field("rest_id"@)) {
        Some(text) => parsed_i64(text),
        None => None,
    }
}

/// The author of a post.
pub open spec fn post_author(json: Json, save_dir: Option<Seq<char>>) -> Option<crate::users::UserView> {
    match json.at4("core"@, "user_results"@, "result"@, "legacy"@) {
        Some(legacy) => user_from_api(legacy, save_dir),
        None => None,
    }
}

/// The post that a record of the platform describes, as it stands inside
/// another post; `None` of a tombstone and of a record without number,
/// author, date or text.
pub open spec fn quote_from_api(json: Json, save_dir: Option<Seq<char>>) -> Option<QuotePostView> {
    let inner = unwrapped(json);
    if is_tombstone(json) {
        None
    } else {
        match (
            post_number(inner),
            post_author(inner, save_dir),
            text_of(inner.at2("legacy"@, "created_at"@)),
            content_from_api(inner),
        ) {
            (Some(rest_id), Some(author), Some(created_at), Some(content)) => Some(
                QuotePostView {
                    rest_id,
                    created_at,
                    author,
                    content,
                    media: match items_of(inner.at3("legacy"@, "extended_entities"@, "media"@)) {
                        Some(items) => Some(media_list(items, save_dir)),
                        None => None,
                    },
                    key_words: None,
                    card: card_from_api(inner),
                    article: match inner.at3("article"@, "article_results"@, "result"@) {
                        Some(a) => article_from_api(a),
                        None => None,
                    },
                },
            ),
            _ => None,
        }
    }
}

/// The post that a record of the platform describes, with the post it
/// quotes where that can be read, and without replies.
pub open spec fn post_from_api(json: Json, save_dir: Option<Seq<char>>) -> Option<PostView> {
    match quote_from_api(json, save_dir) {
        Some(q) => Some(
            PostView {
                quote: match unwrapped(json).at2("quoted_status_result"@, "result"@) {
                    Some(quoted) => quote_from_api(quoted, save_dir),
                    None => None,
                },
                ..q.as_post()
            },
        ),
        None => None,
    }
}

/// The liked post that an entry of a page describes. Its sort index is set
/// when the page is ingested.
pub open spec fn liked_from_api(json: Json, save_dir: Option<Seq<char>>) -> Option<LikedPostView> {
    match json.at4("content"@, "itemContent"@, "tweet_results"@, "result"@) {
        Some(result) => match post_from_api(result, save_dir) {
            Some(post) => Some(LikedPostView { sortidx: 0, post }),
            None => None,
        },
        None => None,
    }
}

fn read_media_list(items: &Vec<Json>, globals: &GlobalVal) -> (r: Vec<Media>)
    ensures
        r.deep_view() == media_list(items@, globals.save_dir.deep_view()),
{
    let ghost dir = globals.save_dir.deep_view();
    let mut r: Vec<Media> = Vec::new();
    let mut i: usize = 0;
    assert(items@.subrange(0, 0) =~= Seq::empty());
    assert(r.deep_view() =~= Seq::empty());
    while i < items.len()
        invariant
            i <= items.len(),
            dir == globals.save_dir.deep_view(),
            r.deep_view() == media_list(items@.subrange(0, i as int), dir),
        decreases items.len() - i,
    {
        let ghost before = r.deep_view();
        assert(items@.subrange(0, i as int + 1).drop_last() =~= items@.subrange(0, i as int));
        assert(items@.subrange(0, i as int + 1).last() == items@[i as int]);
        match Media::from_api(&items[i], globals) {
            Some(m) => {
                r.push(m);
                assert(r.deep_view() =~= before.push(m.deep_view()));
            },
            None => {},
        }
        i += 1;
    }
    assert(items@.subrange(0, items@.len() as int) =~= items@);
    r
}

fn is_deleted(json: &Json) -> (b: bool)
    ensures
        b == is_tombstone(*json),
{
    match text_in(json.get("__typename")) {
        Some(name) => same_text(name, "TweetTombstone"),
        None => false,
    }
}

fn unwrap_post(json: &Json) -> (r: &Json)
    ensures
        *r == unwrapped(*json),
{
    match json.get("tweet") {
        Some(inner) => inner,
        None => json,
    }
}

impl QuotePost {
    /// Reads a post that stands inside another from its record of the
    /// platform.
    pub fn from_api(json: &Json, globals: &GlobalVal) -> (r: Option<QuotePost>)
        ensures
            r.deep_view() == quote_from_api(*json, globals.save_dir.deep_view()),
    {
        if is_deleted(json) {
            return None;
        }
        let inner = unwrap_post(json);
        let rest_id = parse_i64(text_in(inner.get("rest_id"))?)?;
        let author = User::from_api(inner.get4("core", "user_results", "result", "legacy")?, globals)?;
        let created_at = text_in(inner.get2("legacy", "created_at"))?;
        let content = Content::from_api(inner)?;
        let media = match items_in(inner.get3("legacy", "extended_entities", "media")) {
            Some(items) => Some(read_media_list(items, globals)),
            None => None,
        };
        let card = Card::from_api(inner);
        let article = match inner.get3("article", "article_results", "result") {
            Some(a) => Article::from_api(a),
            None => None,
        };
        Some(
            QuotePost {
                rest_id,
                created_at: String::from_str(created_at),
                author,
                content,
                media,
                key_words: None,
                card,
                article,
            },
        )
    }
}

impl Post {
    /// Reads a post from its record of the platform.
    pub fn from_api(json: &Json, globals: &GlobalVal) -> (r: Option<Post>)
        ensures
            r.deep_view() == post_from_api(*json, globals.save_dir.deep_view()),
    {
        let own = QuotePost::from_api(json, globals)?;
        let quote = match unwrap_post(json).get2("quoted_status_result", "result") {
            Some(quoted) => QuotePost::from_api(quoted, globals),
            None => None,
        };
        Some(
            Post {
                rest_id: own.rest_id,
                created_at: own.created_at,
                author: own.author,
                content: own.content,
                media: own.media,
                quote,
                key_words: own.key_words,
                replies: None,
                card: own.card,
                article: own.article,
            },
        )
    }
}

impl LikedPost {
    /// Reads a liked post from an entry of a page.
    pub fn from_api(json: &Json, globals: &GlobalVal) -> (r: Option<LikedPost>)
        ensures
            r.deep_view() == liked_from_api(*json, globals.save_dir.deep_view()),
    {
        let result = json.get4("content", "itemContent", "tweet_results", "result")?;
        let post = Post::from_api(result, globals)?;
        Some(LikedPost { sortidx: 0, post })
    }
}

} // verus!

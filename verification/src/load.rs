use vstd::prelude::*;
use vstd::string::StrSliceExecFns;
use crate::api_models::{TweetData, TweetMetaData};
use crate::asset::{Asset, AssetType, AssetView, FullAssetPath};
use crate::json::{items_in, items_of, text_in, text_of, unsigned_in, unsigned_of, Json};
use crate::like::{LikedPost, LikedPostView};
use crate::media::{AnimatedGifMedia, Media, MediaBase, MediaBaseView, MediaView, PhotoMedia, VideoMedia};
use crate::platform::Platform;
use crate::post::{
    Article, ArticleView, Card, CardView, Content, ContentView, Conversation, ConversationView, Post,
    PostView, QuotePost, QuotePostView, Reply,
};
use crate::text::{lemma_split_all_nonempty, same_text, split_all, split_on};
use crate::numbers::{parse_i64, parse_u32, parsed_i64, parsed_u32};
use crate::users::{User, UserView};

verus! {

/// The name of the file that a path names: what stands after its last
/// slash; none where nothing stands there, or two dots.
pub open spec fn file_name(path: Seq<char>) -> Option<Seq<char>> {
    let last = split_all(path, '/').last();
    if last.len() == 0 || last == ".."@ {
        None
    } else {
        Some(last)
    }
}

pub fn file_name_of(path: &str) -> (r: Option<String>)
    ensures
        r.deep_view() == file_name(path@),
{
    let mut parts = split_on(path, '/');
    proof {
        lemma_split_all_nonempty(path@, '/');
    }
    assert(parts.deep_view().len() == parts@.len());
    assert(parts.deep_view().last() == parts@.last()@);
    let last = parts.pop().unwrap();
    if last.as_str().unicode_len() == 0 || same_text(last.as_str(), "..") {
        None
    } else {
        Some(last)
    }
}

/// The member of an exported record that holds the path of an asset of the
/// kind `ty`.
pub open spec fn path_key(ty: AssetType) -> Seq<char> {
    match ty {
        AssetType::Thumb => "thumb_path"@,
        _ => "path"@,
    }
}

/// The member of an exported record that holds the address of an asset of
/// the kind `ty`.
pub open spec fn url_key(ty: AssetType) -> Seq<char> {
    match ty {
        AssetType::Thumb => "thumb"@,
        _ => "url"@,
    }
}

/// The asset of the kind `ty` that an exported record describes. An
/// exported asset counts as downloaded; it is available unless its path is
/// the marker of a medium that could not be had.
pub open spec fn asset_of(json: Json, ty: AssetType) -> Option<AssetView> {
    match (text_of(json.field(path_key(ty))), text_of(json.field(url_key(ty)))) {
        (Some(path), Some(url)) => match file_name(path) {
            Some(name) => Some(
                AssetView {
                    ty,
                    plat: Platform::Twitter,
                    url,
                    name,
                    path,
                    downloaded: true,
                    available: path != "media unavailable"@,
                },
            ),
            None => None,
        },
        _ => None,
    }
}

pub fn des_asset(json: &Json, ty: AssetType) -> (r: Option<Asset>)
    ensures
        r.deep_view() == asset_of(*json, ty),
{
    let path = match ty {
        AssetType::Thumb => text_in(json.get("thumb_path"))?,
        _ => text_in(json.get("path"))?,
    };
    let name = file_name_of(path)?;
    let url = match ty {
        AssetType::Thumb => text_in(json.get("thumb"))?,
        _ => text_in(json.get("url"))?,
    };
    Some(
        Asset {
            ty,
            plat: Platform::Twitter,
            url: String::from_str(url),
            name,
            path: FullAssetPath(String::from_str(path)),
            downloaded: true,
            available: !same_text(path, "media unavailable"),
        },
    )
}

/// The texts among `items`, in order.
pub open spec fn texts_among(items: Seq<Json>) -> Seq<Seq<char>>
    decreases items.len(),
{
    if items.len() == 0 {
        Seq::empty()
    } else {
        match items.last().text() {
            Some(t) => texts_among(items.drop_last()).push(t),
            None => texts_among(items.drop_last()),
        }
    }
}

/// The texts of the list at the member `key`; none where there is no list.
pub open spec fn text_list(json: Json, key: Seq<char>) -> Option<Seq<Seq<char>>> {
    match items_of(json.field(key)) {
        Some(items) => Some(texts_among(items)),
        None => None,
    }
}

fn read_text_list(json: &Json, key: &str) -> (r: Option<Vec<String>>)
    ensures
        r.deep_view() == text_list(*json, key@),
{
    let items = items_in(json.get(key))?;
    let mut out: Vec<String> = Vec::new();
    let mut i: usize = 0;
    assert(items@.subrange(0, 0) =~= Seq::empty());
    assert(out.deep_view() =~= Seq::empty());
    while i < items.len()
        invariant
            i <= items.len(),
            out.deep_view() == texts_among(items@.subrange(0, i as int)),
        decreases items.len() - i,
    {
        let ghost before = out.deep_view();
        assert(items@.subrange(0, i as int + 1).drop_last() =~= items@.subrange(0, i as int));
        assert(items@.subrange(0, i as int + 1).last() == items@[i as int]);
        match items[i].as_str() {
            Some(t) => {
                out.push(String::from_str(t));
                assert(out.deep_view() =~= before.push(t@));
            },
            None => {},
        }
        i += 1;
    }
    assert(items@.subrange(0, items@.len() as int) =~= items@);
    Some(out)
}

fn read_opt_text(json: &Json, key: &str) -> (r: Option<String>)
    ensures
        r.deep_view() == text_of(json.field(key@)),
{
    match text_in(json.get(key)) {
        Some(t) => Some(String::from_str(t)),
        None => None,
    }
}

pub open spec fn content_of(json: Json) -> Option<ContentView> {
    match (text_of(json.field("lang"@)), text_of(json.field("text"@))) {
        (Some(lang), Some(text)) => Some(
            ContentView {
                lang,
                text,
                translation: text_of(json.field("translation"@)),
                expanded_urls: text_list(json, "expanded_urls"@),
            },
        ),
        _ => None,
    }
}

pub fn des_content(json: &Json) -> (r: Option<Content>)
    ensures
        r.deep_view() == content_of(*json),
{
    let lang = text_in(json.get("lang"))?;
    let text = text_in(json.get("text"))?;
    Some(
        Content {
            lang: String::from_str(lang),
            text: String::from_str(text),
            translation: read_opt_text(json, "translation"),
            expanded_urls: read_text_list(json, "expanded_urls"),
        },
    )
}

pub open spec fn card_of_export(json: Json) -> Option<CardView> {
    match text_of(json.field("url"@)) {
        Some(url) => Some(
            CardView {
                title: text_of(json.field("title"@)),
                description: text_of(json.field("description"@)),
                url,
            },
        ),
        None => None,
    }
}

pub fn des_card(json: &Json) -> (r: Option<Card>)
    ensures
        r.deep_view() == card_of_export(*json),
{
    let url = text_in(json.get("url"))?;
    Some(
        Card {
            title: read_opt_text(json, "title"),
            description: read_opt_text(json, "description"),
            url: String::from_str(url),
        },
    )
}

pub open spec fn article_of(json: Json) -> Option<ArticleView> {
    match (text_of(json.field("id"@)), text_of(json.field("title"@)), text_of(json.field("url"@))) {
        (Some(id), Some(title), Some(url)) => Some(
            ArticleView { id, title, description: text_of(json.field("description"@)), url },
        ),
        _ => None,
    }
}

pub fn des_article(json: &Json) -> (r: Option<Article>)
    ensures
        r.deep_view() == article_of(*json),
{
    let id = text_in(json.get("id"))?;
    let title = text_in(json.get("title"))?;
    let url = text_in(json.get("url"))?;
    Some(
        Article {
            id: String::from_str(id),
            title: String::from_str(title),
            description: read_opt_text(json, "description"),
            url: String::from_str(url),
        },
    )
}

pub open spec fn user_of_export(json: Json) -> Option<UserView> {
    match (
        text_of(json.field("screen_name"@)),
        text_of(json.field("name"@)),
        json.field("avatar"@),
    ) {
        (Some(id), Some(name), Some(picture)) => match asset_of(picture, AssetType::Avatar) {
            Some(avatar) => Some(UserView { id, name, avatar }),
            None => None,
        },
        _ => None,
    }
}

pub fn des_user(json: &Json) -> (r: Option<User>)
    ensures
        r.deep_view() == user_of_export(*json),
{
    let id = text_in(json.get("screen_name"))?;
    let name = text_in(json.get("name"))?;
    let avatar = des_asset(json.get("avatar")?, AssetType::Avatar)?;
    Some(User { id: String::from_str(id), name: String::from_str(name), avatar })
}

/// A width or height of an exported medium, cut to 32 bits; the member has
/// to be there, its number need not.
pub open spec fn size_of(json: Json, key: Seq<char>) -> Option<Option<u32>> {
    match json.field(key) {
        Some(v) => Some(
            match v.unsigned() {
                Some(n) => Some(n as u32),
                None => None,
            },
        ),
        None => None,
    }
}

pub open spec fn base_of(json: Json) -> Option<MediaBaseView> {
    match (
        text_of(json.field("id"@)),
        asset_of(json, AssetType::Media),
        size_of(json, "width"@),
        size_of(json, "height"@),
    ) {
        (Some(id), Some(asset), Some(width), Some(height)) => Some(
            MediaBaseView {
                id,
                asset,
                description: text_of(json.field("description"@)),
                width,
                height,
            },
        ),
        _ => None,
    }
}

/// One number of an aspect ratio, cut to 32 bits; zero where the element is
/// no number.
pub open spec fn ratio_part(value: Json) -> u32 {
    match value.unsigned() {
        Some(n) => n as u32,
        None => 0,
    }
}

/// The aspect ratio of an exported medium: the first two numbers of its
/// list, or zeros where the list is shorter.
pub open spec fn ratio_of(json: Json) -> Option<(u32, u32)> {
    match items_of(json.field("aspect_ratio"@)) {
        Some(list) => if list.len() >= 2 {
            Some((ratio_part(list[0]), ratio_part(list[1])))
        } else {
            Some((0u32, 0u32))
        },
        None => None,
    }
}

/// The medium that an exported record describes; `None` of an unknown kind
/// and of a record that lacks what its kind needs.
pub open spec fn media_of_export(json: Json) -> Option<MediaView> {
    match text_of(json.field("type"@)) {
        Some(kind) => if kind == "photo"@ {
            match base_of(json) {
                Some(base) => Some(MediaView::Photo { base }),
                None => None,
            }
        } else if kind == "video"@ {
            match (
                base_of(json),
                ratio_of(json),
                asset_of(json, AssetType::Thumb),
                unsigned_of(json.field("duration_millis"@)),
            ) {
                (Some(base), Some(aspect_ratio), Some(thumb), Some(duration)) => Some(
                    MediaView::Video { base, aspect_ratio, thumb, duration_millis: duration as u32 },
                ),
                _ => None,
            }
        } else if kind == "animated_gif"@ {
            match (base_of(json), ratio_of(json), asset_of(json, AssetType::Thumb)) {
                (Some(base), Some(aspect_ratio), Some(thumb)) => Some(
                    MediaView::AnimatedGif { base, aspect_ratio, thumb },
                ),
                _ => None,
            }
        } else {
            None
        },
        None => None,
    }
}

fn read_size(json: &Json, key: &str) -> (r: Option<Option<u32>>)
    ensures
        r == size_of(*json, key@),
{
    match json.get(key) {
        Some(v) => Some(
            match v.as_u64() {
                Some(n) => Some(#[verifier::truncate] (n as u32)),
                None => None,
            },
        ),
        None => None,
    }
}

fn read_base(json: &Json) -> (r: Option<MediaBase>)
    ensures
        r.deep_view() == base_of(*json),
{
    let id = text_in(json.get("id"))?;
    let asset = des_asset(json, AssetType::Media)?;
    let width = read_size(json, "width")?;
    let height = read_size(json, "height")?;
    Some(
        MediaBase {
            id: String::from_str(id),
            asset,
            description: read_opt_text(json, "description"),
            width,
            height,
        },
    )
}

fn read_ratio_part(value: &Json) -> (r: u32)
    ensures
        r == ratio_part(*value),
{
    match value.as_u64() {
        Some(n) => #[verifier::truncate] (n as u32),
        None => 0,
    }
}

fn read_ratio(json: &Json) -> (r: Option<(u32, u32)>)
    ensures
        r == ratio_of(*json),
{
    let list = items_in(json.get("aspect_ratio"))?;
    if list.len() >= 2 {
        Some((read_ratio_part(&list[0]), read_ratio_part(&list[1])))
    } else {
        Some((0, 0))
    }
}

pub fn des_media(json: &Json) -> (r: Option<Media>)
    ensures
        r.deep_view() == media_of_export(*json),
{
    let kind = text_in(json.get("type"))?;
    if same_text(kind, "photo") {
        let base = read_base(json)?;
        Some(Media::Photo(PhotoMedia { base }))
    } else if same_text(kind, "video") {
        let base = read_base(json)?;
        let aspect_ratio = read_ratio(json)?;
        let thumb = des_asset(json, AssetType::Thumb)?;
        let duration = unsigned_in(json.get("duration_millis"))?;
        Some(
            Media::Video(
                VideoMedia {
                    base,
                    aspect_ratio,
                    thumb,
                    duration_millis: #[verifier::truncate] (duration as u32),
                },
            ),
        )
    } else if same_text(kind, "animated_gif") {
        let base = read_base(json)?;
        let aspect_ratio = read_ratio(json)?;
        let thumb = des_asset(json, AssetType::Thumb)?;
        Some(Media::AnimatedGif(AnimatedGifMedia { base, aspect_ratio, thumb }))
    } else {
        None
    }
}

/// The media among `items` that can be read, in order.
pub open spec fn media_among(items: Seq<Json>) -> Seq<MediaView>
    decreases items.len(),
{
    if items.len() == 0 {
        Seq::empty()
    } else {
        match media_of_export(items.last()) {
            Some(m) => media_among(items.drop_last()).push(m),
            None => media_among(items.drop_last()),
        }
    }
}

fn read_media(json: &Json) -> (r: Option<Vec<Media>>)
    ensures
        r.deep_view() == match items_of(json.field("media"@)) {
            Some(items) => Some(media_among(items)),
            None => None,
        },
{
    let items = items_in(json.get("media"))?;
    let mut out: Vec<Media> = Vec::new();
    let mut i: usize = 0;
    assert(items@.subrange(0, 0) =~= Seq::empty());
    assert(out.deep_view() =~= Seq::empty());
    while i < items.len()
        invariant
            i <= items.len(),
            out.deep_view() == media_among(items@.subrange(0, i as int)),
        decreases items.len() - i,
    {
        let ghost before = out.deep_view();
        assert(items@.subrange(0, i as int + 1).drop_last() =~= items@.subrange(0, i as int));
        assert(items@.subrange(0, i as int + 1).last() == items@[i as int]);
        match des_media(&items[i]) {
            Some(m) => {
                out.push(m);
                assert(out.deep_view() =~= before.push(m.deep_view()));
            },
            None => {},
        }
        i += 1;
    }
    assert(items@.subrange(0, items@.len() as int) =~= items@);
    Some(out)
}

/// The post inside another that an exported record describes.
pub open spec fn quote_of(json: Json) -> Option<QuotePostView> {
    let number = match text_of(json.field("rest_id"@)) {
        Some(t) => parsed_i64(t),
        None => None,
    };
    let author = match json.field("author"@) {
        Some(a) => user_of_export(a),
        None => None,
    };
    let content = match json.field("content"@) {
        Some(c) => content_of(c),
        None => None,
    };
    match (number, text_of(json.field("created_at"@)), author, content) {
        (Some(rest_id), Some(created_at), Some(author), Some(content)) => Some(
            QuotePostView {
                rest_id,
                created_at,
                author,
                content,
                media: match items_of(json.field("media"@)) {
                    Some(items) => Some(media_among(items)),
                    None => None,
                },
                key_words: text_list(json, "key_words"@),
                card: match json.field("card"@) {
                    Some(c) => card_of_export(c),
                    None => None,
                },
                article: match json.field("article"@) {
                    Some(a) => article_of(a),
                    None => None,
                },
            },
        ),
        _ => None,
    }
}

pub fn des_quote(json: &Json) -> (r: Option<QuotePost>)
    ensures
        r.deep_view() == quote_of(*json),
{
    let rest_id = parse_i64(text_in(json.get("rest_id"))?)?;
    let created_at = text_in(json.get("created_at"))?;
    let author = des_user(json.get("author")?)?;
    let content = des_content(json.get("content")?)?;
    Some(
        QuotePost {
            rest_id,
            created_at: String::from_str(created_at),
            author,
            content,
            media: read_media(json),
            key_words: read_text_list(json, "key_words"),
            card: match json.get("card") {
                Some(c) => des_card(c),
                None => None,
            },
            article: match json.get("article") {
                Some(a) => des_article(a),
                None => None,
            },
        },
    )
}

pub fn des_reply(json: &Json) -> (r: Option<Reply>)
    ensures
        r.deep_view() == quote_of(*json),
{
    match des_quote(json) {
        Some(q) => Some(Reply(q)),
        None => None,
    }
}

/// The replies among `items` that can be read, in order.
pub open spec fn replies_among(items: Seq<Json>) -> Seq<QuotePostView>
    decreases items.len(),
{
    if items.len() == 0 {
        Seq::empty()
    } else {
        match quote_of(items.last()) {
            Some(q) => replies_among(items.drop_last()).push(q),
            None => replies_among(items.drop_last()),
        }
    }
}

/// The chain of replies that an exported record describes; an empty chain
/// where it holds no list.
pub open spec fn conversation_of(json: Json) -> ConversationView {
    ConversationView {
        conversation: match items_of(json.field("conversation"@)) {
            Some(items) => replies_among(items),
            None => Seq::empty(),
        },
    }
}

pub fn des_conversation(json: &Json) -> (r: Conversation)
    ensures
        r.deep_view() == conversation_of(*json),
{
    let mut out: Vec<Reply> = Vec::new();
    assert(out.deep_view() =~= Seq::empty());
    match items_in(json.get("conversation")) {
        Some(items) => {
            let mut i: usize = 0;
            assert(items@.subrange(0, 0) =~= Seq::empty());
            while i < items.len()
                invariant
                    i <= items.len(),
                    out.deep_view() == replies_among(items@.subrange(0, i as int)),
                decreases items.len() - i,
            {
                let ghost before = out.deep_view();
                assert(items@.subrange(0, i as int + 1).drop_last() =~= items@.subrange(0, i as int));
                assert(items@.subrange(0, i as int + 1).last() == items@[i as int]);
                match des_reply(&items[i]) {
                    Some(reply) => {
                        out.push(reply);
                        assert(out.deep_view() =~= before.push(reply.deep_view()));
                    },
                    None => {},
                }
                i += 1;
            }
            assert(items@.subrange(0, items@.len() as int) =~= items@);
        },
        None => {},
    }
    Conversation { conversation: out }
}

/// The chains of replies of `items`, in order.
pub open spec fn conversations_among(items: Seq<Json>) -> Seq<ConversationView> {
    Seq::new(items.len(), |i: int| conversation_of(items[i]))
}

/// The post that an exported record describes.
pub open spec fn post_of(json: Json) -> Option<PostView> {
    match quote_of(json) {
        Some(q) => Some(
            PostView {
                quote: match json.field("quote"@) {
                    Some(quoted) => quote_of(quoted),
                    None => None,
                },
                replies: match items_of(json.field("replies"@)) {
                    Some(items) => Some(conversations_among(items)),
                    None => None,
                },
                ..q.as_post()
            },
        ),
        None => None,
    }
}

pub fn des_post(json: &Json) -> (r: Option<Post>)
    ensures
        r.deep_view() == post_of(*json),
{
    let own = des_quote(json)?;
    let replies = match items_in(json.get("replies")) {
        Some(items) => {
            let mut out: Vec<Conversation> = Vec::new();
            let mut i: usize = 0;
            while i < items.len()
                invariant
                    i <= items.len(),
                    out@.len() == i,
                    forall|k: int|
                        0 <= k < i ==> (#[trigger] out@[k]).deep_view() == conversation_of(items@[k]),
                decreases items.len() - i,
            {
                out.push(des_conversation(&items[i]));
                i += 1;
            }
            assert(out.deep_view() =~= conversations_among(items@));
            Some(out)
        },
        None => None,
    };
    let quote = match json.get("quote") {
        Some(quoted) => des_quote(quoted),
        None => None,
    };
    Some(
        Post {
            rest_id: own.rest_id,
            created_at: own.created_at,
            author: own.author,
            content: own.content,
            media: own.media,
            quote,
            key_words: own.key_words,
            replies,
            card: own.card,
            article: own.article,
        },
    )
}

/// The liked post that an exported record describes.
pub open spec fn liked_of(json: Json) -> Option<LikedPostView> {
    let index = match text_of(json.field("sortidx"@)) {
        Some(t) => parsed_u32(t),
        None => None,
    };
    let post = match json.field("post"@) {
        Some(p) => post_of(p),
        None => None,
    };
    match (index, post) {
        (Some(sortidx), Some(post)) => Some(LikedPostView { sortidx, post }),
        _ => None,
    }
}

pub fn des_likedpost(json: &Json) -> (r: Option<LikedPost>)
    ensures
        r.deep_view() == liked_of(*json),
{
    let sortidx = parse_u32(text_in(json.get("sortidx"))?)?;
    let post = des_post(json.get("post")?)?;
    Some(LikedPost { sortidx, post })
}

/// The liked posts among `items` that can be read, in order.
pub open spec fn liked_among(items: Seq<Json>) -> Seq<LikedPostView>
    decreases items.len(),
{
    if items.len() == 0 {
        Seq::empty()
    } else {
        match liked_of(items.last()) {
            Some(l) => liked_among(items.drop_last()).push(l),
            None => liked_among(items.drop_last()),
        }
    }
}

/// Why an export could not be read.
#[derive(Debug, Clone, Copy, PartialEq, Eq, Structural)]
pub enum LoadError {
    /// The export does not say what it holds, when it was made, or where
    /// its media lie.
    NoMetadata,
    /// The export holds no list of results.
    NoResults,
}

/// Reads an export of the archive: what it says of itself, and the liked
/// posts among its results that can be read.
pub fn read_tweets_from_json(tweets: &Json) -> (r: Result<TweetData, LoadError>)
    ensures
        match r {
            Ok(data) => {
                &&& text_of(tweets.at2("metadata"@, "item"@)) == Some(data.metadata.item@)
                &&& text_of(tweets.at2("metadata"@, "created_at"@)) == Some(data.metadata.created_at@)
                &&& text_of(tweets.at2("metadata"@, "media_folder"@)) == Some(data.metadata.proj_path@)
                &&& items_of(tweets.field("results"@)) is Some
                &&& data.results.deep_view() == liked_among(items_of(tweets.field("results"@))->0)
            },
            Err(LoadError::NoMetadata) => {
                ||| text_of(tweets.at2("metadata"@, "item"@)) is None
                ||| text_of(tweets.at2("metadata"@, "created_at"@)) is None
                ||| text_of(tweets.at2("metadata"@, "media_folder"@)) is None
            },
            Err(LoadError::NoResults) => {
                &&& text_of(tweets.at2("metadata"@, "item"@)) is Some
                &&& text_of(tweets.at2("metadata"@, "created_at"@)) is Some
                &&& text_of(tweets.at2("metadata"@, "media_folder"@)) is Some
                &&& items_of(tweets.field("results"@)) is None
            },
        },
{
    let item = text_in(tweets.get2("metadata", "item"));
    let created_at = text_in(tweets.get2("metadata", "created_at"));
    let folder = text_in(tweets.get2("metadata", "media_folder"));
    let metadata = match (item, created_at, folder) {
        (Some(i), Some(c), Some(f)) => TweetMetaData {
            item: String::from_str(i),
            created_at: String::from_str(c),
            proj_path: String::from_str(f),
        },
        _ => {
            return Err(LoadError::NoMetadata);
        },
    };
    let items = match items_in(tweets.get("results")) {
        Some(items) => items,
        None => {
            return Err(LoadError::NoResults);
        },
    };
    let mut results: Vec<LikedPost> = Vec::new();
    let mut i: usize = 0;
    assert(items@.subrange(0, 0) =~= Seq::empty());
    assert(results.deep_view() =~= Seq::empty());
    while i < items.len()
        invariant
            i <= items.len(),
            results.deep_view() == liked_among(items@.subrange(0, i as int)),
        decreases items.len() - i,
    {
        let ghost before = results.deep_view();
        assert(items@.subrange(0, i as int + 1).drop_last() =~= items@.subrange(0, i as int));
        assert(items@.subrange(0, i as int + 1).last() == items@[i as int]);
        match des_likedpost(&items[i]) {
            Some(liked) => {
                results.push(liked);
                assert(results.deep_view() =~= before.push(liked.deep_view()));
            },
            None => {},
        }
        i += 1;
    }
    assert(items@.subrange(0, items@.len() as int) =~= items@);
    Ok(TweetData { metadata, results })
}

} // verus!

use quilore::api_models::EntriesType;
use quilore::asset::{join_path, Asset, AssetType, DbAsset, FullAssetPath, RelAssetPath};
use quilore::db_models::{found_or_absent, take_range, DbMeta, DbUserKV, DomainError};
use quilore::like::{DbLikedPost, LikedPost};
use quilore::media::{DbMedia, Media, MediaBase, PhotoMedia, VideoMedia};
use quilore::meta::{GlobalVal, Meta, MetaKey, MetaValue};
use quilore::models::{check_has_data, chunk_cursor, take_post_chunk};
use quilore::platform::Platform;
use quilore::post::{Content, Conversation, DbPost, Post, PostType, QuotePost, Reply};
use quilore::record::{RecordId, RecordKey};
use quilore::scheduler::Status;
use quilore::table::{Rel, Table, TableName};
use quilore::task::TaskKind;
use quilore::userkv::{UserKV, UserKVValue, UserKey};
use quilore::users::{DbUser, User};

fn globals() -> GlobalVal {
    GlobalVal { save_dir: Some("/save".to_string()) }
}

fn asset(ty: AssetType, name: &str) -> Asset {
    Asset {
        ty,
        plat: Platform::Twitter,
        url: format!("https://example.com/{name}"),
        name: name.to_string(),
        path: FullAssetPath(format!("/save/{}/{}", ty.as_str(), name)),
        downloaded: false,
        available: false,
    }
}

fn user(id: &str) -> User {
    User { id: id.to_string(), name: id.to_uppercase(), avatar: asset(AssetType::Avatar, &format!("{id}.jpg")) }
}

fn photo(id: &str) -> Media {
    Media::Photo(PhotoMedia {
        base: MediaBase {
            id: id.to_string(),
            asset: asset(AssetType::Media, id),
            description: None,
            width: Some(10),
            height: Some(20),
        },
    })
}

fn video(id: &str) -> Media {
    Media::Video(VideoMedia {
        base: MediaBase {
            id: id.to_string(),
            asset: asset(AssetType::Media, id),
            description: Some("clip".to_string()),
            width: None,
            height: None,
        },
        aspect_ratio: (16, 9),
        thumb: asset(AssetType::Thumb, &format!("{id}.jpg")),
        duration_millis: 1500,
    })
}

fn quote(id: i64, author: &str) -> QuotePost {
    QuotePost {
        rest_id: id,
        created_at: "Mon".to_string(),
        author: user(author),
        content: Content {
            lang: "en".to_string(),
            text: format!("text {id}"),
            translation: None,
            expanded_urls: Some(vec!["https://example.com".to_string()]),
        },
        media: Some(vec![photo(&format!("p{id}.jpg"))]),
        key_words: Some(vec!["k".to_string()]),
        card: None,
        article: None,
    }
}

#[test]
fn tables_have_their_names() {
    let names: Vec<&str> = [
        Table::LikedPost,
        Table::Media,
        Table::Post,
        Table::Reply,
        Table::User,
        Table::Meta,
        Table::UserKV,
        Table::Asset,
        Table::Task,
        Table::Status,
        Table::Collection,
        Table::ScrollCursor,
    ]
    .iter()
    .map(|t| t.as_str())
    .collect();
    assert_eq!(
        names,
        vec![
            "liked_post", "media", "post", "reply", "user", "metadata", "user_kv", "asset", "task",
            "status", "collection", "scroll_cursor"
        ]
    );
    assert_eq!(Table::Post.table_name(), "post");
    assert_eq!(Rel::Collect.as_str(), "collect");
    assert_eq!(Rel::Collect.table_name(), "collect");
    assert_eq!(Platform::Twitter.as_str(), "twitter");
    assert_eq!(AssetType::Avatar.as_str(), "avatar");
    assert_eq!(AssetType::Media.as_str(), "media");
    assert_eq!(AssetType::Thumb.as_str(), "thumb");
    assert_eq!(EntriesType::from_name("TimelineAddEntries"), Some(EntriesType::TimelineAddEntries));
    assert_eq!(EntriesType::from_name("Other"), None);
}

#[test]
fn meta_keys_and_values() {
    assert_eq!(MetaKey::FirstCursor.as_str(), "first_cursor");
    assert_eq!(MetaKey::SaveDir.as_str(), "save_dir");
    assert_eq!(MetaKey::from_str("first_cursor"), Ok(MetaKey::FirstCursor));
    assert_eq!(MetaKey::from_str("save_dir"), Ok(MetaKey::SaveDir));
    assert_eq!(MetaKey::from_str("nope"), Err("Unknown MetaKey: nope".to_string()));
    assert_eq!(MetaValue::Number(-42).into_string(), "-42");
    assert_eq!(MetaValue::String("s".to_string()).into_string(), "s");
    assert_eq!(MetaValue::String("17".to_string()).try_into_number(), Some(17));
    assert_eq!(MetaValue::String("x17".to_string()).try_into_number(), None);
    assert_eq!(MetaValue::Number(5).try_into_number(), Some(5));
    assert_eq!(MetaValue::Number(5).into_number(), 5);
    assert_eq!(MetaValue::String("-8".to_string()).into_number(), -8);
    assert_eq!(MetaValue::from_i32(-3).into_number(), -3);
    assert_eq!(MetaValue::from_i64(9).into_string(), "9");
    assert_eq!(MetaValue::from_text("t").into_string(), "t");
    assert_eq!(MetaValue::from_string("u".to_string()).into_string(), "u");
}

#[test]
fn user_keys_and_values() {
    assert_eq!(UserKey::Twitter.as_str(), "twitter");
    assert_eq!(UserKey::from_str("twitter"), Ok(UserKey::Twitter));
    assert_eq!(UserKey::from_str("x"), Err("Unknown UserKey: x".to_string()));
    assert_eq!(UserKVValue::Number(12).into_string(), "12");
    assert_eq!(UserKVValue::String("12".to_string()).into_number(), 12);
    assert_eq!(UserKVValue::String("twelve".to_string()).into_number(), 0);
    assert_eq!(UserKVValue::from_i32(4).into_number(), 4);
    assert_eq!(UserKVValue::from_i64(4).into_string(), "4");
    assert_eq!(UserKVValue::from_text("c").into_string(), "c");
    assert_eq!(UserKVValue::from_string("d".to_string()).into_string(), "d");
}

#[test]
fn globals_hold_the_save_directory() {
    let mut g = GlobalVal::new();
    assert_eq!(g.get_save_dir(), None);
    g.update(Some(MetaValue::String("/data".to_string())));
    assert_eq!(g.get_save_dir(), Some("/data".to_string()));
    g.update(None);
    assert_eq!(g.get_save_dir(), None);
    assert_eq!(GlobalVal::init(Some(MetaValue::Number(3))).get_save_dir(), Some("3".to_string()));
    assert_eq!(GlobalVal::init(None).get_save_dir(), None);
}

#[test]
fn paths_are_joined_and_made_relative() {
    assert_eq!(join_path("/save", "media/a.jpg"), "/save/media/a.jpg");
    assert_eq!(join_path("/save/", "a"), "/save/a");
    assert_eq!(join_path("/save", "/abs"), "/abs");
    assert_eq!(join_path("", "a"), "a");
    assert_eq!(join_path("/save", ""), "/save/");
    let g = globals();
    assert_eq!(FullAssetPath("/save/media/a.jpg".to_string()).to_rel(&g).0, "media/a.jpg");
    assert_eq!(FullAssetPath("/save".to_string()).to_rel(&g).0, "");
    assert_eq!(FullAssetPath("/saved/a".to_string()).to_rel(&g).0, "/saved/a");
    assert_eq!(FullAssetPath("/other/a".to_string()).to_rel(&g).0, "/other/a");
    assert_eq!(RelAssetPath("media/a.jpg".to_string()).to_full(&g).0, "/save/media/a.jpg");
    let rel = RelAssetPath("thumb/x.png".to_string());
    assert_eq!(rel.to_full(&g).to_rel(&g).0, "thumb/x.png");
}

#[test]
fn assets_are_persisted_under_type_and_name() {
    let g = globals();
    let a = asset(AssetType::Media, "a.jpg");
    assert!(a.record_id().same(&RecordId::named(Table::Asset, "media-a.jpg")));
    let db = a.clone().into_db(&g);
    assert!(db.id.same(&RecordId::named(Table::Asset, "media-a.jpg")));
    assert_eq!(db.path.0, "media/a.jpg");
    assert_eq!(db.url, "https://example.com/a.jpg");
    let back = db.clone().into_domain(&g);
    assert_eq!(back.path.0, "/save/media/a.jpg");
    assert_eq!(back.name, "a.jpg");
    let task = db.into_task(TaskKind::AssetTransport);
    assert!(task.id.same(&RecordId::named(Table::Task, "media-a.jpg")));
    assert!(task.tar.same(&RecordId::named(Table::Asset, "media-a.jpg")));
    assert_eq!(task.kind, TaskKind::AssetTransport);
    assert_eq!(task.status, Status::Pending);
    assert_eq!(task.retry_count, 0);
    let same: DbAsset = DbAsset::from_domain(a, &g);
    assert_eq!(same.name, "a.jpg");
}

#[test]
fn media_give_their_assets() {
    assert_eq!(photo("p.jpg").get_asset().name, "p.jpg");
    assert!(photo("p.jpg").get_thumb().is_none());
    assert_eq!(video("v.mp4").get_asset().name, "v.mp4");
    assert_eq!(video("v.mp4").get_thumb().unwrap().name, "v.mp4.jpg");
    let db = video("v.mp4").into_db();
    assert!(db.id.same(&RecordId::named(Table::Media, "v.mp4")));
    assert_eq!(db.media_type, "video");
    assert!(db.asset.same(&RecordId::named(Table::Asset, "media-v.mp4")));
    assert!(db.thumb.as_ref().unwrap().same(&RecordId::named(Table::Asset, "thumb-v.mp4.jpg")));
    assert_eq!(db.aspect_ratio, Some((16, 9)));
    assert_eq!(db.duration_millis, Some(1500));
    let db = DbMedia::from_domain(photo("p.jpg"));
    assert_eq!(db.media_type, "photo");
    assert!(db.thumb.is_none() && db.aspect_ratio.is_none() && db.duration_millis.is_none());
    assert_eq!(db.width, Some(10));
}

#[test]
fn posts_and_quotes_turn_into_each_other() {
    let post = quote(5, "bob").into_post();
    assert_eq!(post.rest_id, 5);
    assert!(post.quote.is_none() && post.replies.is_none());
    assert_eq!(post.author.id, "bob");
    let mut outer = Post::from_quote(quote(6, "eve"));
    outer.quote = Some(quote(5, "bob"));
    outer.replies = Some(vec![Conversation { conversation: vec![Reply(quote(7, "dan"))] }]);
    let q = outer.to_quote();
    assert_eq!(q.rest_id, 6);
    assert_eq!(q.created_at, "Mon");
    assert_eq!(q.content.text, "text 6");
    assert_eq!(q.content.expanded_urls, Some(vec!["https://example.com".to_string()]));
    assert_eq!(q.media.as_ref().unwrap().len(), 1);
    assert_eq!(q.key_words, Some(vec!["k".to_string()]));
    let copy = outer.clone();
    assert_eq!(copy.replies.as_ref().unwrap()[0].conversation[0].0.rest_id, 7);
    assert_eq!(copy.quote.as_ref().unwrap().author.id, "bob");
}

#[test]
fn posts_are_persisted_with_references() {
    let mut outer = Post::from_quote(quote(6, "eve"));
    outer.quote = Some(quote(5, "bob"));
    outer.replies = Some(vec![Conversation { conversation: vec![Reply(quote(7, "dan")), Reply(quote(8, "dan"))] }]);
    let db = outer.into_db();
    assert!(db.id.same(&RecordId::numbered(Table::Post, 6)));
    assert!(db.is_root);
    assert!(db.author.same(&RecordId::named(Table::User, "eve")));
    assert!(db.quote.as_ref().unwrap().same(&RecordId::numbered(Table::Post, 5)));
    assert!(db.media.as_ref().unwrap()[0].same(&RecordId::named(Table::Media, "p6.jpg")));
    let conversation = &db.replies.as_ref().unwrap()[0].conversation;
    assert_eq!(conversation.len(), 2);
    assert!(conversation[1].same(&RecordId::numbered(Table::Post, 8)));
    let q = quote(5, "bob").into_db();
    assert!(!q.is_root);
    assert!(q.id.same(&RecordId::numbered(Table::Post, 5)));
    let r = Reply(quote(7, "dan")).into_db();
    assert!(r.0.id.same(&RecordId::numbered(Table::Reply, 7)));
    assert!(!r.0.is_root);
    let d = DbPost::from_domain(quote(9, "x").into_post(), PostType::Root);
    assert!(d.is_root);
    let u = user("amy").into_db();
    assert!(u.id.same(&RecordId::named(Table::User, "amy")));
    assert!(u.avatar.same(&RecordId::named(Table::Asset, "avatar-amy.jpg")));
    assert_eq!(DbUser::from_domain(user("amy")).name, "AMY");
}

#[test]
fn likes_are_keyed_by_their_sort_index() {
    let like = LikedPost { sortidx: 77, post: quote(5, "bob").into_post() };
    assert!(like.post_key().same(&RecordId::numbered(Table::Post, 5)));
    let db = like.clone().into_db();
    assert!(db.id.same(&RecordId::numbered(Table::LikedPost, 77)));
    assert!(db.post.same(&RecordId::numbered(Table::Post, 5)));
    let back = db.into_domain(quote(5, "bob").into_post()).unwrap();
    assert_eq!(back.sortidx, 77);
    let bad = DbLikedPost { id: RecordId::named(Table::LikedPost, "x"), post: RecordId::numbered(Table::Post, 1) };
    assert_eq!(bad.into_domain(quote(1, "a").into_post()).err(), Some(DomainError::BadKey));
    let text = DbLikedPost { id: RecordId::named(Table::LikedPost, "12"), post: RecordId::numbered(Table::Post, 1) };
    assert_eq!(text.into_domain(quote(1, "a").into_post()).unwrap().sortidx, 12);
}

#[test]
fn records_turn_back_into_what_they_stand_for() {
    let u = user("amy").into_db().into_domain(asset(AssetType::Avatar, "amy.jpg"));
    assert_eq!(u.id, "amy");
    assert_eq!(u.name, "AMY");
    let m = video("v.mp4").into_db();
    match m.into_domain(asset(AssetType::Media, "v.mp4"), Some(asset(AssetType::Thumb, "t.jpg"))) {
        Ok(Media::Video(v)) => {
            assert_eq!(v.duration_millis, 1500);
            assert_eq!(v.thumb.name, "t.jpg");
            assert_eq!(v.base.id, "media:v.mp4");
        }
        other => panic!("expected a video, got {:?}", other),
    }
    assert_eq!(
        video("v.mp4").into_db().into_domain(asset(AssetType::Media, "v.mp4"), None).err(),
        Some(DomainError::NoThumb)
    );
    let mut odd = photo("p.jpg").into_db();
    odd.media_type = "hologram".to_string();
    assert_eq!(odd.into_domain(asset(AssetType::Media, "p.jpg"), None).err(), Some(DomainError::UnknownMedia));
    let post = quote(5, "bob").into_db().into_domain(user("bob"), None, None).unwrap();
    assert_eq!(post.rest_id, 5);
    assert!(post.replies.is_none());
    let q = quote(5, "bob").into_db().convert_quote(user("bob"), Some(vec![photo("a")])).unwrap();
    assert_eq!(q.rest_id, 5);
    assert_eq!(q.media.unwrap().len(), 1);
    assert_eq!(RecordKey::Number(-4).to_text(), "-4");
    assert_eq!(RecordKey::Text("12".to_string()).as_number(), Some(12));
    assert_eq!(RecordKey::Number(-1).as_index(), None);
    assert_eq!(RecordKey::Number(4294967295).as_index(), Some(u32::MAX));
    assert_eq!(RecordKey::Number(4294967296).as_index(), None);
}

#[test]
fn settings_are_persisted_under_their_key() {
    let db = DbMeta::from_domain(Meta { id: MetaKey::SaveDir, v: MetaValue::from_text("/d") });
    assert!(db.id.same(&RecordId::named(Table::Meta, "save_dir")));
    let meta = db.to_domain().unwrap();
    assert_eq!(meta.id, MetaKey::SaveDir);
    assert_eq!(meta.v.into_string(), "/d");
    let odd = DbMeta::new("odd".to_string(), MetaValue::Number(1));
    assert_eq!(odd.to_domain().err(), Some("Failed to parse MetaKey: Unknown MetaKey: odd".to_string()));
    let kv = DbUserKV::from_domain(UserKV { key: UserKey::Twitter, value: UserKVValue::from_text("c") });
    assert!(kv.id.same(&RecordId::named(Table::UserKV, "twitter")));
    assert_eq!(kv.to_domain().unwrap().value.into_string(), "c");
    let odd = DbUserKV { id: RecordId::named(Table::UserKV, "mastodon"), value: UserKVValue::Number(1) };
    assert_eq!(
        odd.to_domain().err(),
        Some("Failed to parse UserKey: Unknown UserKey: mastodon".to_string())
    );
    assert_eq!(found_or_absent(Ok::<u8, String>(1)), Ok(Some(1)));
    assert_eq!(found_or_absent(Err::<u8, String>("record not found".to_string())), Ok(None));
    assert_eq!(found_or_absent(Err::<u8, String>("io".to_string())), Err("io".to_string()));
}

#[test]
fn ranges_of_likes_begin_at_zero_at_the_least() {
    assert_eq!(take_range(10, 25), (15, 25));
    assert_eq!(take_range(30, 25), (0, 25));
    assert_eq!(take_range(1, i64::MIN), (0, i64::MIN));
    assert_eq!(take_range(-1, i64::MAX), (i64::MAX, i64::MAX));
}

#[test]
fn chunks_carry_the_cursor_of_their_last_post() {
    let page = vec![
        LikedPost { sortidx: 9, post: quote(1, "a").into_post() },
        LikedPost { sortidx: 7, post: quote(2, "a").into_post() },
    ];
    assert_eq!(chunk_cursor(&page), Some(7));
    assert!(check_has_data(&page));
    let chunk = take_post_chunk(page).unwrap();
    assert_eq!(chunk.cursor, 7);
    assert_eq!(chunk.data.len(), 2);
    assert!(take_post_chunk(Vec::new()).is_none());
    assert!(!check_has_data(&Vec::new()));
    assert_eq!(chunk_cursor(&Vec::new()), None);
}

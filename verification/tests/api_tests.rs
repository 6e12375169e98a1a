use quilore::content::{sort_heaviest_first, strip_tail};
use quilore::feature::{Features, FieldToggles, Variables};
use quilore::json::Json;
use quilore::like::LikedPost;
use quilore::media::Media;
use quilore::meta::GlobalVal;
use quilore::param_builder::{Builder, Flag, IntoEnableItems, ParamBuilder};
use quilore::post::{Article, Card, Content, Post, QuotePost};
use quilore::requests::{likes, Method, Params, DEFAULT_PAGE_SIZE};
use quilore::text::last_path_segment;
use quilore::users::User;

fn globals() -> GlobalVal {
    GlobalVal { save_dir: Some("/save".to_string()) }
}

fn json(text: &str) -> Json {
    Json::parse(text).expect("the text is JSON")
}

#[test]
fn author_is_read_with_the_avatar_as_an_asset() {
    let j = json(
        r#"{"profile_image_url_https":"https://pbs.twimg.com/profile_images/9/face_normal.jpg","screen_name":"alice","name":"Alice A"}"#,
    );
    let u = User::from_api(&j, &globals()).unwrap();
    assert_eq!(u.id, "alice");
    assert_eq!(u.name, "Alice A");
    assert_eq!(u.avatar.name, "face_normal.jpg");
    assert_eq!(u.avatar.path.0, "/save/avatar/face_normal.jpg");
    assert_eq!(u.avatar.url, "https://pbs.twimg.com/profile_images/9/face_normal.jpg");
    assert!(!u.avatar.downloaded && !u.avatar.available);
    assert!(User::from_api(&j, &GlobalVal { save_dir: None }).is_none());
    assert!(User::from_api(&json(r#"{"screen_name":"a","name":"A"}"#), &globals()).is_none());
    assert!(User::from_api(
        &json(r#"{"profile_image_url_https":"not an address","screen_name":"a","name":"A"}"#),
        &globals()
    )
    .is_none());
}

#[test]
fn last_segment_is_the_file_of_an_address() {
    assert_eq!(last_path_segment("https://example.com/a/b/c.png?x=1"), Some("c.png".to_string()));
    assert_eq!(last_path_segment("https://example.com"), Some("".to_string()));
    assert_eq!(last_path_segment("data:text/plain,Hello"), None);
    assert_eq!(last_path_segment("no address"), None);
}

#[test]
fn content_loses_the_short_links_at_its_end() {
    let j = json(
        r#"{"legacy":{"full_text":"Tom &amp; Jerry &lt;3 https://t.co/aaa https://t.co/media1","lang":"en",
            "entities":{"urls":[{"url":"https://t.co/aaa","expanded_url":"https://example.com/long"}],
                        "media":[{"url":"https://t.co/media1"}]}}}"#,
    );
    let c = Content::from_api(&j).unwrap();
    assert_eq!(c.text, "Tom & Jerry <3");
    assert_eq!(c.lang, "en");
    assert_eq!(c.translation, None);
    assert_eq!(c.expanded_urls, Some(vec!["https://example.com/long".to_string()]));
}

#[test]
fn content_prefers_the_note_and_keeps_links_inside_the_text() {
    let j = json(
        r#"{"note_tweet":{"note_tweet_results":{"result":{"text":"long https://t.co/x text","entity_set":{"urls":[{"url":"https://t.co/x","expanded_url":"https://e.com"}]}}}},
            "legacy":{"full_text":"short"},"card":{"url":"https://t.co/card"}}"#,
    );
    let c = Content::from_api(&j).unwrap();
    assert_eq!(c.text, "long https://t.co/x text");
    assert_eq!(c.lang, "");
    assert_eq!(c.expanded_urls, Some(vec!["https://e.com".to_string()]));
    assert!(Content::from_api(&json(r#"{"legacy":{}}"#)).is_none());
    let plain = Content::from_api(&json(r#"{"legacy":{"full_text":"  hi  "}}"#)).unwrap();
    assert_eq!(plain.text, "hi");
    assert_eq!(plain.expanded_urls, None);
}

#[test]
fn short_links_are_taken_heaviest_first() {
    let sorted = sort_heaviest_first(vec![
        "bb".to_string(),
        "a".to_string(),
        "dddd".to_string(),
        "cc".to_string(),
        "e".to_string(),
    ]);
    assert_eq!(sorted, vec!["dddd", "bb", "cc", "a", "e"]);
    assert_eq!(strip_tail("see x.co  x.co".to_string(), "x.co"), "see");
    assert_eq!(strip_tail("see x.co".to_string(), ""), "see x.co");
    assert_eq!(strip_tail("see".to_string(), "x.co"), "see");
}

#[test]
fn article_is_read_with_its_address() {
    let a = Article::from_api(&json(r#"{"id":"a1","title":"T","preview_text":"Once","rest_id":"55"}"#)).unwrap();
    assert_eq!(a.id, "a1");
    assert_eq!(a.title, "T");
    assert_eq!(a.description, Some("Once...".to_string()));
    assert_eq!(a.url, "https://x.com/i/status/55");
    assert!(Article::from_api(&json("null")).is_none());
    assert!(Article::from_api(&json(r#"{"id":"a1","title":"T"}"#)).is_none());
}

fn card_json(bindings: &str, expanded: &str) -> Json {
    json(&format!(
        r#"{{"card":{{"rest_id":"https://t.co/c","legacy":{{"binding_values":[{bindings},{{"key":"card_url","value":{{"string_value":"https://t.co/c"}}}}]}}}},
            "legacy":{{"entities":{{"urls":[{{"url":"https://t.co/other","expanded_url":"https://other"}},{{"url":"https://t.co/c","expanded_url":"{expanded}"}}]}}}}}}"#
    ))
}

#[test]
fn card_takes_title_and_description_from_its_bindings() {
    let c = Card::from_api(&card_json(
        r#"{"key":"title","value":{"string_value":"Title"}},{"key":"description","value":{"string_value":"About"}}"#,
        "https://example.com/a",
    ))
    .unwrap();
    assert_eq!(c.title, Some("Title".to_string()));
    assert_eq!(c.description, Some("About".to_string()));
    assert_eq!(c.url, "https://example.com/a");
}

#[test]
fn card_falls_back_to_its_unified_card() {
    let list = r#"{\"component_objects\":{\"details_1\":{\"type\":\"twitter_list_details\",\"data\":{\"name\":{\"content\":\"My list\"},\"member_count\":12}}}}"#;
    let c = Card::from_api(&card_json(
        &format!(r#"{{"key":"unified_card","value":{{"string_value":"{list}"}}}}"#),
        "https://example.com/l",
    ))
    .unwrap();
    assert_eq!(c.title, Some("My list".to_string()));
    assert_eq!(c.description, Some("list · 12 members".to_string()));

    let community = r#"{\"component_objects\":{\"details_1\":{\"type\":\"community_details\",\"data\":{\"name\":{\"content\":\"Club\"},\"member_count\":3}}}}"#;
    let c = Card::from_api(&card_json(
        &format!(r#"{{"key":"unified_card","value":{{"string_value":"{community}"}}}}"#),
        "https://example.com/l",
    ))
    .unwrap();
    assert_eq!(c.description, Some("community · 3 members".to_string()));

    let grok = r#"{\"component_objects\":{\"details_1\":{\"type\":\"grok_share\",\"data\":{\"conversation_preview\":{\"0\":{\"message\":\"Q\"},\"1\":{\"message\":\"A\"}}}}}}"#;
    let c = Card::from_api(&card_json(
        &format!(r#"{{"key":"unified_card","value":{{"string_value":"{grok}"}}}}"#),
        "https://example.com/l",
    ))
    .unwrap();
    assert_eq!(c.title, Some("Q".to_string()));
    assert_eq!(c.description, Some("A".to_string()));

    let other = r#"{\"component_objects\":{\"details_1\":{\"type\":\"new_kind\"}}}"#;
    let c = Card::from_api(&card_json(
        &format!(r#"{{"key":"unified_card","value":{{"string_value":"{other}"}}}}"#),
        "https://example.com/l",
    ))
    .unwrap();
    assert_eq!((c.title, c.description), (None, None));

    assert!(Card::from_api(&card_json(
        r#"{"key":"unified_card","value":{"string_value":"no json"}}"#,
        "https://example.com/l"
    ))
    .is_none());
}

#[test]
fn card_is_refused_where_it_leads_nowhere() {
    let none = r#"{"key":"x","value":{"string_value":"y"}}"#;
    assert!(Card::from_api(&card_json(none, "https://x.com/i/spaces/1")).is_none());
    assert!(Card::from_api(&card_json(none, "https://x.com/messages/compose?recipient_id=1")).is_none());
    assert!(Card::from_api(&card_json(
        r#"{"key":"narrow_cast_space_type","value":{"string_value":"0"}}"#,
        "https://example.com"
    ))
    .is_none());
    let bare = Card::from_api(&card_json(none, "https://example.com")).unwrap();
    assert_eq!((bare.title, bare.description), (None, None));
    assert!(Card::from_api(&json("null")).is_none());
    assert!(Card::from_api(&json(r#"{"card":{"rest_id":"card://1","legacy":{"binding_values":[]}},"legacy":{"entities":{"urls":[]}}}"#)).is_none());
    assert!(Card::from_api(&json(r#"{"legacy":{}}"#)).is_none());
}

#[test]
fn photo_is_read_in_its_largest_size() {
    let j = json(
        r#"{"type":"photo","media_url_https":"https://pbs.twimg.com/media/AbC.png","original_info":{"width":4294967297,"height":600}}"#,
    );
    match Media::from_api(&j, &globals()).unwrap() {
        Media::Photo(p) => {
            assert_eq!(p.base.id, "AbC.png");
            assert_eq!(p.base.asset.url, "https://pbs.twimg.com/media/AbC?format=png&name=4096x4096");
            assert_eq!(p.base.asset.name, "AbC.png");
            assert_eq!(p.base.asset.path.0, "/save/media/AbC.png");
            assert_eq!(p.base.width, Some(1));
            assert_eq!(p.base.height, Some(600));
        }
        other => panic!("expected a photo, got {:?}", other),
    }
    assert!(Media::from_api(&j, &GlobalVal { save_dir: None }).is_none());
    assert!(Media::from_api(&json(r#"{"type":"hologram"}"#), &globals()).is_none());
    assert!(Media::from_api(&json(r#"{"media_url_https":"https://a/b.png"}"#), &globals()).is_none());
}

#[test]
fn video_takes_the_variant_with_the_highest_bitrate() {
    let j = json(
        r#"{"type":"video","media_url_https":"https://pbs.twimg.com/thumb/still.jpg","original_info":{"width":1280,"height":720},
            "video_info":{"aspect_ratio":[16,9],"duration_millis":9000,"variants":[
                {"url":"https://video.twimg.com/v/playlist.m3u8"},
                {"bitrate":832000,"url":"https://video.twimg.com/v/low.mp4"},
                {"bitrate":2176000,"url":"https://video.twimg.com/v/high.mp4?tag=1"},
                {"bitrate":2176000,"url":"https://video.twimg.com/v/high2.mp4"},
                {"bitrate":256000,"url":"https://video.twimg.com/v/tiny.mp4"}]}}"#,
    );
    match Media::from_api(&j, &globals()).unwrap() {
        Media::Video(v) => {
            assert_eq!(v.base.id, "high2.mp4");
            assert_eq!(v.base.asset.url, "https://video.twimg.com/v/high2.mp4");
            assert_eq!(v.base.asset.path.0, "/save/media/high2.mp4");
            assert_eq!(v.aspect_ratio, (16, 9));
            assert_eq!(v.duration_millis, 9000);
            assert_eq!(v.thumb.name, "still.jpg");
            assert_eq!(v.thumb.path.0, "/save/thumb/still.jpg");
            assert_eq!(v.base.width, Some(1280));
        }
        other => panic!("expected a video, got {:?}", other),
    }
}

#[test]
fn animation_needs_no_duration() {
    let j = json(
        r#"{"type":"animated_gif","media_url_https":"https://pbs.twimg.com/t/g.jpg","original_info":{},
            "video_info":{"aspect_ratio":[1,1],"variants":[{"bitrate":0,"url":"https://video.twimg.com/g/g.mp4"}]}}"#,
    );
    match Media::from_api(&j, &globals()).unwrap() {
        Media::AnimatedGif(g) => {
            assert_eq!(g.base.id, "g.mp4");
            assert_eq!(g.aspect_ratio, (1, 1));
            assert_eq!(g.base.width, None);
        }
        other => panic!("expected an animation, got {:?}", other),
    }
    let no_variants = json(
        r#"{"type":"video","media_url_https":"https://a/b.jpg","original_info":{},"video_info":{"aspect_ratio":[1,1],"duration_millis":1,"variants":[]}}"#,
    );
    assert!(Media::from_api(&no_variants, &globals()).is_none());
}

fn tweet(id: i64, extra: &str) -> String {
    format!(
        r#"{{"rest_id":"{id}","core":{{"user_results":{{"result":{{"legacy":{{"profile_image_url_https":"https://p/i/u{id}.jpg","screen_name":"u{id}","name":"U"}}}}}}}},
            "legacy":{{"created_at":"Tue","full_text":"t{id}","lang":"en","extended_entities":{{"media":[
                {{"type":"photo","media_url_https":"https://pbs.twimg.com/media/m{id}.jpg"}},{{"type":"unknown"}}]}}}}{extra}}}"#
    )
}

#[test]
fn post_is_read_with_its_quote() {
    let text = tweet(1, &format!(r#","quoted_status_result":{{"result":{{"tweet":{}}}}}"#, tweet(2, "")));
    let p = Post::from_api(&json(&text), &globals()).unwrap();
    assert_eq!(p.rest_id, 1);
    assert_eq!(p.created_at, "Tue");
    assert_eq!(p.author.id, "u1");
    assert_eq!(p.content.text, "t1");
    assert_eq!(p.media.as_ref().unwrap().len(), 1);
    assert!(p.replies.is_none() && p.key_words.is_none() && p.card.is_none() && p.article.is_none());
    let q = p.quote.unwrap();
    assert_eq!(q.rest_id, 2);
    assert_eq!(q.author.id, "u2");
    let alone = QuotePost::from_api(&json(&tweet(3, "")), &globals()).unwrap();
    assert_eq!(alone.rest_id, 3);
}

#[test]
fn tombstones_and_broken_posts_are_not_read() {
    assert!(Post::from_api(&json(r#"{"__typename":"TweetTombstone"}"#), &globals()).is_none());
    assert!(Post::from_api(&json(&tweet(1, "").replace(r#""rest_id":"1""#, r#""rest_id":"one""#)), &globals()).is_none());
    assert!(Post::from_api(&json(r#"{"rest_id":"1"}"#), &globals()).is_none());
    let quoted_tombstone = tweet(1, r#","quoted_status_result":{"result":{"__typename":"TweetTombstone"}}"#);
    let p = Post::from_api(&json(&quoted_tombstone), &globals()).unwrap();
    assert!(p.quote.is_none());
}

#[test]
fn liked_post_is_found_inside_its_entry() {
    let entry = format!(r#"{{"content":{{"itemContent":{{"tweet_results":{{"result":{}}}}}}}}}"#, tweet(8, ""));
    let l = LikedPost::from_api(&json(&entry), &globals()).unwrap();
    assert_eq!(l.sortidx, 0);
    assert_eq!(l.post.rest_id, 8);
    assert!(LikedPost::from_api(&json(r#"{"content":{}}"#), &globals()).is_none());
}

#[test]
fn flags_have_their_names() {
    assert_eq!(Features::RwebVideoScreenEnabled.as_str(), "rweb_video_screen_enabled");
    assert_eq!(Features::ArticlesPreviewEnabled.as_str(), "articles_preview_enabled");
    assert_eq!(
        Features::TweetWithVisibilityResultsPreferGqlLimitedActionsPolicyEnabled.as_str(),
        "tweet_with_visibility_results_prefer_gql_limited_actions_policy_enabled"
    );
    assert_eq!(Variables::WithV2timeline.as_str(), "withV2Timeline");
    assert_eq!(Variables::WithRuxInjections.as_str(), "with_rux_injections");
    assert_eq!(FieldToggles::WithArticlePlainText.as_str(), "withArticlePlainText");
    let one: Vec<Variables> = Variables::WithVoice.into_items();
    assert_eq!(one, vec![Variables::WithVoice]);
    let two: Vec<Variables> = vec![Variables::Referrer, Variables::WithVoice].into_items();
    assert_eq!(two.len(), 2);
}

#[test]
fn builder_keeps_the_last_value_of_a_name() {
    let mut b: ParamBuilder<Variables> = ParamBuilder::new();
    assert_eq!(b.build(), "{}");
    b.set("count", Json::number(20));
    b.enable(Variables::WithVoice);
    b.disable(vec![Variables::WithVoice, Variables::WithCommunity]);
    b.set("count", Json::number(40));
    let built = Json::parse(&b.build()).unwrap();
    assert_eq!(built.get("count").unwrap().as_u64(), Some(40));
    assert_eq!(built.get("withVoice").unwrap().as_bool(), Some(false));
    assert_eq!(built.get("withCommunity").unwrap().as_bool(), Some(false));
    assert_eq!(built.as_object().unwrap().len(), 3);
}

#[test]
fn likes_request_names_user_page_size_and_cursor() {
    let p = likes("42".to_string(), None, Some("cur".to_string()));
    assert_eq!(p.method, Method::Get);
    assert_eq!(p.url, "https://x.com/i/api/graphql/eQl7iWsCr2fChppuJdAeRw/Likes");
    let variables = Json::parse(&p.params.variables).unwrap();
    assert_eq!(variables.get("userId").unwrap().as_str(), Some("42"));
    assert_eq!(variables.get("count").unwrap().as_u64(), Some(DEFAULT_PAGE_SIZE as u64));
    assert_eq!(variables.get("cursor").unwrap().as_str(), Some("cur"));
    assert_eq!(variables.get("withVoice").unwrap().as_bool(), Some(false));
    assert_eq!(variables.get("includePromotedContent").unwrap().as_bool(), Some(false));
    let features = Json::parse(&p.params.features).unwrap();
    assert_eq!(features.as_object().unwrap().len(), 31);
    assert_eq!(features.get("articles_preview_enabled").unwrap().as_bool(), Some(true));
    assert_eq!(features.get("rweb_video_screen_enabled").unwrap().as_bool(), Some(false));
    assert_eq!(p.params.field_toggles, Some(r#"{"withArticlePlainText":false}"#.to_string()));
    let first = likes("42".to_string(), Some(50), None);
    let variables = Json::parse(&first.params.variables).unwrap();
    assert_eq!(variables.get("count").unwrap().as_u64(), Some(50));
    assert!(variables.get("cursor").is_none());
}

#[test]
fn params_are_percent_encoded_in_the_query() {
    let p = Params {
        features: r#"{"a":true}"#.to_string(),
        variables: "x y&z".to_string(),
        field_toggles: None,
    };
    assert_eq!(p.to_string(), "features=%7B%22a%22%3Atrue%7D&variables=x%20y%26z");
    let p = Params { features: "f".to_string(), variables: "v".to_string(), field_toggles: Some("t=1".to_string()) };
    assert_eq!(p.to_string(), "features=f&variables=v&fieldToggles=t%3D1");
}

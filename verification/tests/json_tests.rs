use quilore::api_models::{MediaType, TweetEntities, TweetMedia, User};
use quilore::filter::find_by_filter;
use quilore::json::{set_member, Json, JsonNumber};
use quilore::models::{DbCollection, RelEdge};
use quilore::record::RecordId;
use quilore::table::Table;
use quilore::json_path::{find_path, get_array, get_bool, get_i64, get_object, get_path, get_string};
use quilore::serialize::{i64_from_string_or_number, i64_to_string, NumberError};

#[test]
fn parse_reads_every_kind_of_value() {
    let j = Json::parse(r#"{"a":1,"b":-2,"c":1.5,"d":"x","e":[true,null],"f":{"g":"h"}}"#).unwrap();
    assert_eq!(j.get("a").unwrap().as_u64(), Some(1));
    assert_eq!(j.get("a").unwrap().as_i64(), Some(1));
    assert_eq!(j.get("b").unwrap().as_i64(), Some(-2));
    assert_eq!(j.get("b").unwrap().as_u64(), None);
    assert!(matches!(j.get("c"), Some(Json::Number(JsonNumber::Real))));
    assert_eq!(j.get("d").unwrap().as_str(), Some("x"));
    let e = j.get("e").unwrap().as_array().unwrap();
    assert_eq!(e.len(), 2);
    assert_eq!(e[0].as_bool(), Some(true));
    assert!(e[1].is_null());
    assert!(j.get("f").unwrap().is_object());
    assert!(j.get("e").unwrap().is_array());
    assert_eq!(j.get2("f", "g").unwrap().as_str(), Some("h"));
    assert!(j.get("missing").is_none());
    assert!(j.get("a").unwrap().get("x").is_none());
}

#[test]
fn parse_refuses_what_is_no_json() {
    assert!(Json::parse("ct0=1; kdt=2").is_none());
    assert!(Json::parse("").is_none());
    assert!(Json::parse("{").is_none());
}

#[test]
fn numbers_beyond_the_signed_range_are_unsigned_only() {
    let j = Json::parse("18446744073709551615").unwrap();
    assert_eq!(j.as_u64(), Some(u64::MAX));
    assert_eq!(j.as_i64(), None);
}

#[test]
fn to_text_prints_compact_json() {
    let j = Json::parse(r#" { "b" : [ 1 , "two" , null ] , "a" : false } "#).unwrap();
    let text = j.to_text();
    assert_eq!(Json::parse(&text).unwrap().to_text(), text);
    assert!(!text.contains(' '));
    assert!(text.contains(r#""b":[1,"two",null]"#));
    assert_eq!(Json::string("a\"b").to_text(), r#""a\"b""#);
    assert_eq!(Json::number(7).to_text(), "7");
    assert_eq!(Json::object().to_text(), "{}");
    assert_eq!(Json::Number(JsonNumber::Negative(-3)).to_text(), "-3");
}

#[test]
fn clone_copies_the_whole_value() {
    let j = Json::parse(r#"{"a":[1,{"b":"c"}],"d":null}"#).unwrap();
    assert_eq!(j.clone().to_text(), j.to_text());
}

#[test]
fn at_and_path_walk_into_a_value() {
    let j = Json::parse(r#"{"a":{"b":{"c":[10,20]}}}"#).unwrap();
    let c = j.path(&vec!["a", "b", "c"]).unwrap();
    assert_eq!(c.at(1).unwrap().as_u64(), Some(20));
    assert!(c.at(2).is_none());
    assert!(j.path(&vec!["a", "x", "c"]).is_none());
    assert_eq!(j.path(&vec![]).unwrap().to_text(), j.to_text());
    assert_eq!(j.get3("a", "b", "c").unwrap().to_text(), "[10,20]");
    assert!(j.get4("a", "b", "c", "d").is_none());
    assert!(j.get5("a", "b", "c", "d", "e").is_none());
}

#[test]
fn set_member_replaces_or_appends() {
    let mut members = vec![("a".to_string(), Json::number(1)), ("b".to_string(), Json::number(2))];
    set_member(&mut members, "a".to_string(), Json::number(9));
    set_member(&mut members, "c".to_string(), Json::Bool(true));
    assert_eq!(Json::Object(members).to_text(), r#"{"a":9,"b":2,"c":true}"#);
}

#[test]
fn dotted_paths_name_members_and_elements() {
    let j = Json::parse(
        r#"{"data":{"user":{"name":"John","age":30,"ok":true,"tags":["x","y"],"more":{"k":1}}},"list":[{"v":-5}]}"#,
    )
    .unwrap();
    assert_eq!(get_string(&j, "data.user.name"), Some("John".to_string()));
    assert_eq!(get_i64(&j, "data.user.age"), Some(30));
    assert_eq!(get_i64(&j, "list.0.v"), Some(-5));
    assert_eq!(get_bool(&j, "data.user.ok"), Some(true));
    assert_eq!(get_array(&j, "data.user.tags").unwrap().len(), 2);
    assert_eq!(get_object(&j, "data.user.more").unwrap().len(), 1);
    assert_eq!(get_string(&j, "data.user.tags.1"), Some("y".to_string()));
    assert!(get_path(&j, "data.nobody").is_null());
    assert!(get_path(&j, "list.1").is_null());
    assert!(get_path(&j, "data.user.0").is_null());
    assert_eq!(get_path(&j, "data.user.more").to_text(), r#"{"k":1}"#);
    assert_eq!(get_string(&j, "data.user.age"), None);
    assert_eq!(get_i64(&j, "data.user.name"), None);
    assert_eq!(get_bool(&j, "data.user.name"), None);
    assert!(get_array(&j, "data.user").is_none());
    assert!(get_object(&j, "data.user.tags").is_none());
    assert!(find_path(&j, "list.0").is_some());
}

#[test]
fn numbers_are_read_from_texts_and_numbers() {
    assert_eq!(i64_from_string_or_number(&Json::string("-12")).unwrap(), -12);
    assert_eq!(i64_from_string_or_number(&Json::number(7)).unwrap(), 7);
    assert_eq!(i64_from_string_or_number(&Json::Number(JsonNumber::Negative(-7))).unwrap(), -7);
    match i64_from_string_or_number(&Json::string("1x")) {
        Err(e) => assert_eq!(e.message(), "cannot parse `1x` as i64"),
        Ok(n) => panic!("read {n}"),
    }
    match i64_from_string_or_number(&Json::number(u64::MAX)) {
        Err(e) => {
            assert!(matches!(e, NumberError::OutOfRange(u64::MAX)));
            assert_eq!(e.message(), "number 18446744073709551615 is out of range for i64");
        }
        Ok(n) => panic!("read {n}"),
    }
    assert!(matches!(i64_from_string_or_number(&Json::Bool(true)), Err(NumberError::WrongKind)));
    assert_eq!(i64_to_string(-40).as_str(), Some("-40"));
}

#[test]
fn filter_finds_objects_by_member_and_text() {
    let j = Json::parse(
        r#"{"kind":"x","n":1,"child":{"kind":"x","n":2,"deep":[{"kind":"x","n":3},[{"kind":"x","n":99}],{"kind":"y"}]},
            "list":[{"kind":"x","n":4},"kind",{"a":{"kind":"x","n":5}}],"kind2":{"kind":5}}"#,
    )
    .unwrap();
    let found = find_by_filter(&j, "kind", "x");
    let ns: Vec<u64> = found.iter().map(|f| f.get("n").unwrap().as_u64().unwrap()).collect();
    // serde_json keeps the members of an object in the order of their names
    assert_eq!(ns, vec![1, 2, 3, 4, 5]);
    let top = Json::parse(r#"[{"kind":"x","n":1},[{"kind":"x","n":2}],3]"#).unwrap();
    let ns: Vec<u64> =
        find_by_filter(&top, "kind", "x").iter().map(|f| f.get("n").unwrap().as_u64().unwrap()).collect();
    assert_eq!(ns, vec![1, 2]);
    assert!(find_by_filter(&Json::string("kind"), "kind", "x").is_empty());
    assert!(find_by_filter(&j, "kind", "z").is_empty());
}

#[test]
fn api_models_are_written_as_json() {
    let entities = TweetEntities {
        hashtags: vec!["a".to_string()],
        mentioned_users: vec![],
        urls: vec!["u1".to_string(), "u2".to_string()],
    };
    assert_eq!(entities.to_json().to_text(), r#"{"hashtags":["a"],"mentioned_users":[],"urls":["u1","u2"]}"#);
    let media = TweetMedia { thumbnail_url: None, kind: MediaType::Gif, url: "u".to_string() };
    assert_eq!(media.to_json().to_text(), r#"{"type":"gif","url":"u"}"#);
    let media = TweetMedia { thumbnail_url: Some("t".to_string()), kind: MediaType::Video, url: "u".to_string() };
    assert_eq!(media.to_json().to_text(), r#"{"thumbnail_url":"t","type":"video","url":"u"}"#);
    assert_eq!(MediaType::Photo.as_str(), "photo");
    let user = User {
        created_at: "c".to_string(),
        description: None,
        followers_count: 1,
        followings_count: 2,
        full_name: "F".to_string(),
        id: "7".to_string(),
        is_verified: true,
        like_count: 3,
        location: Some("L".to_string()),
        pinned_tweet: None,
        profile_banner: None,
        profile_image: "p".to_string(),
        statuses_count: 4,
        user_name: "u".to_string(),
    };
    let j = user.to_json();
    assert_eq!(j.as_object().unwrap().len(), 11);
    assert_eq!(j.get("location").unwrap().as_str(), Some("L"));
    assert!(j.get("description").is_none());
    assert_eq!(j.get("is_verified").unwrap().as_bool(), Some(true));
    assert_eq!(j.get("statuses_count").unwrap().as_u64(), Some(4));
    assert!(User::list(&j).is_empty());
}

#[test]
fn a_page_of_a_collection_ends_at_its_last_edge() {
    let edge = |n: i64, at: &str| RelEdge {
        id: RecordId::numbered(Table::Collection, n),
        in_id: RecordId::named(Table::Collection, "c"),
        out_id: RecordId::numbered(Table::Post, n),
        created_at: at.to_string(),
    };
    assert!(DbCollection::select_pagin(&Vec::new()).is_none());
    let chunk = DbCollection::select_pagin(&vec![edge(1, "t1"), edge(2, "t2")]).unwrap();
    assert_eq!(chunk.cursor, "t2");
    assert_eq!(chunk.data.len(), 2);
    assert!(chunk.data[1].same(&RecordId::numbered(Table::Post, 2)));
}

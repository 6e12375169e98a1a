use vstd::prelude::*;
use crate::json::{json_view, lemma_object_view, member_views, Json, JsonView};
use crate::like::LikedPost;

verus! {

/// The kinds of media of a post, as the platform names them.
#[derive(Debug, Clone, Copy, PartialEq, Eq, Structural)]
pub enum MediaType {
    Photo,
    Video,
    Gif,
}

impl MediaType {
    /// The kind's name in a document.
    pub open spec fn name(self) -> Seq<char> {
        match self {
            MediaType::Photo => "photo"@,
            MediaType::Video => "video"@,
            MediaType::Gif => "gif"@,
        }
    }

    pub fn as_str(&self) -> (r: &'static str)
        ensures
            r@ == self.name(),
    {
        match self {
            MediaType::Photo => "photo",
            MediaType::Video => "video",
            MediaType::Gif => "gif",
        }
    }
}

/// A list of texts as a mathematical JSON value.
pub open spec fn text_array(list: Seq<String>) -> JsonView {
    JsonView::Array(Seq::new(list.len(), |i: int| JsonView::Str(list[i]@)))
}

/// A list of texts as a JSON value.
pub fn texts_to_json(list: &Vec<String>) -> (r: Json)
    ensures
        r@ == text_array(list@),
{
    let mut items: Vec<Json> = Vec::new();
    let mut i: usize = 0;
    while i < list.len()
        invariant
            i <= list.len(),
            items@.len() == i,
            forall|k: int| 0 <= k < i ==> (#[trigger] items@[k])@ == JsonView::Str(list@[k]@),
        decreases list.len() - i,
    {
        let item = Json::Str(list[i].clone());
        assert(json_view(item) == JsonView::Str(list@[i as int]@));
        items.push(item);
        i += 1;
    }
    assert(json_view(Json::Array(items))->Array_0 =~= text_array(list@)->Array_0);
    Json::Array(items)
}

/// The kinds of records the platform serves.
#[derive(Debug, Clone, Copy, PartialEq, Eq, Structural)]
pub enum BaseType {
    Tweet,
    User,
    Notification,
}

/// The kinds of timeline instructions that the scan reads.
#[derive(Debug, Clone, Copy, PartialEq, Eq, Structural)]
pub enum EntriesType {
    TimelineAddEntries,
}

impl EntriesType {
    pub open spec fn name(self) -> Seq<char> {
        match self {
            EntriesType::TimelineAddEntries => "TimelineAddEntries"@,
        }
    }

    /// The kind named `name`, if there is one.
    pub fn from_name(name: &str) -> (r: Option<EntriesType>)
        ensures
            match r {
                Some(kind) => kind.name() == name@,
                None => name@ != EntriesType::TimelineAddEntries.name(),
            },
    {
        if crate::text::same_text(name, "TimelineAddEntries") {
            Some(EntriesType::TimelineAddEntries)
        } else {
            None
        }
    }
}

/// The links, tags and mentions of a post.
#[derive(Debug)]
pub struct TweetEntities {
    pub hashtags: Vec<String>,
    pub mentioned_users: Vec<String>,
    pub urls: Vec<String>,
}

impl TweetEntities {
    /// The entities as a JSON object.
    pub fn to_json(&self) -> (r: Json)
        ensures
            r@ == JsonView::Object(
                seq![
                    ("hashtags"@, text_array(self.hashtags@)),
                    ("mentioned_users"@, text_array(self.mentioned_users@)),
                    ("urls"@, text_array(self.urls@)),
                ],
            ),
    {
        let mut members: Vec<(String, Json)> = Vec::new();
        members.push((String::from_str("hashtags"), texts_to_json(&self.hashtags)));
        members.push((String::from_str("mentioned_users"), texts_to_json(&self.mentioned_users)));
        members.push((String::from_str("urls"), texts_to_json(&self.urls)));
        proof {
            lemma_object_view(members);
            assert(member_views(members@) =~= seq![
                ("hashtags"@, text_array(self.hashtags@)),
                ("mentioned_users"@, text_array(self.mentioned_users@)),
                ("urls"@, text_array(self.urls@)),
            ]);
        }
        Json::Object(members)
    }
}

/// One medium of a post, as the platform serves it.
#[derive(Debug)]
pub struct TweetMedia {
    pub thumbnail_url: Option<String>,
    pub kind: MediaType,
    pub url: String,
}

impl TweetMedia {
    /// The members of the medium as a JSON object: the still picture only
    /// where there is one.
    pub open spec fn members(self) -> Seq<(Seq<char>, JsonView)> {
        let thumb = match self.thumbnail_url {
            Some(t) => seq![("thumbnail_url"@, JsonView::Str(t@))],
            None => Seq::empty(),
        };
        thumb + seq![("type"@, JsonView::Str(self.kind.name())), ("url"@, JsonView::Str(self.url@))]
    }

    /// The medium as a JSON object.
    pub fn to_json(&self) -> (r: Json)
        ensures
            r@ == JsonView::Object(self.members()),
    {
        let mut members: Vec<(String, Json)> = Vec::new();
        match &self.thumbnail_url {
            Some(t) => {
                let value = Json::Str(t.clone());
                assert(json_view(value) == JsonView::Str(t@));
                members.push((String::from_str("thumbnail_url"), value));
            },
            None => {},
        }
        members.push((String::from_str("type"), Json::string(self.kind.as_str())));
        let url = Json::Str(self.url.clone());
        assert(json_view(url) == JsonView::Str(self.url@));
        members.push((String::from_str("url"), url));
        proof {
            lemma_object_view(members);
            assert(member_views(members@) =~= self.members());
        }
        Json::Object(members)
    }
}

/// A user's profile, as the platform serves it.
#[derive(Debug)]
pub struct User {
    pub created_at: String,
    pub description: Option<String>,
    pub followers_count: u32,
    pub followings_count: u32,
    pub full_name: String,
    pub id: String,
    pub is_verified: bool,
    pub like_count: u32,
    pub location: Option<String>,
    pub pinned_tweet: Option<String>,
    pub profile_banner: Option<String>,
    pub profile_image: String,
    pub statuses_count: u32,
    pub user_name: String,
}

/// A member that holds a text.
pub open spec fn text_member(key: Seq<char>, value: Seq<char>) -> (Seq<char>, JsonView) {
    (key, JsonView::Str(value))
}

/// A member that holds a count.
pub open spec fn count_member(key: Seq<char>, value: u32) -> (Seq<char>, JsonView) {
    (key, JsonView::Number(crate::json::JsonNumber::Unsigned(value as u64)))
}

/// The member of a text that may be missing: none where it is.
pub open spec fn optional_member(key: Seq<char>, value: Option<String>) -> Seq<(Seq<char>, JsonView)> {
    match value {
        Some(v) => seq![text_member(key, v@)],
        None => Seq::empty(),
    }
}

fn push_text(members: &mut Vec<(String, Json)>, key: &str, value: &String)
    ensures
        member_views(final(members)@) == member_views(old(members)@).push(text_member(key@, value@)),
{
    let item = Json::Str(value.clone());
    assert(json_view(item) == JsonView::Str(value@));
    members.push((String::from_str(key), item));
    assert(member_views(members@) =~= member_views(old(members)@).push(text_member(key@, value@)));
}

fn push_count(members: &mut Vec<(String, Json)>, key: &str, value: u32)
    ensures
        member_views(final(members)@) == member_views(old(members)@).push(count_member(key@, value)),
{
    let item = Json::number(value as u64);
    assert(json_view(item) == JsonView::Number(crate::json::JsonNumber::Unsigned(value as u64)));
    members.push((String::from_str(key), item));
    assert(member_views(members@) =~= member_views(old(members)@).push(count_member(key@, value)));
}

fn push_optional(members: &mut Vec<(String, Json)>, key: &str, value: &Option<String>)
    ensures
        member_views(final(members)@) == member_views(old(members)@) + optional_member(key@, *value),
{
    match value {
        Some(v) => {
            push_text(members, key, v);
            assert(member_views(members@) =~= member_views(old(members)@) + optional_member(
                key@,
                *value,
            ));
        },
        None => {
            assert(member_views(members@) =~= member_views(old(members)@) + optional_member(
                key@,
                *value,
            ));
        },
    }
}

impl User {
    /// The members of the profile as a JSON object; a text that is missing
    /// has no member.
    pub open spec fn members(self) -> Seq<(Seq<char>, JsonView)> {
        seq![text_member("created_at"@, self.created_at@)] + optional_member(
            "description"@,
            self.description,
        ) + seq![
            count_member("followers_count"@, self.followers_count),
            count_member("followings_count"@, self.followings_count),
            text_member("full_name"@, self.full_name@),
            text_member("id"@, self.id@),
            ("is_verified"@, JsonView::Bool(self.is_verified)),
            count_member("like_count"@, self.like_count),
        ] + optional_member("location"@, self.location) + optional_member(
            "pinned_tweet"@,
            self.pinned_tweet,
        ) + optional_member("profile_banner"@, self.profile_banner) + seq![
            text_member("profile_image"@, self.profile_image@),
            count_member("statuses_count"@, self.statuses_count),
            text_member("user_name"@, self.user_name@),
        ]
    }

    /// The profile as a JSON object.
    pub fn to_json(&self) -> (r: Json)
        ensures
            r@ == JsonView::Object(self.members()),
    {
        let mut members: Vec<(String, Json)> = Vec::new();
        assert(member_views(members@) =~= Seq::empty());
        push_text(&mut members, "created_at", &self.created_at);
        push_optional(&mut members, "description", &self.description);
        push_count(&mut members, "followers_count", self.followers_count);
        push_count(&mut members, "followings_count", self.followings_count);
        push_text(&mut members, "full_name", &self.full_name);
        push_text(&mut members, "id", &self.id);
        let ghost before = member_views(members@);
        members.push((String::from_str("is_verified"), Json::Bool(self.is_verified)));
        assert(member_views(members@) =~= before.push(("is_verified"@, JsonView::Bool(self.is_verified))));
        push_count(&mut members, "like_count", self.like_count);
        push_optional(&mut members, "location", &self.location);
        push_optional(&mut members, "pinned_tweet", &self.pinned_tweet);
        push_optional(&mut members, "profile_banner", &self.profile_banner);
        push_text(&mut members, "profile_image", &self.profile_image);
        push_count(&mut members, "statuses_count", self.statuses_count);
        push_text(&mut members, "user_name", &self.user_name);
        proof {
            lemma_object_view(members);
            assert(member_views(members@) =~= self.members());
        }
        Json::Object(members)
    }

    /// The profiles that a response lists. There are none: the platform's
    /// listings of users are not read.
    pub fn list(response: &Json) -> (r: Vec<User>)
        ensures
            r@.len() == 0,
    {
        Vec::new()
    }
}

/// Tells the interface how far a scan of the likes has come.
#[derive(Debug, Clone, Copy, PartialEq, Eq, Structural)]
pub struct ScanLikesEvent {
    pub count: u32,
    pub running: bool,
}

/// What an export of the archive says of itself.
#[derive(Debug)]
pub struct TweetMetaData {
    pub item: String,
    pub created_at: String,
    pub proj_path: String,
}

/// An export of the archive.
#[derive(Debug)]
pub struct TweetData {
    pub metadata: TweetMetaData,
    pub results: Vec<LikedPost>,
}

} // verus!

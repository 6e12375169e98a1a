use vstd::prelude::*;
use vstd::string::StringExecFns;
use crate::asset::Asset;
use crate::like::{DbLikedPost, LikedPost};
use crate::media::{AnimatedGifMedia, DbMedia, Media, MediaBase, PhotoMedia, VideoMedia};
use crate::meta::{Meta, MetaKey, MetaValue};
use crate::post::{DbPost, Post, QuotePost};
use crate::record::{RecordId, RecordIdView, RecordKey, RecordKeyView};
use crate::table::Table;
use crate::text::{concat, contains, occurs_in, same_text};
use crate::numbers::{decimal, i64_to_text, parse_i64, parse_u32, parsed_i64, parsed_u32};
use crate::userkv::{UserKV, UserKVValue, UserKey};
use crate::users::{DbUser, User};

verus! {

/// Why a persisted record could not be turned into what it stands for.
#[derive(Debug, Clone, Copy, PartialEq, Eq, Structural)]
pub enum DomainError {
    /// The key of the record is not the number it has to be.
    BadKey,
    /// The record names a kind of medium that is not known.
    UnknownMedia,
    /// A moving medium came without its still picture.
    NoThumb,
    /// The key of the record names no setting.
    UnknownKey,
}

/// The text of a record key: the text itself, or the number in decimal.
pub open spec fn key_text(key: RecordKeyView) -> Seq<char> {
    match key {
        RecordKeyView::Number(n) => decimal(n),
        RecordKeyView::Text(t) => t,
    }
}

impl RecordKey {
    /// The key as text.
    pub fn to_text(&self) -> (r: String)
        ensures
            r@ == key_text(self@),
    {
        match self {
            RecordKey::Number(n) => i64_to_text(*n),
            RecordKey::Text(t) => t.clone(),
        }
    }

    /// The number of 64 bits that the key is, or is the text of.
    pub open spec fn number(self) -> Option<i64> {
        match self {
            RecordKey::Number(n) => Some(n),
            RecordKey::Text(t) => parsed_i64(t@),
        }
    }

    pub fn as_number(&self) -> (r: Option<i64>)
        ensures
            r == self.number(),
    {
        match self {
            RecordKey::Number(n) => Some(*n),
            RecordKey::Text(t) => parse_i64(t.as_str()),
        }
    }

    /// The sort index that the key is, or is the text of.
    pub open spec fn index(self) -> Option<u32> {
        match self {
            RecordKey::Number(n) => if 0 <= n <= u32::MAX {
                Some(n as u32)
            } else {
                None
            },
            RecordKey::Text(t) => parsed_u32(t@),
        }
    }

    pub fn as_index(&self) -> (r: Option<u32>)
        ensures
            r == self.index(),
    {
        match self {
            RecordKey::Number(n) => if 0 <= *n && *n <= 0xffff_ffffi64 {
                Some(*n as u32)
            } else {
                None
            },
            RecordKey::Text(t) => parse_u32(t.as_str()),
        }
    }
}

impl DbLikedPost {
    /// The liked post that this record stands for, given the post that it
    /// refers to.
    pub fn into_domain(self, post: Post) -> (r: Result<LikedPost, DomainError>)
        ensures
            match self.id.key.index() {
                Some(sortidx) => r == Ok::<LikedPost, DomainError>(LikedPost { sortidx, post }),
                None => r == Err::<LikedPost, DomainError>(DomainError::BadKey),
            },
    {
        match self.id.key.as_index() {
            Some(sortidx) => Ok(LikedPost { sortidx, post }),
            None => Err(DomainError::BadKey),
        }
    }
}

impl DbUser {
    /// The author that this record stands for, given the profile picture
    /// that it refers to.
    pub fn into_domain(self, avatar: Asset) -> (r: User)
        ensures
            r.id@ == key_text(self.id.key@),
            r.name == self.name,
            r.avatar == avatar,
    {
        User { id: self.id.key.to_text(), name: self.name, avatar }
    }
}

impl DbMedia {
    /// The medium that this record stands for, given the assets that it
    /// refers to. A moving medium without aspect ratio has that of a wide
    /// screen; a video without duration has none.
    pub fn into_domain(self, asset: Asset, thumb: Option<Asset>) -> (r: Result<Media, DomainError>)
        ensures
            ({
                let base = MediaBase {
                    id: r->Ok_0.base().id,
                    asset,
                    description: self.description,
                    width: self.width,
                    height: self.height,
                };
                let ratio = match self.aspect_ratio {
                    Some(a) => a,
                    None => (16u32, 9u32),
                };
                if self.media_type@ == "photo"@ {
                    r is Ok && r->Ok_0 == Media::Photo(PhotoMedia { base })
                } else if self.media_type@ == "video"@ {
                    match thumb {
                        Some(t) => r is Ok && r->Ok_0 == Media::Video(
                            VideoMedia {
                                base,
                                aspect_ratio: ratio,
                                thumb: t,
                                duration_millis: match self.duration_millis {
                                    Some(d) => d,
                                    None => 0,
                                },
                            },
                        ),
                        None => r == Err::<Media, DomainError>(DomainError::NoThumb),
                    }
                } else if self.media_type@ == "animated_gif"@ {
                    match thumb {
                        Some(t) => r is Ok && r->Ok_0 == Media::AnimatedGif(
                            AnimatedGifMedia { base, aspect_ratio: ratio, thumb: t },
                        ),
                        None => r == Err::<Media, DomainError>(DomainError::NoThumb),
                    }
                } else {
                    r == Err::<Media, DomainError>(DomainError::UnknownMedia)
                }
            }),
            r is Ok ==> r->Ok_0.base().id@ == "media:"@ + key_text(self.id.key@),
    {
        let kind = self.media_type;
        let is_photo = same_text(kind.as_str(), "photo");
        let is_video = same_text(kind.as_str(), "video");
        let is_gif = same_text(kind.as_str(), "animated_gif");
        if !is_photo && !is_video && !is_gif {
            return Err(DomainError::UnknownMedia);
        }
        let base = MediaBase {
            id: concat("media:", self.id.key.to_text().as_str()),
            asset,
            description: self.description,
            width: self.width,
            height: self.height,
        };
        let ratio = match self.aspect_ratio {
            Some(a) => a,
            None => (16, 9),
        };
        if is_photo {
            Ok(Media::Photo(PhotoMedia { base }))
        } else {
            match thumb {
                Some(t) => if is_video {
                    Ok(
                        Media::Video(
                            VideoMedia {
                                base,
                                aspect_ratio: ratio,
                                thumb: t,
                                duration_millis: match self.duration_millis {
                                    Some(d) => d,
                                    None => 0,
                                },
                            },
                        ),
                    )
                } else {
                    Ok(Media::AnimatedGif(AnimatedGifMedia { base, aspect_ratio: ratio, thumb: t }))
                },
                None => Err(DomainError::NoThumb),
            }
        }
    }
}

impl DbPost {
    /// The post that this record stands for, given the author, the media
    /// and the quoted post that it refers to. Replies are looked up only
    /// when they are shown.
    pub fn into_domain(
        self,
        author: User,
        media: Option<Vec<Media>>,
        quote: Option<QuotePost>,
    ) -> (r: Result<Post, DomainError>)
        ensures
            match self.id.key.number() {
                Some(rest_id) => r == Ok::<Post, DomainError>(
                    Post {
                        rest_id,
                        created_at: self.created_at,
                        author,
                        content: self.content,
                        media,
                        quote,
                        key_words: self.key_words,
                        replies: None,
                        card: self.card,
                        article: self.article,
                    },
                ),
                None => r == Err::<Post, DomainError>(DomainError::BadKey),
            },
    {
        match self.id.key.as_number() {
            Some(rest_id) => Ok(
                Post {
                    rest_id,
                    created_at: self.created_at,
                    author,
                    content: self.content,
                    media,
                    quote,
                    key_words: self.key_words,
                    replies: None,
                    card: self.card,
                    article: self.article,
                },
            ),
            None => Err(DomainError::BadKey),
        }
    }

    /// The quoted post that this record stands for, given the author and
    /// the media that it refers to.
    pub fn convert_quote(self, author: User, media: Option<Vec<Media>>) -> (r: Result<
        QuotePost,
        DomainError,
    >)
        ensures
            match self.id.key.number() {
                Some(rest_id) => r == Ok::<QuotePost, DomainError>(
                    QuotePost {
                        rest_id,
                        created_at: self.created_at,
                        author,
                        content: self.content,
                        media,
                        key_words: self.key_words,
                        card: self.card,
                        article: self.article,
                    },
                ),
                None => r == Err::<QuotePost, DomainError>(DomainError::BadKey),
            },
    {
        match self.id.key.as_number() {
            Some(rest_id) => Ok(
                QuotePost {
                    rest_id,
                    created_at: self.created_at,
                    author,
                    content: self.content,
                    media,
                    key_words: self.key_words,
                    card: self.card,
                    article: self.article,
                },
            ),
            None => Err(DomainError::BadKey),
        }
    }
}

/// A setting as persisted.
#[derive(Debug)]
pub struct DbMeta {
    pub id: RecordId,
    pub v: MetaValue,
}

impl DbMeta {
    pub fn new(id: String, v: MetaValue) -> (r: DbMeta)
        ensures
            r.id@ == (RecordIdView { table: Table::Meta, key: RecordKeyView::Text(id@) }),
            r.v == v,
    {
        DbMeta { id: RecordId::named(Table::Meta, id.as_str()), v }
    }

    pub fn from_domain(meta: Meta) -> (r: DbMeta)
        ensures
            r.id@ == (RecordIdView { table: Table::Meta, key: RecordKeyView::Text(meta.id.name()) }),
            r.v == meta.v,
    {
        DbMeta::new(String::from_str(meta.id.as_str()), meta.v)
    }

    /// The setting that this record stands for; an error where its key
    /// names none.
    pub fn to_domain(self) -> (r: Result<Meta, String>)
        ensures
            match r {
                Ok(meta) => meta.id.name() == key_text(self.id.key@) && meta.v == self.v,
                Err(message) => {
                    &&& key_text(self.id.key@) != MetaKey::FirstCursor.name()
                    &&& key_text(self.id.key@) != MetaKey::SaveDir.name()
                    &&& message@ == "Failed to parse MetaKey: "@ + ("Unknown MetaKey: "@ + key_text(
                        self.id.key@,
                    ))
                },
            },
    {
        let key = self.id.key.to_text();
        match MetaKey::from_str(key.as_str()) {
            Ok(id) => Ok(Meta { id, v: self.v }),
            Err(e) => Err(concat("Failed to parse MetaKey: ", e.as_str())),
        }
    }
}

/// A stored value of a user as persisted.
#[derive(Debug)]
pub struct DbUserKV {
    pub id: RecordId,
    pub value: UserKVValue,
}

impl DbUserKV {
    pub fn new(key: UserKey, value: UserKVValue) -> (r: DbUserKV)
        ensures
            r.id@ == (RecordIdView { table: Table::UserKV, key: RecordKeyView::Text(key.name()) }),
            r.value == value,
    {
        DbUserKV { id: RecordId::named(Table::UserKV, key.as_str()), value }
    }

    pub fn from_domain(kv: UserKV) -> (r: DbUserKV)
        ensures
            r.id@ == (RecordIdView { table: Table::UserKV, key: RecordKeyView::Text(kv.key.name()) }),
            r.value == kv.value,
    {
        DbUserKV::new(kv.key, kv.value)
    }

    /// The stored value that this record stands for; an error where its key
    /// names none.
    pub fn to_domain(self) -> (r: Result<UserKV, String>)
        ensures
            match r {
                Ok(kv) => kv.key.name() == key_text(self.id.key@) && kv.value == self.value,
                Err(message) => {
                    &&& key_text(self.id.key@) != UserKey::Twitter.name()
                    &&& message@ == "Failed to parse UserKey: "@ + ("Unknown UserKey: "@ + key_text(
                        self.id.key@,
                    ))
                },
            },
    {
        let key = self.id.key.to_text();
        match UserKey::from_str(key.as_str()) {
            Ok(key) => Ok(UserKV { key, value: self.value }),
            Err(e) => Err(concat("Failed to parse UserKey: ", e.as_str())),
        }
    }
}

/// What a lookup by key gives: a record that is not found is no error.
pub fn found_or_absent<T>(looked_up: Result<T, String>) -> (r: Result<Option<T>, String>)
    ensures
        match looked_up {
            Ok(value) => r == Ok::<Option<T>, String>(Some(value)),
            Err(message) => if occurs_in(message@, "not found"@) {
                r == Ok::<Option<T>, String>(None)
            } else {
                r == Err::<Option<T>, String>(message)
            },
        },
{
    match looked_up {
        Ok(value) => Ok(Some(value)),
        Err(message) => {
            if contains(message.as_str(), "not found") {
                Ok(None)
            } else {
                Err(message)
            }
        },
    }
}

/// The range of sort indices of the `num` likes that end at `end`: it
/// begins at zero where fewer come before `end`.
pub fn take_range(num: i64, end: i64) -> (r: (i64, i64))
    ensures
        r.1 == end,
        r.0 == if end - num < 0 {
            0
        } else if end - num > i64::MAX {
            i64::MAX
        } else {
            (end - num) as i64
        },
{
    let start = match end.checked_sub(num) {
        Some(s) => if s < 0 {
            0
        } else {
            s
        },
        None => if num > 0 {
            0
        } else {
            0x7fff_ffff_ffff_ffffi64
        },
    };
    (start, end)
}

} // verus!

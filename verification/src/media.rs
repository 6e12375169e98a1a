use vstd::prelude::*;
use crate::asset::{asset_record, Asset, AssetView};
use crate::record::{RecordId, RecordIdView, RecordKeyView};
use crate::table::Table;

verus! {

/// What every medium has, as a mathematical value.
pub struct MediaBaseView {
    pub id: Seq<char>,
    pub asset: AssetView,
    pub description: Option<Seq<char>>,
    pub width: Option<u32>,
    pub height: Option<u32>,
}

/// A medium as a mathematical value.
pub enum MediaView {
    Photo { base: MediaBaseView },
    Video { base: MediaBaseView, aspect_ratio: (u32, u32), thumb: AssetView, duration_millis: u32 },
    AnimatedGif { base: MediaBaseView, aspect_ratio: (u32, u32), thumb: AssetView },
}

/// What every medium has: its name, its file, a description, its size.
#[derive(Debug)]
pub struct MediaBase {
    pub id: String,
    pub asset: Asset,
    pub description: Option<String>,
    pub width: Option<u32>,
    pub height: Option<u32>,
}

#[derive(Debug)]
pub struct PhotoMedia {
    pub base: MediaBase,
}

#[derive(Debug)]
pub struct VideoMedia {
    pub base: MediaBase,
    pub aspect_ratio: (u32, u32),
    pub thumb: Asset,
    pub duration_millis: u32,
}

#[derive(Debug)]
pub struct AnimatedGifMedia {
    pub base: MediaBase,
    pub aspect_ratio: (u32, u32),
    pub thumb: Asset,
}

/// A picture, a video or an animation attached to a post.
#[derive(Debug)]
pub enum Media {
    Photo(PhotoMedia),
    Video(VideoMedia),
    AnimatedGif(AnimatedGifMedia),
}

impl DeepView for MediaBase {
    type V = MediaBaseView;

    open spec fn deep_view(&self) -> MediaBaseView {
        MediaBaseView {
            id: self.id@,
            asset: self.asset@,
            description: self.description.deep_view(),
            width: self.width,
            height: self.height,
        }
    }
}

impl DeepView for Media {
    type V = MediaView;

    open spec fn deep_view(&self) -> MediaView {
        match self {
            Media::Photo(p) => MediaView::Photo { base: p.base.deep_view() },
            Media::Video(v) => MediaView::Video {
                base: v.base.deep_view(),
                aspect_ratio: v.aspect_ratio,
                thumb: v.thumb@,
                duration_millis: v.duration_millis,
            },
            Media::AnimatedGif(g) => MediaView::AnimatedGif {
                base: g.base.deep_view(),
                aspect_ratio: g.aspect_ratio,
                thumb: g.thumb@,
            },
        }
    }
}

impl MediaView {
    /// What every medium has.
    pub open spec fn base(self) -> MediaBaseView {
        match self {
            MediaView::Photo { base } => base,
            MediaView::Video { base, .. } => base,
            MediaView::AnimatedGif { base, .. } => base,
        }
    }

    /// The still picture of a moving medium.
    pub open spec fn thumb(self) -> Option<AssetView> {
        match self {
            MediaView::Photo { .. } => None,
            MediaView::Video { thumb, .. } => Some(thumb),
            MediaView::AnimatedGif { thumb, .. } => Some(thumb),
        }
    }

    /// The medium's kind, as it is persisted.
    pub open spec fn kind(self) -> Seq<char> {
        match self {
            MediaView::Photo { .. } => "photo"@,
            MediaView::Video { .. } => "video"@,
            MediaView::AnimatedGif { .. } => "animated_gif"@,
        }
    }

    /// The files of the medium: its own, then its still picture.
    pub open spec fn assets(self) -> Seq<AssetView> {
        match self.thumb() {
            Some(t) => seq![self.base().asset, t],
            None => seq![self.base().asset],
        }
    }
}

impl Clone for MediaBase {
    fn clone(&self) -> (r: Self)
        ensures
            r == *self,
    {
        MediaBase {
            id: self.id.clone(),
            asset: self.asset.clone(),
            description: match &self.description {
                Some(d) => Some(d.clone()),
                None => None,
            },
            width: self.width,
            height: self.height,
        }
    }
}

impl Clone for Media {
    fn clone(&self) -> (r: Self)
        ensures
            r == *self,
    {
        match self {
            Media::Photo(p) => Media::Photo(PhotoMedia { base: p.base.clone() }),
            Media::Video(v) => Media::Video(
                VideoMedia {
                    base: v.base.clone(),
                    aspect_ratio: v.aspect_ratio,
                    thumb: v.thumb.clone(),
                    duration_millis: v.duration_millis,
                },
            ),
            Media::AnimatedGif(g) => Media::AnimatedGif(
                AnimatedGifMedia {
                    base: g.base.clone(),
                    aspect_ratio: g.aspect_ratio,
                    thumb: g.thumb.clone(),
                },
            ),
        }
    }
}

/// The identifier under which the medium named `id` is persisted.
pub open spec fn media_record(id: Seq<char>) -> RecordIdView {
    RecordIdView { table: Table::Media, key: RecordKeyView::Text(id) }
}

impl Media {
    /// What every medium has.
    pub open spec fn base(self) -> MediaBase {
        match self {
            Media::Photo(p) => p.base,
            Media::Video(v) => v.base,
            Media::AnimatedGif(g) => g.base,
        }
    }

    /// The still picture of a moving medium.
    pub open spec fn thumb(self) -> Option<Asset> {
        match self {
            Media::Photo(_) => None,
            Media::Video(v) => Some(v.thumb),
            Media::AnimatedGif(g) => Some(g.thumb),
        }
    }

    /// The medium's kind, as it is persisted.
    pub open spec fn kind(self) -> Seq<char> {
        match self {
            Media::Photo(_) => "photo"@,
            Media::Video(_) => "video"@,
            Media::AnimatedGif(_) => "animated_gif"@,
        }
    }

    pub fn get_asset(self) -> (r: Asset)
        ensures
            r == self.base().asset,
    {
        match self {
            Media::Photo(photo) => photo.base.asset,
            Media::Video(video) => video.base.asset,
            Media::AnimatedGif(gif) => gif.base.asset,
        }
    }

    pub fn get_thumb(self) -> (r: Option<Asset>)
        ensures
            r == self.thumb(),
    {
        match self {
            Media::Photo(_) => None,
            Media::Video(video) => Some(video.thumb),
            Media::AnimatedGif(gif) => Some(gif.thumb),
        }
    }

    /// The identifier under which the medium is persisted.
    pub fn record_id(&self) -> (r: RecordId)
        ensures
            r@ == media_record(self.base().id@),
    {
        match self {
            Media::Photo(photo) => RecordId::named(Table::Media, photo.base.id.as_str()),
            Media::Video(video) => RecordId::named(Table::Media, video.base.id.as_str()),
            Media::AnimatedGif(gif) => RecordId::named(Table::Media, gif.base.id.as_str()),
        }
    }

    pub fn into_db(self) -> (r: DbMedia)
        ensures
            r.stands_for(self.deep_view()),
    {
        DbMedia::from_domain(self)
    }
}

/// A medium as persisted: its files are references to their assets, and
/// what only a moving medium has is optional.
#[derive(Debug)]
pub struct DbMedia {
    pub id: RecordId,
    pub media_type: String,
    pub asset: RecordId,
    pub description: Option<String>,
    pub width: Option<u32>,
    pub height: Option<u32>,
    pub aspect_ratio: Option<(u32, u32)>,
    pub thumb: Option<RecordId>,
    pub duration_millis: Option<u32>,
}

impl DbMedia {
    /// Whether this record is the one of the medium `media`.
    pub open spec fn stands_for(self, media: MediaView) -> bool {
        &&& self.id@ == media_record(media.base().id)
        &&& self.media_type@ == media.kind()
        &&& self.asset@ == asset_record(media.base().asset)
        &&& self.description.deep_view() == media.base().description
        &&& self.width == media.base().width
        &&& self.height == media.base().height
        &&& match media {
            MediaView::Photo { .. } => {
                &&& self.aspect_ratio is None
                &&& self.thumb is None
                &&& self.duration_millis is None
            },
            MediaView::Video { aspect_ratio, thumb, duration_millis, .. } => {
                &&& self.aspect_ratio == Some(aspect_ratio)
                &&& self.thumb is Some
                &&& self.thumb->0@ == asset_record(thumb)
                &&& self.duration_millis == Some(duration_millis)
            },
            MediaView::AnimatedGif { aspect_ratio, thumb, .. } => {
                &&& self.aspect_ratio == Some(aspect_ratio)
                &&& self.thumb is Some
                &&& self.thumb->0@ == asset_record(thumb)
                &&& self.duration_millis is None
            },
        }
    }

    pub fn from_domain(media: Media) -> (r: DbMedia)
        ensures
            r.stands_for(media.deep_view()),
    {
        let id = media.record_id();
        match media {
            Media::Photo(photo) => {
                let base = photo.base;
                DbMedia {
                    id,
                    media_type: String::from_str("photo"),
                    asset: base.asset.record_id(),
                    description: base.description,
                    width: base.width,
                    height: base.height,
                    aspect_ratio: None,
                    thumb: None,
                    duration_millis: None,
                }
            },
            Media::Video(video) => {
                let base = video.base;
                DbMedia {
                    id,
                    media_type: String::from_str("video"),
                    asset: base.asset.record_id(),
                    description: base.description,
                    width: base.width,
                    height: base.height,
                    aspect_ratio: Some(video.aspect_ratio),
                    thumb: Some(video.thumb.record_id()),
                    duration_millis: Some(video.duration_millis),
                }
            },
            Media::AnimatedGif(gif) => {
                let base = gif.base;
                DbMedia {
                    id,
                    media_type: String::from_str("animated_gif"),
                    asset: base.asset.record_id(),
                    description: base.description,
                    width: base.width,
                    height: base.height,
                    aspect_ratio: Some(gif.aspect_ratio),
                    thumb: Some(gif.thumb.record_id()),
                    duration_millis: None,
                }
            },
        }
    }
}

} // verus!

use vstd::prelude::*;
use vstd::string::StringExecFns;
use crate::asset::{Asset, AssetType, AssetView};
use crate::json::{items_in, items_of, text_in, text_of, unsigned_in, unsigned_of, Json};
use crate::media::{AnimatedGifMedia, Media, MediaBase, MediaBaseView, MediaView, PhotoMedia, VideoMedia};
use crate::meta::GlobalVal;
use crate::text::{concat, last_path_segment, last_segment, same_text, split_all, split_on};
use crate::users::{fresh_asset, new_asset};

verus! {

/// The bit rate that a variant of a video names; zero where it names none.
pub open spec fn bitrate(variant: Json) -> u64 {
    match unsigned_of(variant.field("bitrate"@)) {
        Some(n) => n,
        None => 0,
    }
}

/// The variant with the highest bit rate; of several with that rate, the
/// last.
pub open spec fn best_variant(variants: Seq<Json>) -> Option<Json>
    decreases variants.len(),
{
    if variants.len() == 0 {
        None
    } else {
        match best_variant(variants.drop_last()) {
            Some(best) => if bitrate(variants.last()) >= bitrate(best) {
                Some(variants.last())
            } else {
                Some(best)
            },
            None => Some(variants.last()),
        }
    }
}

/// A width or a height, cut to 32 bits.
pub open spec fn dimension(value: Option<Json>) -> Option<u32> {
    match unsigned_of(value) {
        Some(n) => Some(n as u32),
        None => None,
    }
}

/// The address of a photo in its largest size: the name of the file without
/// its ending, and the ending as the format.
pub open spec fn photo_address(file: Seq<char>) -> Seq<char> {
    let parts = split_all(file, '.');
    "https://pbs.twimg.com/media/"@ + parts.first() + "?format="@ + parts.last() + "&name=4096x4096"@
}

/// The photo that a record of the platform describes.
pub open spec fn photo_from_api(json: Json, save_dir: Option<Seq<char>>) -> Option<MediaView> {
    match text_of(json.field("media_url_https"@)) {
        Some(original) => match (last_segment(original), save_dir) {
            (Some(id), Some(base)) => Some(
                MediaView::Photo {
                    base: MediaBaseView {
                        id,
                        asset: fresh_asset(AssetType::Media, photo_address(id), id, base),
                        description: None,
                        width: dimension(json.at2("original_info"@, "width"@)),
                        height: dimension(json.at2("original_info"@, "height"@)),
                    },
                },
            ),
            _ => None,
        },
        None => None,
    }
}

/// The variants of a video; none where they are no list.
pub open spec fn variants_of(json: Json) -> Option<Seq<Json>> {
    match json.at2("video_info"@, "variants"@) {
        Some(v) => match v.items() {
            Some(items) => Some(items),
            None => Some(Seq::empty()),
        },
        None => None,
    }
}

/// The two numbers of an aspect ratio, each cut to 32 bits.
pub open spec fn aspect_ratio(json: Json) -> Option<(u32, u32)> {
    match items_of(json.at2("video_info"@, "aspect_ratio"@)) {
        Some(pair) => if pair.len() >= 2 && pair[0].unsigned() is Some && pair[1].unsigned() is Some {
            Some((pair[0].unsigned()->0 as u32, pair[1].unsigned()->0 as u32))
        } else {
            None
        },
        None => None,
    }
}

/// What a video and an animation have in common: the file of the best
/// variant, the aspect ratio, and the still picture.
pub open spec fn moving_from_api(json: Json, save_dir: Option<Seq<char>>) -> Option<
    (MediaBaseView, (u32, u32), AssetView),
> {
    match (variants_of(json), json.field("original_info"@), save_dir) {
        (Some(variants), Some(info), Some(base)) => match best_variant(variants) {
            Some(best) => match text_of(best.field("url"@)) {
                Some(url) => match (
                    last_segment(url),
                    aspect_ratio(json),
                    text_of(json.field("media_url_https"@)),
                ) {
                    (Some(id), Some(ratio), Some(still)) => match last_segment(still) {
                        Some(still_name) => Some(
                            (
                                MediaBaseView {
                                    id,
                                    asset: fresh_asset(AssetType::Media, url, id, base),
                                    description: None,
                                    width: dimension(info.field("width"@)),
                                    height: dimension(info.field("height"@)),
                                },
                                ratio,
                                fresh_asset(AssetType::Thumb, still, still_name, base),
                            ),
                        ),
                        None => None,
                    },
                    _ => None,
                },
                None => None,
            },
            None => None,
        },
        _ => None,
    }
}

/// The medium that a record of the platform describes: a photo, a video or
/// an animation; `None` of any other kind and of a record that lacks what
/// its kind needs.
pub open spec fn media_from_api(json: Json, save_dir: Option<Seq<char>>) -> Option<MediaView> {
    match text_of(json.field("type"@)) {
        Some(kind) => if kind == "photo"@ {
            photo_from_api(json, save_dir)
        } else if kind == "video"@ {
            match (moving_from_api(json, save_dir), unsigned_of(json.at2("video_info"@, "duration_millis"@))) {
                (Some((base, ratio, thumb)), Some(duration)) => Some(
                    MediaView::Video {
                        base,
                        aspect_ratio: ratio,
                        thumb,
                        duration_millis: duration as u32,
                    },
                ),
                _ => None,
            }
        } else if kind == "animated_gif"@ {
            match moving_from_api(json, save_dir) {
                Some((base, ratio, thumb)) => Some(
                    MediaView::AnimatedGif { base, aspect_ratio: ratio, thumb },
                ),
                None => None,
            }
        } else {
            None
        },
        None => None,
    }
}

fn cut(n: Option<u64>) -> (r: Option<u32>)
    ensures
        r == match n {
            Some(v) => Some(v as u32),
            None => None,
        },
{
    match n {
        Some(v) => Some(#[verifier::truncate] (v as u32)),
        None => None,
    }
}

fn pick_best(variants: &Vec<Json>) -> (r: Option<&Json>)
    ensures
        match r {
            Some(j) => best_variant(variants@) == Some(*j),
            None => best_variant(variants@) is None,
        },
{
    if variants.len() == 0 {
        return None;
    }
    let mut best: usize = 0;
    let mut best_rate: u64 = match unsigned_in(variants[0].get("bitrate")) {
        Some(n) => n,
        None => 0,
    };
    let mut i: usize = 1;
    assert(variants@.subrange(0, 1).drop_last() =~= Seq::<Json>::empty());
    assert(best_variant(variants@.subrange(0, 1).drop_last()) is None);
    while i < variants.len()
        invariant
            1 <= i <= variants.len(),
            best < i,
            best_rate == bitrate(variants@[best as int]),
            best_variant(variants@.subrange(0, i as int)) == Some(variants@[best as int]),
        decreases variants.len() - i,
    {
        assert(variants@.subrange(0, i as int + 1).drop_last() =~= variants@.subrange(0, i as int));
        assert(variants@.subrange(0, i as int + 1).last() == variants@[i as int]);
        let rate = match unsigned_in(variants[i].get("bitrate")) {
            Some(n) => n,
            None => 0,
        };
        if rate >= best_rate {
            best = i;
            best_rate = rate;
        }
        i += 1;
    }
    assert(variants@.subrange(0, variants@.len() as int) =~= variants@);
    Some(&variants[best])
}

fn read_photo(json: &Json, globals: &GlobalVal) -> (r: Option<Media>)
    ensures
        r.deep_view() == photo_from_api(*json, globals.save_dir.deep_view()),
{
    let original = text_in(json.get("media_url_https"))?;
    let id = last_path_segment(original)?;
    let base = match &globals.save_dir {
        Some(dir) => dir,
        None => {
            return None;
        },
    };
    let parts = split_on(id.as_str(), '.');
    proof {
        crate::text::lemma_split_all_nonempty(id@, '.');
    }
    assert(parts.deep_view().len() == parts@.len());
    let stem = parts[0].as_str();
    let ending = parts[parts.len() - 1].as_str();
    assert(parts.deep_view().first() == stem@);
    assert(parts.deep_view().last() == ending@);
    let mut url = concat("https://pbs.twimg.com/media/", stem);
    url.append("?format=");
    url.append(ending);
    url.append("&name=4096x4096");
    let width = cut(unsigned_in(json.get2("original_info", "width")));
    let height = cut(unsigned_in(json.get2("original_info", "height")));
    let asset = new_asset(AssetType::Media, url, id.clone(), base.as_str());
    Some(Media::Photo(PhotoMedia { base: MediaBase { id, asset, description: None, width, height } }))
}

fn read_ratio(json: &Json) -> (r: Option<(u32, u32)>)
    ensures
        r == aspect_ratio(*json),
{
    let pair = items_in(json.get2("video_info", "aspect_ratio"))?;
    if pair.len() < 2 {
        return None;
    }
    let a = pair[0].as_u64()?;
    let b = pair[1].as_u64()?;
    Some((#[verifier::truncate] (a as u32), #[verifier::truncate] (b as u32)))
}

fn read_moving(json: &Json, globals: &GlobalVal) -> (r: Option<(MediaBase, (u32, u32), Asset)>)
    ensures
        match r {
            Some((base, ratio, thumb)) => moving_from_api(*json, globals.save_dir.deep_view()) == Some(
                (base.deep_view(), ratio, thumb@),
            ),
            None => moving_from_api(*json, globals.save_dir.deep_view()) is None,
        },
{
    let listed = json.get2("video_info", "variants")?;
    let empty: Vec<Json> = Vec::new();
    let variants = match listed.as_array() {
        Some(items) => items,
        None => &empty,
    };
    let info = json.get("original_info")?;
    let base_dir = match &globals.save_dir {
        Some(dir) => dir,
        None => {
            return None;
        },
    };
    let best = pick_best(variants)?;
    let url = text_in(best.get("url"))?;
    let id = last_path_segment(url)?;
    let ratio = read_ratio(json)?;
    let still = text_in(json.get("media_url_https"))?;
    let still_name = last_path_segment(still)?;
    let width = cut(unsigned_in(info.get("width")));
    let height = cut(unsigned_in(info.get("height")));
    let asset = new_asset(AssetType::Media, String::from_str(url), id.clone(), base_dir.as_str());
    let thumb = new_asset(AssetType::Thumb, String::from_str(still), still_name, base_dir.as_str());
    Some((MediaBase { id, asset, description: None, width, height }, ratio, thumb))
}

impl Media {
    /// Reads a medium from its record of the platform.
    pub fn from_api(json: &Json, globals: &GlobalVal) -> (r: Option<Media>)
        ensures
            r.deep_view() == media_from_api(*json, globals.save_dir.deep_view()),
    {
        let kind = text_in(json.get("type"))?;
        if same_text(kind, "photo") {
            read_photo(json, globals)
        } else if same_text(kind, "video") {
            let (base, aspect_ratio, thumb) = read_moving(json, globals)?;
            let duration = unsigned_in(json.get2("video_info", "duration_millis"))?;
            Some(
                Media::Video(
                    VideoMedia {
                        base,
                        aspect_ratio,
                        thumb,
                        duration_millis: #[verifier::truncate] (duration as u32),
                    },
                ),
            )
        } else if same_text(kind, "animated_gif") {
            let (base, aspect_ratio, thumb) = read_moving(json, globals)?;
            Some(Media::AnimatedGif(AnimatedGifMedia { base, aspect_ratio, thumb }))
        } else {
            None
        }
    }
}

} // verus!

use vstd::prelude::*;
use vstd::string::StrSliceExecFns;
use vstd::string::StringExecFns;
use crate::meta::GlobalVal;
use crate::platform::Platform;
use crate::record::{RecordId, RecordIdView, RecordKeyView};
use crate::table::Table;
use crate::text::{concat, starts_with};

verus! {

/// The path of `rel` under the directory `base`. A path that starts at the
/// root stands for itself.
pub open spec fn joined(base: Seq<char>, rel: Seq<char>) -> Seq<char> {
    if rel.len() > 0 && rel[0] == '/' {
        rel
    } else if base.len() == 0 || base.last() == '/' {
        base + rel
    } else {
        base + seq!['/'] + rel
    }
}

/// The path of `full` as seen from the directory `base`; `full` itself
/// where it does not lie under `base`.
pub open spec fn relative(full: Seq<char>, base: Seq<char>) -> Seq<char> {
    if base.is_prefix_of(full) {
        let rest = full.skip(base.len() as int);
        if rest.len() == 0 || base.len() == 0 || base.last() == '/' {
            rest
        } else if rest[0] == '/' {
            rest.skip(1)
        } else {
            full
        }
    } else {
        full
    }
}

/// Seen from its base, a path that was joined under that base is the path
/// that was joined.
pub proof fn law_relative_undoes_joined(base: Seq<char>, rel: Seq<char>)
    requires
        base.len() > 0,
        rel.len() == 0 || rel[0] != '/',
    ensures
        relative(joined(base, rel), base) == rel,
{
    let full = joined(base, rel);
    if base.last() == '/' {
        assert(full.skip(base.len() as int) =~= rel);
    } else {
        assert(full.skip(base.len() as int) =~= seq!['/'] + rel);
        assert(full.skip(base.len() as int).skip(1) =~= rel);
    }
}

/// The path of an asset on disk.
#[derive(Debug)]
pub struct FullAssetPath(pub String);

/// The path of an asset below the save directory, as it is persisted.
#[derive(Debug)]
pub struct RelAssetPath(pub String);

impl FullAssetPath {
    /// The path below the save directory.
    pub fn to_rel(&self, globals: &GlobalVal) -> (r: RelAssetPath)
        requires
            globals.save_dir is Some,
        ensures
            r.0@ == relative(self.0@, globals.save_dir->0@),
    {
        let base = match &globals.save_dir {
            Some(dir) => dir.as_str(),
            None => "",
        };
        let full = self.0.as_str();
        if !starts_with(full, base) {
            return RelAssetPath(self.0.clone());
        }
        let base_len = base.unicode_len();
        let full_len = full.unicode_len();
        if base_len == full_len || base_len == 0 || base.get_char(base_len - 1) == '/' {
            let rest = full.substring_char(base_len, full_len);
            assert(rest@ =~= self.0@.skip(base_len as int));
            RelAssetPath(String::from_str(rest))
        } else if full.get_char(base_len) == '/' {
            let rest = full.substring_char(base_len + 1, full_len);
            assert(rest@ =~= self.0@.skip(base_len as int).skip(1));
            RelAssetPath(String::from_str(rest))
        } else {
            RelAssetPath(self.0.clone())
        }
    }
}

impl RelAssetPath {
    /// The path on disk, under the save directory.
    pub fn to_full(&self, globals: &GlobalVal) -> (r: FullAssetPath)
        requires
            globals.save_dir is Some,
        ensures
            r.0@ == joined(globals.save_dir->0@, self.0@),
    {
        let base = match &globals.save_dir {
            Some(dir) => dir.as_str(),
            None => "",
        };
        FullAssetPath(join_path(base, self.0.as_str()))
    }
}

/// The path of `rel` under the directory `base`.
pub fn join_path(base: &str, rel: &str) -> (r: String)
    ensures
        r@ == joined(base@, rel@),
{
    let rel_len = rel.unicode_len();
    let base_len = base.unicode_len();
    if rel_len > 0 && rel.get_char(0) == '/' {
        String::from_str(rel)
    } else if base_len == 0 || base.get_char(base_len - 1) == '/' {
        concat(base, rel)
    } else {
        proof {
            reveal_strlit("/");
            assert("/"@ =~= seq!['/']);
        }
        let mut r = concat(base, "/");
        r.append(rel);
        r
    }
}

/// What an asset is used for; it names the directory the asset is saved in.
#[derive(Debug, Clone, Copy, PartialEq, Eq, Structural)]
pub enum AssetType {
    Avatar,
    Media,
    Thumb,
}

impl AssetType {
    pub open spec fn name(self) -> Seq<char> {
        match self {
            AssetType::Avatar => "avatar"@,
            AssetType::Media => "media"@,
            AssetType::Thumb => "thumb"@,
        }
    }

    pub fn as_str(&self) -> (r: &'static str)
        ensures
            r@ == self.name(),
    {
        match self {
            AssetType::Avatar => "avatar",
            AssetType::Media => "media",
            AssetType::Thumb => "thumb",
        }
    }
}

/// An asset as a mathematical value; `path` is the path on disk.
pub struct AssetView {
    pub ty: AssetType,
    pub plat: Platform,
    pub url: Seq<char>,
    pub name: Seq<char>,
    pub path: Seq<char>,
    pub downloaded: bool,
    pub available: bool,
}

/// A remote resource and its copy on disk.
///
/// `downloaded` says that the outcome is final and is not tried again;
/// together with `available == false` it says that the remote resource is
/// confirmed gone, not that an attempt failed.
#[derive(Debug)]
pub struct Asset {
    pub ty: AssetType,
    pub plat: Platform,
    pub url: String,
    pub name: String,
    pub path: FullAssetPath,
    pub downloaded: bool,
    pub available: bool,
}

impl View for Asset {
    type V = AssetView;

    open spec fn view(&self) -> AssetView {
        AssetView {
            ty: self.ty,
            plat: self.plat,
            url: self.url@,
            name: self.name@,
            path: self.path.0@,
            downloaded: self.downloaded,
            available: self.available,
        }
    }
}

impl DeepView for Asset {
    type V = AssetView;

    open spec fn deep_view(&self) -> AssetView {
        self@
    }
}

impl Clone for Asset {
    fn clone(&self) -> (r: Self)
        ensures
            r == *self,
    {
        Asset {
            ty: self.ty,
            plat: self.plat,
            url: self.url.clone(),
            name: self.name.clone(),
            path: FullAssetPath(self.path.0.clone()),
            downloaded: self.downloaded,
            available: self.available,
        }
    }
}

/// An asset as it is persisted: under its identifier, with its path below
/// the save directory.
#[derive(Debug)]
pub struct DbAsset {
    pub id: RecordId,
    pub ty: AssetType,
    pub plat: Platform,
    pub url: String,
    pub name: String,
    pub path: RelAssetPath,
    pub downloaded: bool,
    pub available: bool,
}

/// The key of an asset's record: its type's name, a hyphen, its name.
pub open spec fn asset_key(ty: AssetType, name: Seq<char>) -> Seq<char> {
    ty.name() + seq!['-'] + name
}

/// The identifier under which the asset `a` is persisted.
pub open spec fn asset_record(a: AssetView) -> RecordIdView {
    RecordIdView { table: Table::Asset, key: RecordKeyView::Text(asset_key(a.ty, a.name)) }
}

impl Clone for DbAsset {
    fn clone(&self) -> (r: Self)
        ensures
            r.id@ == self.id@,
            r.ty == self.ty,
            r.plat == self.plat,
            r.url == self.url,
            r.name == self.name,
            r.path == self.path,
            r.downloaded == self.downloaded,
            r.available == self.available,
    {
        DbAsset {
            id: self.id.clone(),
            ty: self.ty,
            plat: self.plat,
            url: self.url.clone(),
            name: self.name.clone(),
            path: RelAssetPath(self.path.0.clone()),
            downloaded: self.downloaded,
            available: self.available,
        }
    }
}

impl DbAsset {
    /// Whether this record is the one of the asset `asset`, with the save
    /// directory `base`.
    pub open spec fn stands_for(self, asset: AssetView, base: Seq<char>) -> bool {
        &&& self.id@ == asset_record(asset)
        &&& self.ty == asset.ty
        &&& self.plat == asset.plat
        &&& self.url@ == asset.url
        &&& self.name@ == asset.name
        &&& self.path.0@ == relative(asset.path, base)
        &&& self.downloaded == asset.downloaded
        &&& self.available == asset.available
    }

    /// The asset that this record stands for, with the save directory
    /// `base`.
    pub open spec fn domain(self, base: Seq<char>) -> AssetView {
        AssetView {
            ty: self.ty,
            plat: self.plat,
            url: self.url@,
            name: self.name@,
            path: joined(base, self.path.0@),
            downloaded: self.downloaded,
            available: self.available,
        }
    }

    pub fn into_domain(self, globals: &GlobalVal) -> (r: Asset)
        requires
            globals.save_dir is Some,
        ensures
            r@ == self.domain(globals.save_dir->0@),
    {
        let path = self.path.to_full(globals);
        Asset {
            ty: self.ty,
            plat: self.plat,
            url: self.url,
            name: self.name,
            path,
            downloaded: self.downloaded,
            available: self.available,
        }
    }

    pub fn from_domain(asset: Asset, globals: &GlobalVal) -> (r: DbAsset)
        requires
            globals.save_dir is Some,
        ensures
            r.stands_for(asset@, globals.save_dir->0@),
            r.id@ == asset_record(asset@),
            r.ty == asset.ty,
            r.plat == asset.plat,
            r.url == asset.url,
            r.name == asset.name,
            r.path.0@ == relative(asset.path.0@, globals.save_dir->0@),
            r.downloaded == asset.downloaded,
            r.available == asset.available,
    {
        let path = asset.path.to_rel(globals);
        DbAsset {
            id: asset.record_id(),
            ty: asset.ty,
            plat: asset.plat,
            url: asset.url,
            name: asset.name,
            path,
            downloaded: asset.downloaded,
            available: asset.available,
        }
    }
}

impl Asset {
    /// The identifier under which the asset is persisted.
    pub fn record_id(&self) -> (r: RecordId)
        ensures
            r@ == asset_record(self@),
    {
        proof {
            reveal_strlit("-");
            assert("-"@ =~= seq!['-']);
        }
        let mut key = concat(self.ty.as_str(), "-");
        key.append(self.name.as_str());
        RecordId::named(Table::Asset, key.as_str())
    }

    pub fn into_db(self, globals: &GlobalVal) -> (r: DbAsset)
        requires
            globals.save_dir is Some,
        ensures
            r.stands_for(self@, globals.save_dir->0@),
            r.id@ == asset_record(self@),
            r.ty == self.ty,
            r.plat == self.plat,
            r.url == self.url,
            r.name == self.name,
            r.path.0@ == relative(self.path.0@, globals.save_dir->0@),
            r.downloaded == self.downloaded,
            r.available == self.available,
    {
        DbAsset::from_domain(self, globals)
    }
}

} // verus!

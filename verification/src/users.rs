use vstd::prelude::*;
use crate::asset::{asset_record, join_path, joined, Asset, AssetType, AssetView, FullAssetPath};
use crate::json::{text_in, text_of, Json};
use crate::meta::GlobalVal;
use crate::platform::Platform;
use crate::text::{last_path_segment, last_segment};
use crate::record::{RecordId, RecordIdView, RecordKeyView};
use crate::table::Table;

verus! {

/// An author as a mathematical value.
pub struct UserView {
    pub id: Seq<char>,
    pub name: Seq<char>,
    pub avatar: AssetView,
}

/// The author of a post: the handle, the shown name, the profile picture.
#[derive(Debug)]
pub struct User {
    pub id: String,
    pub name: String,
    pub avatar: Asset,
}

impl DeepView for User {
    type V = UserView;

    open spec fn deep_view(&self) -> UserView {
        UserView { id: self.id@, name: self.name@, avatar: self.avatar@ }
    }
}

impl Clone for User {
    fn clone(&self) -> (r: Self)
        ensures
            r == *self,
    {
        User { id: self.id.clone(), name: self.name.clone(), avatar: self.avatar.clone() }
    }
}

/// The identifier under which the author with the handle `id` is persisted.
pub open spec fn user_record(id: Seq<char>) -> RecordIdView {
    RecordIdView { table: Table::User, key: RecordKeyView::Text(id) }
}

/// The asset of the kind `ty` that the address `url` names, not yet
/// downloaded: it is named after the last segment of the address and lies
/// in the directory of its kind under the save directory `base`.
pub open spec fn fresh_asset(ty: AssetType, url: Seq<char>, name: Seq<char>, base: Seq<char>) -> AssetView {
    AssetView {
        ty,
        plat: Platform::Twitter,
        url,
        name,
        path: joined(joined(base, ty.name()), name),
        downloaded: false,
        available: false,
    }
}

/// Makes the asset of the kind `ty` that the address `url` names.
pub fn new_asset(ty: AssetType, url: String, name: String, base: &str) -> (a: Asset)
    ensures
        a@ == fresh_asset(ty, url@, name@, base@),
{
    let dir = join_path(base, ty.as_str());
    let path = join_path(dir.as_str(), name.as_str());
    Asset {
        ty,
        plat: Platform::Twitter,
        url,
        name,
        path: FullAssetPath(path),
        downloaded: false,
        available: false,
    }
}

/// The author that a record of the platform describes: its handle, its shown
/// name, and its profile picture as an asset; `None` where one of them is
/// missing, where the picture's address names no file, or where no save
/// directory is configured.
pub open spec fn user_from_api(json: Json, save_dir: Option<Seq<char>>) -> Option<UserView> {
    let url = text_of(json.field("profile_image_url_https"@));
    let name = match url {
        Some(u) => last_segment(u),
        None => None,
    };
    let id = text_of(json.field("screen_name"@));
    let shown = text_of(json.field("name"@));
    if url is Some && name is Some && save_dir is Some && id is Some && shown is Some {
        Some(
            UserView {
                id: id->0,
                name: shown->0,
                avatar: fresh_asset(AssetType::Avatar, url->0, name->0, save_dir->0),
            },
        )
    } else {
        None
    }
}

impl User {
    /// Reads an author from a record of the platform.
    pub fn from_api(json: &Json, globals: &GlobalVal) -> (r: Option<User>)
        ensures
            r.deep_view() == user_from_api(*json, globals.save_dir.deep_view()),
    {
        let url = text_in(json.get("profile_image_url_https"))?;
        let name = last_path_segment(url)?;
        let base = match &globals.save_dir {
            Some(dir) => dir,
            None => {
                return None;
            },
        };
        let id = text_in(json.get("screen_name"))?;
        let shown = text_in(json.get("name"))?;
        let avatar = new_asset(AssetType::Avatar, String::from_str(url), name, base.as_str());
        Some(User { id: String::from_str(id), name: String::from_str(shown), avatar })
    }

    pub fn into_db(self) -> (r: DbUser)
        ensures
            r.stands_for(self.deep_view()),
            r.name == self.name,
    {
        DbUser::from_domain(self)
    }
}

/// An author as persisted: the profile picture is a reference to its asset.
#[derive(Debug)]
pub struct DbUser {
    pub id: RecordId,
    pub name: String,
    pub avatar: RecordId,
}

impl DbUser {
    /// Whether this record is the one of the author `user`.
    pub open spec fn stands_for(self, user: UserView) -> bool {
        &&& self.id@ == user_record(user.id)
        &&& self.name@ == user.name
        &&& self.avatar@ == asset_record(user.avatar)
    }

    pub fn from_domain(user: User) -> (r: DbUser)
        ensures
            r.stands_for(user.deep_view()),
            r.name == user.name,
    {
        DbUser {
            id: RecordId::named(Table::User, user.id.as_str()),
            avatar: user.avatar.record_id(),
            name: user.name,
        }
    }
}

} // verus!

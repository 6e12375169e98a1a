use vstd::prelude::*;
use crate::post::{post_record, Post, PostType, PostView};
use crate::record::{RecordId, RecordIdView, RecordKeyView};
use crate::table::Table;

verus! {

/// A liked post as a mathematical value.
pub struct LikedPostView {
    pub sortidx: u32,
    pub post: PostView,
}

/// A post that the user liked, and its place in the local order: a larger
/// sort index is a later like.
#[derive(Debug)]
pub struct LikedPost {
    pub sortidx: u32,
    pub post: Post,
}

impl DeepView for LikedPost {
    type V = LikedPostView;

    open spec fn deep_view(&self) -> LikedPostView {
        LikedPostView { sortidx: self.sortidx, post: self.post.deep_view() }
    }
}

impl Clone for LikedPost {
    fn clone(&self) -> (r: Self)
        ensures
            r.deep_view() == self.deep_view(),
    {
        LikedPost { sortidx: self.sortidx, post: self.post.clone() }
    }
}

/// The identifier under which the like with the sort index `sortidx` is
/// persisted.
pub open spec fn like_record(sortidx: u32) -> RecordIdView {
    RecordIdView { table: Table::LikedPost, key: RecordKeyView::Number(sortidx as int) }
}

/// A like as persisted: keyed by its sort index, with a reference to the
/// post.
#[derive(Debug)]
pub struct DbLikedPost {
    pub id: RecordId,
    pub post: RecordId,
}

impl DbLikedPost {
    pub fn from_domain(domain: &LikedPost) -> (r: DbLikedPost)
        ensures
            r.id@ == like_record(domain.sortidx),
            r.post@ == post_record(domain.post.rest_id, PostType::Root),
    {
        DbLikedPost {
            id: RecordId::numbered(Table::LikedPost, domain.sortidx as i64),
            post: RecordId::numbered(Table::Post, domain.post.rest_id),
        }
    }
}

impl LikedPost {
    /// The identifier under which the liked post itself is persisted.
    pub fn post_key(&self) -> (r: RecordId)
        ensures
            r@ == post_record(self.post.rest_id, PostType::Root),
    {
        RecordId::numbered(Table::Post, self.post.rest_id)
    }

    pub fn into_db(self) -> (r: DbLikedPost)
        ensures
            r.id@ == like_record(self.sortidx),
            r.post@ == post_record(self.post.rest_id, PostType::Root),
    {
        DbLikedPost::from_domain(&self)
    }
}

} // verus!

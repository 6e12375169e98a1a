use vstd::prelude::*;
use crate::like::LikedPost;
use crate::post::Post;
use crate::record::{id_views, RecordId, RecordIdView};

verus! {

/// A named collection of posts.
#[derive(Debug)]
pub struct Collection {
    pub name: String,
    pub items: Vec<Post>,
}

/// One page of a listing, and the cursor from which the next one starts.
#[derive(Debug)]
pub struct Chunk<T> {
    pub cursor: String,
    pub data: Vec<T>,
}

/// A collection as persisted.
#[derive(Debug)]
pub struct DbCollection {
    pub name: String,
    /// When the collection was made, as the store writes the time.
    pub created_at: String,
}

/// The edge from a collection to a post that it holds.
#[derive(Debug)]
pub struct RelEdge {
    pub id: RecordId,
    pub in_id: RecordId,
    pub out_id: RecordId,
    /// When the post was collected, as the store writes the time.
    pub created_at: String,
}

/// The posts that the edges `edges` lead to, in order.
pub open spec fn targets(edges: Seq<RelEdge>) -> Seq<RecordIdView> {
    Seq::new(edges.len(), |i: int| edges[i].out_id@)
}

impl DbCollection {
    /// One page of a collection from the edges that the store found: the
    /// posts they lead to, and the time of the last edge as the cursor of
    /// the next page. No edges make no page.
    pub fn select_pagin(edges: &Vec<RelEdge>) -> (r: Option<Chunk<RecordId>>)
        ensures
            match r {
                Some(chunk) => {
                    &&& edges@.len() > 0
                    &&& chunk.cursor@ == edges@.last().created_at@
                    &&& id_views(chunk.data@) == targets(edges@)
                },
                None => edges@.len() == 0,
            },
    {
        if edges.len() == 0 {
            return None;
        }
        let mut data: Vec<RecordId> = Vec::new();
        let mut i: usize = 0;
        while i < edges.len()
            invariant
                i <= edges.len(),
                data@.len() == i,
                forall|k: int| 0 <= k < i ==> (#[trigger] data@[k])@ == edges@[k].out_id@,
            decreases edges.len() - i,
        {
            data.push(edges[i].out_id.clone());
            i += 1;
        }
        assert(id_views(data@) =~= targets(edges@));
        Some(Chunk { cursor: edges[edges.len() - 1].created_at.clone(), data })
    }
}

/// One page of the liked posts, and the sort index from which the next one
/// starts.
#[derive(Debug)]
pub struct LikedChunk {
    pub cursor: u32,
    pub data: Vec<LikedPost>,
}

/// Where the user has scrolled to in a listing.
#[derive(Debug)]
pub struct ScrollCursor {
    pub name: String,
    pub cursor: String,
}

/// A profile picture: its address and its path on disk.
#[derive(Debug)]
pub struct Avatar {
    pub url: String,
    pub path: String,
}

/// What is copied of a post to the clipboard.
#[derive(Debug)]
pub struct ContentToCopy {
    pub author: String,
    pub content: String,
    pub media: Option<Vec<String>>,
    pub quote: Option<QuoteContentToCopy>,
}

/// What is copied of a quoted post to the clipboard.
#[derive(Debug)]
pub struct QuoteContentToCopy {
    pub author: String,
    pub content: String,
    pub media: Option<Vec<String>>,
}

/// The cursor of a page of liked posts: the sort index of its last post,
/// or `None` of an empty page.
pub fn chunk_cursor(page: &Vec<LikedPost>) -> (cursor: Option<u32>)
    ensures
        cursor == if page@.len() == 0 {
            None
        } else {
            Some(page@.last().sortidx)
        },
{
    if page.len() == 0 {
        None
    } else {
        Some(page[page.len() - 1].sortidx)
    }
}

/// Packs a page of liked posts with its cursor; a page without posts makes
/// no chunk.
pub fn take_post_chunk(page: Vec<LikedPost>) -> (r: Option<LikedChunk>)
    ensures
        match r {
            Some(chunk) => page@.len() > 0 && chunk.cursor == page@.last().sortidx && chunk.data == page,
            None => page@.len() == 0,
        },
{
    match chunk_cursor(&page) {
        Some(cursor) => Some(LikedChunk { cursor, data: page }),
        None => None,
    }
}

/// Whether a listing of the newest liked post shows that any data is there.
pub fn check_has_data(newest: &Vec<LikedPost>) -> (b: bool)
    ensures
        b == (newest@.len() > 0),
{
    newest.len() > 0
}

} // verus!

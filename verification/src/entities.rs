use vstd::prelude::*;
use crate::asset::{AssetView, DbAsset};
use crate::like::{like_record, DbLikedPost, LikedPost, LikedPostView};
use crate::media::{DbMedia, Media, MediaView};
use crate::meta::GlobalVal;
use crate::post::{
    post_record, Conversation, ConversationView, DbPost, DbReply, PostType, PostView, QuotePost,
    QuotePostView, Reply,
};
use crate::task::{Task, TaskKind};
use crate::users::{DbUser, UserView};

verus! {

/// The records that one or more liked posts are persisted as, and the tasks
/// that fetch their assets.
#[derive(Debug)]
pub struct DbEntitie {
    pub like: Vec<DbLikedPost>,
    pub posts: Vec<DbPost>,
    pub medias: Vec<DbMedia>,
    pub users: Vec<DbUser>,
    pub assets: Vec<DbAsset>,
    pub replies: Vec<DbReply>,
    pub tasks: Vec<Task>,
}

/// The lists of a `DbEntitie`, as sequences.
pub struct Lists {
    pub like: Seq<DbLikedPost>,
    pub posts: Seq<DbPost>,
    pub medias: Seq<DbMedia>,
    pub users: Seq<DbUser>,
    pub assets: Seq<DbAsset>,
    pub replies: Seq<DbReply>,
    pub tasks: Seq<Task>,
}

/// The lists of `list`, each kind joined in the order of `list`.
pub open spec fn gathered(list: Seq<DbEntitie>) -> Lists
    decreases list.len(),
{
    if list.len() == 0 {
        Lists {
            like: Seq::empty(),
            posts: Seq::empty(),
            medias: Seq::empty(),
            users: Seq::empty(),
            assets: Seq::empty(),
            replies: Seq::empty(),
            tasks: Seq::empty(),
        }
    } else {
        let before = gathered(list.drop_last());
        let last = list.last();
        Lists {
            like: before.like + last.like@,
            posts: before.posts + last.posts@,
            medias: before.medias + last.medias@,
            users: before.users + last.users@,
            assets: before.assets + last.assets@,
            replies: before.replies + last.replies@,
            tasks: before.tasks + last.tasks@,
        }
    }
}

impl DbEntitie {
    pub open spec fn lists(self) -> Lists {
        Lists {
            like: self.like@,
            posts: self.posts@,
            medias: self.medias@,
            users: self.users@,
            assets: self.assets@,
            replies: self.replies@,
            tasks: self.tasks@,
        }
    }

    /// Whether these are the records of the liked post `v`, with the save
    /// directory `base`, and one new task of kind `kind` for each of its
    /// assets.
    pub open spec fn stands_for(self, v: LikedPostView, kind: TaskKind, base: Seq<char>) -> bool {
        &&& self.like@.len() == 1
        &&& self.like@[0].id@ == like_record(v.sortidx)
        &&& self.like@[0].post@ == post_record(v.post.rest_id, PostType::Root)
        &&& posts_stand(self.posts@, expected_posts(v))
        &&& media_stand(self.medias@, expected_media(v))
        &&& users_stand(self.users@, expected_users(v))
        &&& assets_stand(self.assets@, expected_assets(v), base)
        &&& replies_stand(self.replies@, all_replies(conversations_of(v.post.replies)))
        &&& tasks_stand(self.tasks@, self.assets@, kind)
    }

    /// No records and no tasks.
    pub fn default() -> (r: DbEntitie)
        ensures
            r.lists() == gathered(Seq::empty()),
    {
        DbEntitie {
            like: Vec::new(),
            posts: Vec::new(),
            medias: Vec::new(),
            users: Vec::new(),
            assets: Vec::new(),
            replies: Vec::new(),
            tasks: Vec::new(),
        }
    }

    /// Joins many into one: each kind of record in the order of `list`.
    pub fn merge_all(list: Vec<DbEntitie>) -> (r: DbEntitie)
        ensures
            r.lists() == gathered(list@),
    {
        let ghost all = list@;
        let mut rest = crate::seqs::reversed(list);
        let mut new = DbEntitie::default();
        assert(all.subrange(0, 0) =~= Seq::empty());
        while rest.len() > 0
            invariant
                rest@.len() <= all.len(),
                forall|j: int| 0 <= j < rest@.len() ==> rest@[j] == all[all.len() - 1 - j],
                new.lists() == gathered(all.subrange(0, all.len() - rest@.len())),
            decreases rest@.len(),
        {
            let ghost done = all.len() - rest@.len();
            let mut e = rest.pop().unwrap();
            assert(e == all[done]);
            assert(all.subrange(0, done + 1).drop_last() =~= all.subrange(0, done));
            assert(all.subrange(0, done + 1).last() == e);
            new.like.append(&mut e.like);
            new.posts.append(&mut e.posts);
            new.medias.append(&mut e.medias);
            new.users.append(&mut e.users);
            new.assets.append(&mut e.assets);
            new.replies.append(&mut e.replies);
            new.tasks.append(&mut e.tasks);
        }
        assert(all.subrange(0, all.len() as int) =~= all);
        new
    }
}

/// The media of a post; none where it names none.
pub open spec fn media_of(media: Option<Seq<MediaView>>) -> Seq<MediaView> {
    match media {
        Some(m) => m,
        None => Seq::empty(),
    }
}

/// The files of `media`, medium by medium.
pub open spec fn media_assets(media: Seq<MediaView>) -> Seq<AssetView>
    decreases media.len(),
{
    if media.len() == 0 {
        Seq::empty()
    } else {
        media_assets(media.drop_last()) + media.last().assets()
    }
}

/// The authors of `posts`, in order.
pub open spec fn authors(posts: Seq<QuotePostView>) -> Seq<UserView> {
    Seq::new(posts.len(), |i: int| posts[i].author)
}

/// The profile pictures of the authors of `posts`, in order.
pub open spec fn avatars(posts: Seq<QuotePostView>) -> Seq<AssetView> {
    Seq::new(posts.len(), |i: int| posts[i].author.avatar)
}

/// The files of the media of `posts`, post by post.
pub open spec fn posts_media_assets(posts: Seq<QuotePostView>) -> Seq<AssetView>
    decreases posts.len(),
{
    if posts.len() == 0 {
        Seq::empty()
    } else {
        posts_media_assets(posts.drop_last()) + media_assets(media_of(posts.last().media))
    }
}

/// The conversations of a post; none where it names none.
pub open spec fn conversations_of(replies: Option<Seq<ConversationView>>) -> Seq<ConversationView> {
    match replies {
        Some(r) => r,
        None => Seq::empty(),
    }
}

/// The replies of `conversations`, conversation by conversation.
pub open spec fn all_replies(conversations: Seq<ConversationView>) -> Seq<QuotePostView>
    decreases conversations.len(),
{
    if conversations.len() == 0 {
        Seq::empty()
    } else {
        all_replies(conversations.drop_last()) + conversations.last().conversation
    }
}

/// The assets of `conversations`: of each, the profile pictures of its
/// authors, then the files of its media.
pub open spec fn reply_assets(conversations: Seq<ConversationView>) -> Seq<AssetView>
    decreases conversations.len(),
{
    if conversations.len() == 0 {
        Seq::empty()
    } else {
        reply_assets(conversations.drop_last()) + avatars(conversations.last().conversation)
            + posts_media_assets(conversations.last().conversation)
    }
}

/// What is left of the quote of a post as a list.
pub open spec fn quotes_of(quote: Option<QuotePostView>) -> Seq<QuotePostView> {
    match quote {
        Some(q) => seq![q],
        None => Seq::empty(),
    }
}

/// The posts that a liked post is persisted as: itself, then the post it
/// quotes.
pub open spec fn expected_posts(v: LikedPostView) -> Seq<(PostView, PostType)> {
    match v.post.quote {
        Some(q) => seq![(v.post, PostType::Root), (q.as_post(), PostType::Quote)],
        None => seq![(v.post, PostType::Root)],
    }
}

/// The media that a liked post is persisted with: its own, then those of
/// the post it quotes.
pub open spec fn expected_media(v: LikedPostView) -> Seq<MediaView> {
    media_of(v.post.media) + match v.post.quote {
        Some(q) => media_of(q.media),
        None => Seq::empty(),
    }
}

/// The authors that a liked post is persisted with: its own, that of the
/// post it quotes, those of its replies.
pub open spec fn expected_users(v: LikedPostView) -> Seq<UserView> {
    seq![v.post.author] + authors(quotes_of(v.post.quote)) + authors(
        all_replies(conversations_of(v.post.replies)),
    )
}

/// The assets that a liked post is persisted with, each of which gets a
/// task: the author's picture and the files of the media, of the post and
/// of the post it quotes; then the assets of its replies.
pub open spec fn expected_assets(v: LikedPostView) -> Seq<AssetView> {
    seq![v.post.author.avatar] + media_assets(media_of(v.post.media)) + avatars(
        quotes_of(v.post.quote),
    ) + posts_media_assets(quotes_of(v.post.quote)) + reply_assets(conversations_of(v.post.replies))
}

/// Whether the records `records` are those of the assets `assets`, one for
/// one.
pub open spec fn assets_stand(records: Seq<DbAsset>, assets: Seq<AssetView>, base: Seq<char>) -> bool {
    &&& records.len() == assets.len()
    &&& forall|i: int| 0 <= i < records.len() ==> (#[trigger] records[i]).stands_for(assets[i], base)
}

pub open spec fn users_stand(records: Seq<DbUser>, users: Seq<UserView>) -> bool {
    &&& records.len() == users.len()
    &&& forall|i: int| 0 <= i < records.len() ==> (#[trigger] records[i]).stands_for(users[i])
}

pub open spec fn media_stand(records: Seq<DbMedia>, media: Seq<MediaView>) -> bool {
    &&& records.len() == media.len()
    &&& forall|i: int| 0 <= i < records.len() ==> (#[trigger] records[i]).stands_for(media[i])
}

pub open spec fn replies_stand(records: Seq<DbReply>, replies: Seq<QuotePostView>) -> bool {
    &&& records.len() == replies.len()
    &&& forall|i: int|
        0 <= i < records.len() ==> (#[trigger] records[i]).0.stands_for(
            replies[i].as_post(),
            PostType::Reply,
        )
}

pub open spec fn posts_stand(records: Seq<DbPost>, posts: Seq<(PostView, PostType)>) -> bool {
    &&& records.len() == posts.len()
    &&& forall|i: int|
        0 <= i < records.len() ==> (#[trigger] records[i]).stands_for(posts[i].0, posts[i].1)
}

/// Whether `tasks` are the new tasks of kind `kind` on `assets`, one for
/// one.
pub open spec fn tasks_stand(tasks: Seq<Task>, assets: Seq<DbAsset>, kind: TaskKind) -> bool {
    &&& tasks.len() == assets.len()
    &&& forall|i: int| 0 <= i < tasks.len() ==> (#[trigger] tasks[i]).fresh_for(assets[i].id@, kind)
}

fn media_asset_records(media: &Option<Vec<Media>>, globals: &GlobalVal) -> (r: Vec<DbAsset>)
    requires
        globals.save_dir is Some,
    ensures
        assets_stand(r@, media_assets(media_of(media.deep_view())), globals.save_dir->0@),
{
    let mut out: Vec<DbAsset> = Vec::new();
    match media {
        Some(list) => {
            let ghost views = list.deep_view();
            let mut i: usize = 0;
            assert(views.subrange(0, 0) =~= Seq::empty());
            while i < list.len()
                invariant
                    i <= list.len(),
                    globals.save_dir is Some,
                    views == list.deep_view(),
                    assets_stand(out@, media_assets(views.subrange(0, i as int)), globals.save_dir->0@),
                decreases list.len() - i,
            {
                let ghost before = out@;
                let ghost upto = views.subrange(0, i as int + 1);
                assert(upto.drop_last() =~= views.subrange(0, i as int));
                assert(upto.last() == list@[i as int].deep_view());
                out.push(list[i].clone().get_asset().into_db(globals));
                match list[i].clone().get_thumb() {
                    Some(thumb) => {
                        out.push(thumb.into_db(globals));
                    },
                    None => {},
                }
                assert(assets_stand(out@, media_assets(upto), globals.save_dir->0@)) by {
                    let want_before = media_assets(upto.drop_last());
                    let want = media_assets(upto);
                    assert(want == want_before + upto.last().assets());
                    assert forall|k: int| 0 <= k < out@.len() implies (#[trigger] out@[k]).stands_for(
                        want[k],
                        globals.save_dir->0@,
                    ) by {
                        if k < before.len() {
                            assert(out@[k] == before[k]);
                        }
                    }
                }
                i += 1;
            }
            assert(views.subrange(0, views.len() as int) =~= views);
        },
        None => {},
    }
    out
}

fn quote_asset_records(posts: &Vec<&QuotePost>, globals: &GlobalVal) -> (r: (Vec<DbAsset>, Vec<DbAsset>))
    requires
        globals.save_dir is Some,
    ensures
        assets_stand(r.0@, avatars(posts.deep_view()), globals.save_dir->0@),
        assets_stand(r.1@, posts_media_assets(posts.deep_view()), globals.save_dir->0@),
{
    let ghost views = posts.deep_view();
    let mut pictures: Vec<DbAsset> = Vec::new();
    let mut files: Vec<DbAsset> = Vec::new();
    let mut i: usize = 0;
    assert(views.subrange(0, 0) =~= Seq::empty());
    while i < posts.len()
        invariant
            i <= posts.len(),
            globals.save_dir is Some,
            views == posts.deep_view(),
            pictures@.len() == i,
            forall|k: int|
                0 <= k < i ==> (#[trigger] pictures@[k]).stands_for(
                    views[k].author.avatar,
                    globals.save_dir->0@,
                ),
            assets_stand(files@, posts_media_assets(views.subrange(0, i as int)), globals.save_dir->0@),
        decreases posts.len() - i,
    {
        let ghost before = files@;
        let ghost upto = views.subrange(0, i as int + 1);
        assert(upto.drop_last() =~= views.subrange(0, i as int));
        assert(upto.last() == posts@[i as int].deep_view());
        pictures.push(posts[i].author.avatar.clone().into_db(globals));
        let mut part = media_asset_records(&posts[i].media, globals);
        let ghost added = part@;
        files.append(&mut part);
        assert(assets_stand(files@, posts_media_assets(upto), globals.save_dir->0@)) by {
            let want = posts_media_assets(upto);
            assert(want == posts_media_assets(upto.drop_last()) + media_assets(
                media_of(upto.last().media),
            ));
            assert forall|k: int| 0 <= k < files@.len() implies (#[trigger] files@[k]).stands_for(
                want[k],
                globals.save_dir->0@,
            ) by {
                if k < before.len() {
                    assert(files@[k] == before[k]);
                } else {
                    assert(files@[k] == added[k - before.len()]);
                }
            }
        }
        i += 1;
    }
    assert(views.subrange(0, views.len() as int) =~= views);
    (pictures, files)
}

fn refs_of(replies: &Vec<Reply>) -> (r: Vec<&QuotePost>)
    ensures
        r.deep_view() == replies.deep_view(),
{
    let mut out: Vec<&QuotePost> = Vec::new();
    let mut i: usize = 0;
    while i < replies.len()
        invariant
            i <= replies.len(),
            out@.len() == i,
            forall|k: int| 0 <= k < i ==> (#[trigger] out@[k]).deep_view() == replies@[k].deep_view(),
        decreases replies.len() - i,
    {
        out.push(&replies[i].0);
        i += 1;
    }
    assert(out.deep_view() =~= replies.deep_view());
    out
}

fn user_records(posts: &Vec<&QuotePost>) -> (r: Vec<DbUser>)
    ensures
        users_stand(r@, authors(posts.deep_view())),
{
    let mut out: Vec<DbUser> = Vec::new();
    let mut i: usize = 0;
    while i < posts.len()
        invariant
            i <= posts.len(),
            out@.len() == i,
            forall|k: int|
                0 <= k < i ==> (#[trigger] out@[k]).stands_for(posts.deep_view()[k].author),
        decreases posts.len() - i,
    {
        assert(posts.deep_view()[i as int] == posts@[i as int].deep_view());
        out.push(posts[i].author.clone().into_db());
        i += 1;
    }
    out
}

fn media_records_of(media: &Option<Vec<Media>>) -> (r: Vec<DbMedia>)
    ensures
        media_stand(r@, media_of(media.deep_view())),
{
    let mut out: Vec<DbMedia> = Vec::new();
    match media {
        Some(list) => {
            let mut i: usize = 0;
            while i < list.len()
                invariant
                    i <= list.len(),
                    out@.len() == i,
                    forall|k: int| 0 <= k < i ==> (#[trigger] out@[k]).stands_for(list.deep_view()[k]),
                decreases list.len() - i,
            {
                assert(list.deep_view()[i as int] == list@[i as int].deep_view());
                out.push(list[i].clone().into_db());
                i += 1;
            }
        },
        None => {},
    }
    out
}

/// What the replies of a post are persisted as: the replies themselves,
/// their authors, and their assets.
fn reply_records(replies: &Option<Vec<Conversation>>, globals: &GlobalVal) -> (r: (
    Vec<DbReply>,
    Vec<DbUser>,
    Vec<DbAsset>,
))
    requires
        globals.save_dir is Some,
    ensures
        replies_stand(r.0@, all_replies(conversations_of(replies.deep_view()))),
        users_stand(r.1@, authors(all_replies(conversations_of(replies.deep_view())))),
        assets_stand(r.2@, reply_assets(conversations_of(replies.deep_view())), globals.save_dir->0@),
{
    let mut records: Vec<DbReply> = Vec::new();
    let mut users: Vec<DbUser> = Vec::new();
    let mut assets: Vec<DbAsset> = Vec::new();
    match replies {
        Some(list) => {
            let ghost views = list.deep_view();
            let mut i: usize = 0;
            assert(views.subrange(0, 0) =~= Seq::empty());
            assert(authors(Seq::empty()) =~= Seq::empty());
            while i < list.len()
                invariant
                    i <= list.len(),
                    globals.save_dir is Some,
                    views == list.deep_view(),
                    replies_stand(records@, all_replies(views.subrange(0, i as int))),
                    users_stand(users@, authors(all_replies(views.subrange(0, i as int)))),
                    assets_stand(
                        assets@,
                        reply_assets(views.subrange(0, i as int)),
                        globals.save_dir->0@,
                    ),
                decreases list.len() - i,
            {
                let ghost upto = views.subrange(0, i as int + 1);
                assert(upto.drop_last() =~= views.subrange(0, i as int));
                assert(upto.last() == list@[i as int].deep_view());
                let ghost here = upto.last().conversation;
                let ghost before_r = records@;
                let ghost before_u = users@;
                let ghost before_a = assets@;
                let conversation = &list[i].conversation;
                assert(conversation.deep_view() == here);
                let posts = refs_of(conversation);
                let mut j: usize = 0;
                while j < conversation.len()
                    invariant
                        j <= conversation.len(),
                        here == conversation.deep_view(),
                        records@.len() == before_r.len() + j,
                        forall|k: int| 0 <= k < before_r.len() ==> records@[k] == before_r[k],
                        forall|k: int|
                            0 <= k < j ==> (#[trigger] records@[before_r.len() + k]).0.stands_for(
                                here[k].as_post(),
                                PostType::Reply,
                            ),
                    decreases conversation.len() - j,
                {
                    assert(here[j as int] == conversation@[j as int].deep_view());
                    records.push(conversation[j].clone().into_db());
                    j += 1;
                }
                let mut more_users = user_records(&posts);
                let ghost added_u = more_users@;
                users.append(&mut more_users);
                let (mut pictures, mut files) = quote_asset_records(&posts, globals);
                let ghost added_p = pictures@;
                let ghost added_f = files@;
                assets.append(&mut pictures);
                assets.append(&mut files);
                assert(replies_stand(records@, all_replies(upto))) by {
                    let want = all_replies(upto);
                    assert(want == all_replies(upto.drop_last()) + here);
                    assert forall|k: int| 0 <= k < records@.len() implies (
                    #[trigger] records@[k]).0.stands_for(want[k].as_post(), PostType::Reply) by {
                        let old_want = all_replies(upto.drop_last());
                        assert(old_want.len() == before_r.len());
                        if k >= before_r.len() {
                            let at = k - before_r.len();
                            assert(records@[before_r.len() + at] == records@[k]);
                            assert(records@[before_r.len() + at].0.stands_for(
                                here[at].as_post(),
                                PostType::Reply,
                            ));
                            assert(want[k] == here[at]);
                        } else {
                            assert(records@[k] == before_r[k]);
                            assert(before_r[k].0.stands_for(old_want[k].as_post(), PostType::Reply));
                            assert(want[k] == old_want[k]);
                        }
                    }
                }
                assert(users_stand(users@, authors(all_replies(upto)))) by {
                    let want = authors(all_replies(upto));
                    assert(want =~= authors(all_replies(upto.drop_last())) + authors(here));
                    assert forall|k: int| 0 <= k < users@.len() implies (#[trigger] users@[k]).stands_for(
                        want[k],
                    ) by {
                        if k < before_u.len() {
                            assert(users@[k] == before_u[k]);
                        } else {
                            assert(users@[k] == added_u[k - before_u.len()]);
                        }
                    }
                }
                assert(assets_stand(assets@, reply_assets(upto), globals.save_dir->0@)) by {
                    let want = reply_assets(upto);
                    assert(want == reply_assets(upto.drop_last()) + avatars(here) + posts_media_assets(
                        here,
                    ));
                    assert forall|k: int| 0 <= k < assets@.len() implies (
                    #[trigger] assets@[k]).stands_for(want[k], globals.save_dir->0@) by {
                        if k < before_a.len() {
                            assert(assets@[k] == before_a[k]);
                        } else if k < before_a.len() + added_p.len() {
                            assert(assets@[k] == added_p[k - before_a.len()]);
                        } else {
                            assert(assets@[k] == added_f[k - before_a.len() - added_p.len()]);
                        }
                    }
                }
                i += 1;
            }
            assert(views.subrange(0, views.len() as int) =~= views);
        },
        None => {
            assert(authors(Seq::empty()) =~= Seq::empty());
        },
    }
    (records, users, assets)
}

fn tasks_for(assets: &Vec<DbAsset>, kind: TaskKind) -> (r: Vec<Task>)
    ensures
        tasks_stand(r@, assets@, kind),
{
    let mut tasks: Vec<Task> = Vec::new();
    let mut i: usize = 0;
    while i < assets.len()
        invariant
            i <= assets.len(),
            tasks@.len() == i,
            forall|k: int| 0 <= k < i ==> (#[trigger] tasks@[k]).fresh_for(assets@[k].id@, kind),
        decreases assets.len() - i,
    {
        tasks.push(assets[i].clone().into_task(kind));
        i += 1;
    }
    tasks
}

impl LikedPost {
    /// The records that the liked post is persisted as, and one new task of
    /// kind `task_kind` for each of its assets.
    pub fn into_entities(self, task_kind: TaskKind, globals: &GlobalVal) -> (e: DbEntitie)
        requires
            globals.save_dir is Some,
        ensures
            e.stands_for(self.deep_view(), task_kind, globals.save_dir->0@),
    {
        let ghost v = self.deep_view();
        let ghost base = globals.save_dir->0@;
        let mut like: Vec<DbLikedPost> = Vec::new();
        like.push(DbLikedPost::from_domain(&self));

        let mut quotes: Vec<&QuotePost> = Vec::new();
        match &self.post.quote {
            Some(q) => {
                quotes.push(q);
            },
            None => {},
        }
        assert(quotes.deep_view() =~= quotes_of(v.post.quote));

        // media
        let mut medias = media_records_of(&self.post.media);
        let ghost own_media = medias@;
        let mut quote_media = match &self.post.quote {
            Some(q) => media_records_of(&q.media),
            None => Vec::new(),
        };
        let ghost added_media = quote_media@;
        medias.append(&mut quote_media);
        assert(media_stand(medias@, expected_media(v))) by {
            let want = expected_media(v);
            assert forall|k: int| 0 <= k < medias@.len() implies (#[trigger] medias@[k]).stands_for(
                want[k],
            ) by {
                if k < own_media.len() {
                    assert(medias@[k] == own_media[k]);
                } else {
                    assert(medias@[k] == added_media[k - own_media.len()]);
                }
            }
        }

        let (replies, mut reply_users, mut reply_assets_list) = reply_records(&self.post.replies, globals);

        // users
        let mut users: Vec<DbUser> = Vec::new();
        users.push(self.post.author.clone().into_db());
        let mut quote_users = user_records(&quotes);
        let ghost qu = quote_users@;
        let ghost ru = reply_users@;
        users.append(&mut quote_users);
        users.append(&mut reply_users);
        assert(users_stand(users@, expected_users(v))) by {
            let want = expected_users(v);
            assert forall|k: int| 0 <= k < users@.len() implies (#[trigger] users@[k]).stands_for(
                want[k],
            ) by {
                if k == 0 {
                } else if k < 1 + qu.len() {
                    assert(users@[k] == qu[k - 1]);
                } else {
                    assert(users@[k] == ru[k - 1 - qu.len()]);
                }
            }
        }

        // assets
        let mut assets: Vec<DbAsset> = Vec::new();
        assets.push(self.post.author.avatar.clone().into_db(globals));
        let mut own_files = media_asset_records(&self.post.media, globals);
        let (mut quote_pictures, mut quote_files) = quote_asset_records(&quotes, globals);
        let ghost a1 = own_files@;
        let ghost a2 = quote_pictures@;
        let ghost a3 = quote_files@;
        let ghost a4 = reply_assets_list@;
        assets.append(&mut own_files);
        assets.append(&mut quote_pictures);
        assets.append(&mut quote_files);
        assets.append(&mut reply_assets_list);
        assert(assets_stand(assets@, expected_assets(v), base)) by {
            let want = expected_assets(v);
            assert forall|k: int| 0 <= k < assets@.len() implies (#[trigger] assets@[k]).stands_for(
                want[k],
                base,
            ) by {
                if k == 0 {
                } else if k < 1 + a1.len() {
                    assert(assets@[k] == a1[k - 1]);
                } else if k < 1 + a1.len() + a2.len() {
                    assert(assets@[k] == a2[k - 1 - a1.len()]);
                } else if k < 1 + a1.len() + a2.len() + a3.len() {
                    assert(assets@[k] == a3[k - 1 - a1.len() - a2.len()]);
                } else {
                    assert(assets@[k] == a4[k - 1 - a1.len() - a2.len() - a3.len()]);
                }
            }
        }

        let tasks = tasks_for(&assets, task_kind);

        // posts
        let quote_post = match &self.post.quote {
            Some(q) => Some(q.clone().into_db()),
            None => None,
        };
        let mut posts: Vec<DbPost> = Vec::new();
        posts.push(self.post.into_db());
        match quote_post {
            Some(q) => {
                posts.push(q);
            },
            None => {},
        }
        DbEntitie { like, posts, medias, users, assets, replies, tasks }
    }
}

} // verus!

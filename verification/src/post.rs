use vstd::prelude::*;
use crate::media::{media_record, Media, MediaView};
use crate::record::{id_views, RecordId, RecordIdView, RecordKeyView};
use crate::table::Table;
use crate::users::{user_record, User, UserView};

verus! {

pub struct ContentView {
    pub lang: Seq<char>,
    pub text: Seq<char>,
    pub translation: Option<Seq<char>>,
    pub expanded_urls: Option<Seq<Seq<char>>>,
}

pub struct CardView {
    pub title: Option<Seq<char>>,
    pub description: Option<Seq<char>>,
    pub url: Seq<char>,
}

pub struct ArticleView {
    pub id: Seq<char>,
    pub title: Seq<char>,
    pub description: Option<Seq<char>>,
    pub url: Seq<char>,
}

/// A quoted post, or a reply, as a mathematical value.
pub struct QuotePostView {
    pub rest_id: i64,
    pub created_at: Seq<char>,
    pub author: UserView,
    pub content: ContentView,
    pub media: Option<Seq<MediaView>>,
    pub key_words: Option<Seq<Seq<char>>>,
    pub card: Option<CardView>,
    pub article: Option<ArticleView>,
}

pub struct ConversationView {
    pub conversation: Seq<QuotePostView>,
}

/// A post as a mathematical value.
pub struct PostView {
    pub rest_id: i64,
    pub created_at: Seq<char>,
    pub author: UserView,
    pub content: ContentView,
    pub media: Option<Seq<MediaView>>,
    pub quote: Option<QuotePostView>,
    pub key_words: Option<Seq<Seq<char>>>,
    pub replies: Option<Seq<ConversationView>>,
    pub card: Option<CardView>,
    pub article: Option<ArticleView>,
}

impl PostView {
    /// The post as it stands when another post quotes it: without its own
    /// quote and without its replies.
    pub open spec fn as_quote(self) -> QuotePostView {
        QuotePostView {
            rest_id: self.rest_id,
            created_at: self.created_at,
            author: self.author,
            content: self.content,
            media: self.media,
            key_words: self.key_words,
            card: self.card,
            article: self.article,
        }
    }
}

impl QuotePostView {
    /// The quoted post as a post of its own.
    pub open spec fn as_post(self) -> PostView {
        PostView {
            rest_id: self.rest_id,
            created_at: self.created_at,
            author: self.author,
            content: self.content,
            media: self.media,
            quote: None,
            key_words: self.key_words,
            replies: None,
            card: self.card,
            article: self.article,
        }
    }
}

/// The text of a post.
#[derive(Debug)]
pub struct Content {
    pub lang: String,
    pub text: String,
    pub translation: Option<String>,
    pub expanded_urls: Option<Vec<String>>,
}

/// The link preview of a post.
#[derive(Debug)]
pub struct Card {
    pub title: Option<String>,
    pub description: Option<String>,
    pub url: String,
}

/// The long-form article of a post.
#[derive(Debug)]
pub struct Article {
    pub id: String,
    pub title: String,
    pub description: Option<String>,
    pub url: String,
}

/// A post as it stands inside another: quoted, or as a reply.
#[derive(Debug)]
pub struct QuotePost {
    pub rest_id: i64,
    pub created_at: String,
    pub author: User,
    pub content: Content,
    pub media: Option<Vec<Media>>,
    pub key_words: Option<Vec<String>>,
    pub card: Option<Card>,
    pub article: Option<Article>,
}

/// A post.
#[derive(Debug)]
pub struct Post {
    pub rest_id: i64,
    pub created_at: String,
    pub author: User,
    pub content: Content,
    pub media: Option<Vec<Media>>,
    pub quote: Option<QuotePost>,
    pub key_words: Option<Vec<String>>,
    pub replies: Option<Vec<Conversation>>,
    pub card: Option<Card>,
    pub article: Option<Article>,
}

/// A reply to a post.
#[derive(Debug)]
pub struct Reply(pub QuotePost);

/// A chain of replies.
#[derive(Debug)]
pub struct Conversation {
    pub conversation: Vec<Reply>,
}

/// The place of a post among the records.
#[derive(Debug, Clone, Copy, PartialEq, Eq, Structural)]
pub enum PostType {
    Root,
    Quote,
    Reply,
}

impl DeepView for Content {
    type V = ContentView;

    open spec fn deep_view(&self) -> ContentView {
        ContentView {
            lang: self.lang@,
            text: self.text@,
            translation: self.translation.deep_view(),
            expanded_urls: self.expanded_urls.deep_view(),
        }
    }
}

impl DeepView for Card {
    type V = CardView;

    open spec fn deep_view(&self) -> CardView {
        CardView {
            title: self.title.deep_view(),
            description: self.description.deep_view(),
            url: self.url@,
        }
    }
}

impl DeepView for Article {
    type V = ArticleView;

    open spec fn deep_view(&self) -> ArticleView {
        ArticleView {
            id: self.id@,
            title: self.title@,
            description: self.description.deep_view(),
            url: self.url@,
        }
    }
}

impl DeepView for QuotePost {
    type V = QuotePostView;

    open spec fn deep_view(&self) -> QuotePostView {
        QuotePostView {
            rest_id: self.rest_id,
            created_at: self.created_at@,
            author: self.author.deep_view(),
            content: self.content.deep_view(),
            media: self.media.deep_view(),
            key_words: self.key_words.deep_view(),
            card: self.card.deep_view(),
            article: self.article.deep_view(),
        }
    }
}

impl DeepView for Reply {
    type V = QuotePostView;

    open spec fn deep_view(&self) -> QuotePostView {
        self.0.deep_view()
    }
}

impl DeepView for Conversation {
    type V = ConversationView;

    open spec fn deep_view(&self) -> ConversationView {
        ConversationView { conversation: self.conversation.deep_view() }
    }
}

impl DeepView for Post {
    type V = PostView;

    open spec fn deep_view(&self) -> PostView {
        PostView {
            rest_id: self.rest_id,
            created_at: self.created_at@,
            author: self.author.deep_view(),
            content: self.content.deep_view(),
            media: self.media.deep_view(),
            quote: self.quote.deep_view(),
            key_words: self.key_words.deep_view(),
            replies: self.replies.deep_view(),
            card: self.card.deep_view(),
            article: self.article.deep_view(),
        }
    }
}

/// A copy of a list of texts.
pub fn clone_texts(list: &Vec<String>) -> (r: Vec<String>)
    ensures
        r@ == list@,
{
    let mut r: Vec<String> = Vec::new();
    let mut i: usize = 0;
    while i < list.len()
        invariant
            i <= list.len(),
            r@ =~= list@.subrange(0, i as int),
        decreases list.len() - i,
    {
        r.push(list[i].clone());
        i += 1;
    }
    assert(list@.subrange(0, list@.len() as int) =~= list@);
    r
}

/// A copy of a list of media.
pub fn clone_media(list: &Vec<Media>) -> (r: Vec<Media>)
    ensures
        r@ == list@,
{
    let mut r: Vec<Media> = Vec::new();
    let mut i: usize = 0;
    while i < list.len()
        invariant
            i <= list.len(),
            r@ =~= list@.subrange(0, i as int),
        decreases list.len() - i,
    {
        r.push(list[i].clone());
        i += 1;
    }
    assert(list@.subrange(0, list@.len() as int) =~= list@);
    r
}

fn clone_opt_text(text: &Option<String>) -> (r: Option<String>)
    ensures
        r == *text,
{
    match text {
        Some(t) => Some(t.clone()),
        None => None,
    }
}

fn clone_opt_texts(list: &Option<Vec<String>>) -> (r: Option<Vec<String>>)
    ensures
        r.deep_view() == list.deep_view(),
        r is Some <==> list is Some,
        r is Some ==> r->0@ == list->0@,
{
    match list {
        Some(l) => Some(clone_texts(l)),
        None => None,
    }
}

fn clone_opt_media(list: &Option<Vec<Media>>) -> (r: Option<Vec<Media>>)
    ensures
        r.deep_view() == list.deep_view(),
        r is Some <==> list is Some,
        r is Some ==> r->0@ == list->0@,
{
    match list {
        Some(l) => Some(clone_media(l)),
        None => None,
    }
}

impl Clone for Content {
    fn clone(&self) -> (r: Self)
        ensures
            r.deep_view() == self.deep_view(),
    {
        Content {
            lang: self.lang.clone(),
            text: self.text.clone(),
            translation: clone_opt_text(&self.translation),
            expanded_urls: clone_opt_texts(&self.expanded_urls),
        }
    }
}

impl Clone for Card {
    fn clone(&self) -> (r: Self)
        ensures
            r == *self,
    {
        Card {
            title: clone_opt_text(&self.title),
            description: clone_opt_text(&self.description),
            url: self.url.clone(),
        }
    }
}

impl Clone for Article {
    fn clone(&self) -> (r: Self)
        ensures
            r == *self,
    {
        Article {
            id: self.id.clone(),
            title: self.title.clone(),
            description: clone_opt_text(&self.description),
            url: self.url.clone(),
        }
    }
}

fn clone_opt_card(card: &Option<Card>) -> (r: Option<Card>)
    ensures
        r == *card,
{
    match card {
        Some(c) => Some(c.clone()),
        None => None,
    }
}

fn clone_opt_article(article: &Option<Article>) -> (r: Option<Article>)
    ensures
        r == *article,
{
    match article {
        Some(a) => Some(a.clone()),
        None => None,
    }
}

impl Clone for QuotePost {
    fn clone(&self) -> (r: Self)
        ensures
            r.deep_view() == self.deep_view(),
    {
        QuotePost {
            rest_id: self.rest_id,
            created_at: self.created_at.clone(),
            author: self.author.clone(),
            content: self.content.clone(),
            media: clone_opt_media(&self.media),
            key_words: clone_opt_texts(&self.key_words),
            card: clone_opt_card(&self.card),
            article: clone_opt_article(&self.article),
        }
    }
}

impl Clone for Reply {
    fn clone(&self) -> (r: Self)
        ensures
            r.deep_view() == self.deep_view(),
    {
        Reply(self.0.clone())
    }
}

impl Clone for Conversation {
    fn clone(&self) -> (r: Self)
        ensures
            r.deep_view() == self.deep_view(),
    {
        let mut list: Vec<Reply> = Vec::new();
        let mut i: usize = 0;
        while i < self.conversation.len()
            invariant
                i <= self.conversation.len(),
                list@.len() == i,
                forall|j: int|
                    0 <= j < i ==> (#[trigger] list@[j]).deep_view() == self.conversation@[j].deep_view(),
            decreases self.conversation.len() - i,
        {
            list.push(self.conversation[i].clone());
            i += 1;
        }
        assert(list.deep_view() =~= self.conversation.deep_view());
        Conversation { conversation: list }
    }
}

fn clone_opt_replies(list: &Option<Vec<Conversation>>) -> (r: Option<Vec<Conversation>>)
    ensures
        r.deep_view() == list.deep_view(),
{
    match list {
        Some(l) => {
            let mut r: Vec<Conversation> = Vec::new();
            let mut i: usize = 0;
            while i < l.len()
                invariant
                    i <= l.len(),
                    r@.len() == i,
                    forall|j: int| 0 <= j < i ==> (#[trigger] r@[j]).deep_view() == l@[j].deep_view(),
                decreases l.len() - i,
            {
                r.push(l[i].clone());
                i += 1;
            }
            assert(r.deep_view() =~= l.deep_view());
            Some(r)
        },
        None => None,
    }
}

impl Clone for Post {
    fn clone(&self) -> (r: Self)
        ensures
            r.deep_view() == self.deep_view(),
    {
        Post {
            rest_id: self.rest_id,
            created_at: self.created_at.clone(),
            author: self.author.clone(),
            content: self.content.clone(),
            media: clone_opt_media(&self.media),
            quote: match &self.quote {
                Some(q) => Some(q.clone()),
                None => None,
            },
            key_words: clone_opt_texts(&self.key_words),
            replies: clone_opt_replies(&self.replies),
            card: clone_opt_card(&self.card),
            article: clone_opt_article(&self.article),
        }
    }
}

/// The identifier under which the post `rest_id` is persisted: among the
/// replies if it is a reply, else among the posts.
pub open spec fn post_record(rest_id: i64, which: PostType) -> RecordIdView {
    RecordIdView {
        table: if which == PostType::Reply {
            Table::Reply
        } else {
            Table::Post
        },
        key: RecordKeyView::Number(rest_id as int),
    }
}

/// The identifiers under which `media` are persisted, in order.
pub open spec fn media_records(media: Seq<MediaView>) -> Seq<RecordIdView> {
    Seq::new(media.len(), |i: int| media_record(media[i].base().id))
}

impl Post {
    /// The post as another post quotes it: without its own quote and
    /// without its replies.
    pub fn to_quote(&self) -> (r: QuotePost)
        ensures
            r.deep_view() == self.deep_view().as_quote(),
    {
        QuotePost {
            rest_id: self.rest_id,
            created_at: self.created_at.clone(),
            author: self.author.clone(),
            content: self.content.clone(),
            media: clone_opt_media(&self.media),
            key_words: clone_opt_texts(&self.key_words),
            card: clone_opt_card(&self.card),
            article: clone_opt_article(&self.article),
        }
    }

    /// The quoted post as a post of its own, which quotes nothing and has
    /// no replies.
    pub fn from_quote(quote: QuotePost) -> (r: Post)
        ensures
            r == (Post {
                rest_id: quote.rest_id,
                created_at: quote.created_at,
                author: quote.author,
                content: quote.content,
                media: quote.media,
                quote: None,
                key_words: quote.key_words,
                replies: None,
                card: quote.card,
                article: quote.article,
            }),
            r.deep_view() == quote.deep_view().as_post(),
    {
        Post {
            rest_id: quote.rest_id,
            created_at: quote.created_at,
            author: quote.author,
            content: quote.content,
            media: quote.media,
            quote: None,
            key_words: quote.key_words,
            replies: None,
            card: quote.card,
            article: quote.article,
        }
    }

    pub fn into_db(self) -> (r: DbPost)
        ensures
            r.stands_for(self.deep_view(), PostType::Root),
    {
        DbPost::from_domain(self, PostType::Root)
    }
}

impl QuotePost {
    pub fn into_post(self) -> (r: Post)
        ensures
            r.deep_view() == self.deep_view().as_post(),
            r.quote is None,
            r.replies is None,
    {
        Post::from_quote(self)
    }

    pub fn into_db(self) -> (r: DbPost)
        ensures
            r.stands_for(self.deep_view().as_post(), PostType::Quote),
    {
        DbPost::from_domain(self.into_post(), PostType::Quote)
    }
}

impl Reply {
    pub fn into_db(self) -> (r: DbReply)
        ensures
            r.0.stands_for(self.deep_view().as_post(), PostType::Reply),
    {
        DbReply(DbPost::from_domain(self.0.into_post(), PostType::Reply))
    }
}

/// A chain of replies as persisted: the replies are references.
#[derive(Debug)]
pub struct DbConversation {
    pub conversation: Vec<RecordId>,
}

/// The identifiers of the posts of a chain of replies, in order.
pub open spec fn conversation_records(replies: Seq<QuotePostView>) -> Seq<RecordIdView> {
    Seq::new(replies.len(), |i: int| post_record(replies[i].rest_id, PostType::Root))
}

impl DbConversation {
    pub fn from_domain(conv: Conversation) -> (r: DbConversation)
        ensures
            id_views(r.conversation@) == conversation_records(conv.conversation.deep_view()),
    {
        let mut ids: Vec<RecordId> = Vec::new();
        let mut i: usize = 0;
        while i < conv.conversation.len()
            invariant
                i <= conv.conversation.len(),
                ids@.len() == i,
                forall|j: int|
                    0 <= j < i ==> (#[trigger] ids@[j])@ == post_record(
                        conv.conversation@[j].0.rest_id,
                        PostType::Root,
                    ),
            decreases conv.conversation.len() - i,
        {
            ids.push(RecordId::numbered(Table::Post, conv.conversation[i].0.rest_id));
            i += 1;
        }
        assert(id_views(ids@) =~= conversation_records(conv.conversation.deep_view()));
        DbConversation { conversation: ids }
    }
}

impl Conversation {
    pub fn into_db(self) -> (r: DbConversation)
        ensures
            id_views(r.conversation@) == conversation_records(self.conversation.deep_view()),
    {
        DbConversation::from_domain(self)
    }
}

/// A post as persisted: author, media, quote and replies are references.
#[derive(Debug)]
pub struct DbPost {
    pub id: RecordId,
    pub created_at: String,
    pub author: RecordId,
    pub content: Content,
    pub media: Option<Vec<RecordId>>,
    pub quote: Option<RecordId>,
    pub key_words: Option<Vec<String>>,
    pub replies: Option<Vec<DbConversation>>,
    pub card: Option<Card>,
    pub article: Option<Article>,
    pub is_root: bool,
}

/// A reply as persisted.
#[derive(Debug)]
pub struct DbReply(pub DbPost);

impl DbPost {
    /// Whether this record is the one of `post`, persisted as `which` says.
    pub open spec fn stands_for(self, post: PostView, which: PostType) -> bool {
        &&& self.id@ == post_record(post.rest_id, which)
        &&& self.created_at@ == post.created_at
        &&& self.author@ == user_record(post.author.id)
        &&& self.content.deep_view() == post.content
        &&& match post.media {
            Some(media) => self.media is Some && id_views(self.media->0@) == media_records(media),
            None => self.media is None,
        }
        &&& match post.quote {
            Some(quote) => self.quote is Some && self.quote->0@ == post_record(
                quote.rest_id,
                PostType::Quote,
            ),
            None => self.quote is None,
        }
        &&& self.key_words.deep_view() == post.key_words
        &&& match post.replies {
            Some(replies) => {
                &&& self.replies is Some
                &&& self.replies->0@.len() == replies.len()
                &&& forall|i: int|
                    0 <= i < replies.len() ==> id_views((#[trigger] self.replies->0@[i]).conversation@)
                        == conversation_records(replies[i].conversation)
            },
            None => self.replies is None,
        }
        &&& self.card.deep_view() == post.card
        &&& self.article.deep_view() == post.article
        &&& self.is_root == (which == PostType::Root)
    }

    pub fn from_domain(post: Post, which: PostType) -> (r: DbPost)
        ensures
            r.stands_for(post.deep_view(), which),
    {
        let id = match which {
            PostType::Reply => RecordId::numbered(Table::Reply, post.rest_id),
            _ => RecordId::numbered(Table::Post, post.rest_id),
        };
        let author = RecordId::named(Table::User, post.author.id.as_str());
        let media = match &post.media {
            Some(list) => {
                let mut ids: Vec<RecordId> = Vec::new();
                let mut i: usize = 0;
                while i < list.len()
                    invariant
                        i <= list.len(),
                        ids@.len() == i,
                        forall|j: int|
                            0 <= j < i ==> (#[trigger] ids@[j])@ == media_record(list@[j].base().id@),
                    decreases list.len() - i,
                {
                    ids.push(list[i].record_id());
                    i += 1;
                }
                assert(id_views(ids@) =~= media_records(list.deep_view()));
                Some(ids)
            },
            None => None,
        };
        let quote = match &post.quote {
            Some(q) => Some(RecordId::numbered(Table::Post, q.rest_id)),
            None => None,
        };
        let replies = match post.replies {
            Some(list) => {
                let ghost all = list@;
                let mut rest = crate::seqs::reversed(list);
                let mut out: Vec<DbConversation> = Vec::new();
                while rest.len() > 0
                    invariant
                        rest@.len() + out@.len() == all.len(),
                        forall|j: int| 0 <= j < rest@.len() ==> rest@[j] == all[all.len() - 1 - j],
                        forall|j: int|
                            0 <= j < out@.len() ==> id_views((#[trigger] out@[j]).conversation@)
                                == conversation_records(all[j].conversation.deep_view()),
                    decreases rest@.len(),
                {
                    let conv = rest.pop().unwrap();
                    out.push(conv.into_db());
                }
                Some(out)
            },
            None => None,
        };
        DbPost {
            id,
            created_at: post.created_at,
            author,
            content: post.content,
            media,
            quote,
            key_words: post.key_words,
            replies,
            card: post.card,
            article: post.article,
            is_root: match which {
                PostType::Root => true,
                _ => false,
            },
        }
    }
}

} // verus!

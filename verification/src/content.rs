use vstd::prelude::*;
use vstd::string::StrSliceExecFns;
use vstd::string::StringExecFns;
use vstd::utf8::encode_utf8;
use crate::json::{items_in, items_of, text_in, text_of, Json};
use crate::post::{Article, ArticleView, Content, ContentView};
use crate::text::{
    concat, decode_html, ends_with, html_decoded, trim, trim_end, trimmed, trimmed_end,
};

verus! {

/// The length by which short links are ordered: the number of bytes of the
/// text.
pub open spec fn weight(text: Seq<char>) -> nat {
    encode_utf8(text).len()
}

/// Where `x` goes into `sorted`, looked for from `from` on: before the
/// first text that is lighter than `x`.
pub open spec fn slot(sorted: Seq<Seq<char>>, x: Seq<char>, from: int) -> int
    decreases sorted.len() - from,
{
    if from < 0 || from >= sorted.len() {
        sorted.len() as int
    } else if weight(sorted[from]) < weight(x) {
        from
    } else {
        slot(sorted, x, from + 1)
    }
}

/// The texts of `list`, the heaviest first; texts of one weight stay in
/// their order.
pub open spec fn heaviest_first(list: Seq<Seq<char>>) -> Seq<Seq<char>>
    decreases list.len(),
{
    if list.len() == 0 {
        Seq::empty()
    } else {
        let sorted = heaviest_first(list.drop_last());
        sorted.insert(slot(sorted, list.last(), 0), list.last())
    }
}

proof fn lemma_slot(sorted: Seq<Seq<char>>, x: Seq<char>, from: int)
    requires
        0 <= from <= sorted.len(),
    ensures
        from <= slot(sorted, x, from) <= sorted.len(),
        forall|j: int| from <= j < slot(sorted, x, from) ==> weight(sorted[j]) >= weight(x),
        slot(sorted, x, from) < sorted.len() ==> weight(sorted[slot(sorted, x, from)]) < weight(x),
    decreases sorted.len() - from,
{
    if from < sorted.len() && weight(sorted[from]) >= weight(x) {
        lemma_slot(sorted, x, from + 1);
    }
}

/// `heaviest_first` orders by weight, and holds what the list held.
pub proof fn law_heaviest_first_is_ordered(list: Seq<Seq<char>>)
    ensures
        heaviest_first(list).len() == list.len(),
        forall|i: int, j: int|
            0 <= i <= j < list.len() ==> weight(heaviest_first(list)[i]) >= weight(
                heaviest_first(list)[j],
            ),
        heaviest_first(list).to_multiset() == list.to_multiset(),
    decreases list.len(),
{
    if list.len() > 0 {
        let rest = list.drop_last();
        let x = list.last();
        law_heaviest_first_is_ordered(rest);
        let sorted = heaviest_first(rest);
        let k = slot(sorted, x, 0);
        lemma_slot(sorted, x, 0);
        let out = sorted.insert(k, x);
        assert forall|i: int, j: int| 0 <= i <= j < list.len() implies weight(out[i]) >= weight(
            out[j],
        ) by {
            if j < k {
            } else if j == k {
            } else {
                assert(out[j] == sorted[j - 1]);
                if i < k {
                    assert(weight(sorted[k]) < weight(x));
                    assert(weight(sorted[i]) >= weight(x));
                    assert(weight(sorted[k]) >= weight(sorted[j - 1]));
                } else if i == k {
                    assert(weight(sorted[k]) >= weight(sorted[j - 1]));
                } else {
                    assert(out[i] == sorted[i - 1]);
                }
            }
        }
        assert(list =~= rest.push(x));
        vstd::seq_lib::to_multiset_build(rest, x);
        vstd::seq_lib::to_multiset_insert(sorted, k, x);
        assert(heaviest_first(list).to_multiset() =~= list.to_multiset());
    } else {
        assert(list =~= Seq::empty());
    }
}

/// Orders short links, the heaviest first.
pub fn sort_heaviest_first(list: Vec<String>) -> (r: Vec<String>)
    ensures
        r.deep_view() == heaviest_first(list.deep_view()),
{
    let ghost all = list.deep_view();
    let mut rest = crate::seqs::reversed(list);
    let mut sorted: Vec<String> = Vec::new();
    assert(all.subrange(0, 0) =~= Seq::empty());
    assert(sorted.deep_view() =~= Seq::empty());
    while rest.len() > 0
        invariant
            rest@.len() <= all.len(),
            forall|j: int| 0 <= j < rest@.len() ==> rest@[j]@ == all[all.len() - 1 - j],
            sorted.deep_view() == heaviest_first(all.subrange(0, all.len() - rest@.len())),
        decreases rest@.len(),
    {
        let ghost done = all.len() - rest@.len();
        let ghost before = sorted.deep_view();
        let x = rest.pop().unwrap();
        assert(x@ == all[done]);
        assert(all.subrange(0, done + 1).drop_last() =~= all.subrange(0, done));
        assert(all.subrange(0, done + 1).last() == x@);
        let size = x.as_str().as_bytes().len();
        let mut i: usize = 0;
        let mut found = false;
        while i < sorted.len() && !found
            invariant
                i <= sorted.len(),
                before == sorted.deep_view(),
                size == weight(x@),
                slot(before, x@, 0) == slot(before, x@, i as int),
                found ==> i < sorted.len() && weight(before[i as int]) < weight(x@),
            decreases sorted.len() - i + if found { 0int } else { 1int },
        {
            assert(before[i as int] == sorted@[i as int]@);
            if sorted[i].as_str().as_bytes().len() >= size {
                i += 1;
            } else {
                found = true;
            }
        }
        sorted.insert(i, x);
        assert(sorted.deep_view() =~= before.insert(i as int, x@));
    }
    assert(all.subrange(0, all.len() as int) =~= all);
    sorted
}

/// `text` with the short link `short` taken from its end as often as it
/// stands there, and with the white space before it. An empty link takes
/// nothing.
pub open spec fn without_tail(text: Seq<char>, short: Seq<char>) -> Seq<char>
    decreases text.len(),
{
    if short.len() > 0 && short.is_suffix_of(text) {
        let cut = text.take(text.len() - short.len());
        proof {
            crate::text::lemma_trimmed_end_is_prefix(cut);
        }
        without_tail(trimmed_end(cut), short)
    } else {
        text
    }
}

/// `text` with each of the short links `shorts` taken from its end, one
/// after the other.
pub open spec fn without_tails(text: Seq<char>, shorts: Seq<Seq<char>>) -> Seq<char>
    decreases shorts.len(),
{
    if shorts.len() == 0 {
        text
    } else {
        without_tail(without_tails(text, shorts.drop_last()), shorts.last())
    }
}

pub fn strip_tail(text: String, short: &str) -> (r: String)
    ensures
        r@ == without_tail(text@, short@),
{
    let mut text = text;
    let ghost start = text@;
    if short.unicode_len() == 0 {
        return text;
    }
    while ends_with(text.as_str(), short)
        invariant
            short@.len() > 0,
            without_tail(start, short@) == without_tail(text@, short@),
        decreases text@.len(),
    {
        let n = text.as_str().unicode_len();
        let m = short.unicode_len();
        let head = text.as_str().substring_char(0, n - m);
        assert(head@ =~= text@.take(text@.len() - short@.len()));
        let next = trim_end(head);
        text = next;
    }
    text
}

fn strip_tails(text: String, shorts: &Vec<String>) -> (r: String)
    ensures
        r@ == without_tails(text@, shorts.deep_view()),
{
    let ghost all = shorts.deep_view();
    let ghost start = text@;
    let mut text = text;
    let mut i: usize = 0;
    assert(all.subrange(0, 0) =~= Seq::empty());
    while i < shorts.len()
        invariant
            i <= shorts.len(),
            all == shorts.deep_view(),
            text@ == without_tails(start, all.subrange(0, i as int)),
        decreases shorts.len() - i,
    {
        assert(all.subrange(0, i as int + 1).drop_last() =~= all.subrange(0, i as int));
        assert(all.subrange(0, i as int + 1).last() == shorts@[i as int]@);
        text = strip_tail(text, shorts[i].as_str());
        i += 1;
    }
    assert(all.subrange(0, all.len() as int) =~= all);
    text
}

/// The addresses of the media of a post, as far as they are texts.
pub open spec fn media_links(media: Seq<Json>) -> Seq<Seq<char>>
    decreases media.len(),
{
    if media.len() == 0 {
        Seq::empty()
    } else {
        match text_of(media.last().field("url"@)) {
            Some(u) => media_links(media.drop_last()).push(u),
            None => media_links(media.drop_last()),
        }
    }
}

/// Whether a link entry holds both its short form and its expanded form.
pub open spec fn is_link(entry: Json) -> bool {
    text_of(entry.field("url"@)) is Some && text_of(entry.field("expanded_url"@)) is Some
}

/// The short forms of the links among `entries`.
pub open spec fn short_links(entries: Seq<Json>) -> Seq<Seq<char>>
    decreases entries.len(),
{
    if entries.len() == 0 {
        Seq::empty()
    } else if is_link(entries.last()) {
        short_links(entries.drop_last()).push(text_of(entries.last().field("url"@))->0)
    } else {
        short_links(entries.drop_last())
    }
}

/// The expanded forms of the links among `entries`.
pub open spec fn expanded_links(entries: Seq<Json>) -> Seq<Seq<char>>
    decreases entries.len(),
{
    if entries.len() == 0 {
        Seq::empty()
    } else if is_link(entries.last()) {
        expanded_links(entries.drop_last()).push(text_of(entries.last().field("expanded_url"@))->0)
    } else {
        expanded_links(entries.drop_last())
    }
}

/// The elements of an array that may be missing; none of what is missing or
/// is no array.
pub open spec fn elements(value: Option<Json>) -> Seq<Json> {
    match items_of(value) {
        Some(items) => items,
        None => Seq::empty(),
    }
}

/// The short links that are taken from the end of a post's text: that of
/// its card, that of the post it quotes, those of its media, those of its
/// links.
pub open spec fn links_to_remove(json: Json) -> Seq<Seq<char>> {
    let card = match text_of(json.at2("card"@, "url"@)) {
        Some(u) => seq![u],
        None => Seq::empty(),
    };
    let quoted = match text_of(json.at3("legacy"@, "quoted_status_permalink"@, "url"@)) {
        Some(u) => seq![u],
        None => Seq::empty(),
    };
    card + quoted + media_links(elements(json.at3("legacy"@, "entities"@, "media"@))) + short_links(
        elements(json.at3("legacy"@, "entities"@, "urls"@)),
    ) + short_links(
        elements(json.at5("note_tweet"@, "note_tweet_results"@, "result"@, "entity_set"@, "urls"@)),
    )
}

/// The expanded links of a post: those of its text, then those of its note.
pub open spec fn links_expanded(json: Json) -> Seq<Seq<char>> {
    expanded_links(elements(json.at3("legacy"@, "entities"@, "urls"@))) + expanded_links(
        elements(json.at5("note_tweet"@, "note_tweet_results"@, "result"@, "entity_set"@, "urls"@)),
    )
}

/// The raw text of a post: that of its note where it has one, else its own.
pub open spec fn raw_text(json: Json) -> Option<Seq<char>> {
    match json.at4("note_tweet"@, "note_tweet_results"@, "result"@, "text"@) {
        Some(note) => note.text(),
        None => text_of(json.at2("legacy"@, "full_text"@)),
    }
}

/// The content of a post: its raw text without the short links at its end
/// and with its HTML entities decoded, its language, and its expanded
/// links; `None` of a post without text.
pub open spec fn content_from_api(json: Json) -> Option<ContentView> {
    match raw_text(json) {
        Some(raw) => Some(
            ContentView {
                lang: match text_of(json.at2("legacy"@, "lang"@)) {
                    Some(l) => l,
                    None => Seq::empty(),
                },
                text: trimmed(
                    html_decoded(without_tails(raw, heaviest_first(links_to_remove(json)))),
                ),
                translation: None,
                expanded_urls: if links_expanded(json).len() > 0 {
                    Some(links_expanded(json))
                } else {
                    None
                },
            },
        ),
        None => None,
    }
}

fn push_media_links(list: &mut Vec<String>, media: Option<&Json>)
    ensures
        final(list).deep_view() == old(list).deep_view() + media_links(
            elements(
                match media {
                    Some(j) => Some(*j),
                    None => None,
                },
            ),
        ),
{
    let ghost start = list.deep_view();
    match items_in(media) {
        Some(items) => {
            let mut i: usize = 0;
            assert(items@.subrange(0, 0) =~= Seq::empty());
            assert(start + media_links(Seq::empty()) =~= start);
            while i < items.len()
                invariant
                    i <= items.len(),
                    list.deep_view() == start + media_links(items@.subrange(0, i as int)),
                decreases items.len() - i,
            {
                let ghost before = list.deep_view();
                assert(items@.subrange(0, i as int + 1).drop_last() =~= items@.subrange(0, i as int));
                assert(items@.subrange(0, i as int + 1).last() == items@[i as int]);
                match text_in(items[i].get("url")) {
                    Some(u) => {
                        list.push(String::from_str(u));
                        assert(list.deep_view() =~= before.push(u@));
                        assert(list.deep_view() =~= start + media_links(
                            items@.subrange(0, i as int + 1),
                        ));
                    },
                    None => {},
                }
                i += 1;
            }
            assert(items@.subrange(0, items@.len() as int) =~= items@);
        },
        None => {
            assert(start + Seq::<Seq<char>>::empty() =~= start);
        },
    }
}

fn push_links(shorts: &mut Vec<String>, expanded: &mut Vec<String>, entries: Option<&Json>)
    ensures
        final(shorts).deep_view() == old(shorts).deep_view() + short_links(
            elements(
                match entries {
                    Some(j) => Some(*j),
                    None => None,
                },
            ),
        ),
        final(expanded).deep_view() == old(expanded).deep_view() + expanded_links(
            elements(
                match entries {
                    Some(j) => Some(*j),
                    None => None,
                },
            ),
        ),
{
    let ghost start_s = shorts.deep_view();
    let ghost start_e = expanded.deep_view();
    match items_in(entries) {
        Some(items) => {
            let mut i: usize = 0;
            assert(items@.subrange(0, 0) =~= Seq::empty());
            assert(start_s + short_links(Seq::empty()) =~= start_s);
            assert(start_e + expanded_links(Seq::empty()) =~= start_e);
            while i < items.len()
                invariant
                    i <= items.len(),
                    shorts.deep_view() == start_s + short_links(items@.subrange(0, i as int)),
                    expanded.deep_view() == start_e + expanded_links(items@.subrange(0, i as int)),
                decreases items.len() - i,
            {
                let ghost before_s = shorts.deep_view();
                let ghost before_e = expanded.deep_view();
                assert(items@.subrange(0, i as int + 1).drop_last() =~= items@.subrange(0, i as int));
                assert(items@.subrange(0, i as int + 1).last() == items@[i as int]);
                match text_in(items[i].get("url")) {
                    Some(short) => match text_in(items[i].get("expanded_url")) {
                        Some(long) => {
                            shorts.push(String::from_str(short));
                            expanded.push(String::from_str(long));
                            assert(shorts.deep_view() =~= before_s.push(short@));
                            assert(expanded.deep_view() =~= before_e.push(long@));
                            assert(shorts.deep_view() =~= start_s + short_links(
                                items@.subrange(0, i as int + 1),
                            ));
                            assert(expanded.deep_view() =~= start_e + expanded_links(
                                items@.subrange(0, i as int + 1),
                            ));
                        },
                        None => {},
                    },
                    None => {},
                }
                i += 1;
            }
            assert(items@.subrange(0, items@.len() as int) =~= items@);
        },
        None => {
            assert(start_s + Seq::<Seq<char>>::empty() =~= start_s);
            assert(start_e + Seq::<Seq<char>>::empty() =~= start_e);
        },
    }
}

impl Content {
    /// Reads the content of a post from its record of the platform.
    pub fn from_api(json: &Json) -> (r: Option<Content>)
        ensures
            r.deep_view() == content_from_api(*json),
    {
        let raw = match json.get4("note_tweet", "note_tweet_results", "result", "text") {
            Some(note) => note.as_str()?,
            None => text_in(json.get2("legacy", "full_text"))?,
        };
        let mut removal: Vec<String> = Vec::new();
        let mut expanded: Vec<String> = Vec::new();
        assert(removal.deep_view() =~= Seq::empty());
        assert(expanded.deep_view() =~= Seq::empty());
        match text_in(json.get2("card", "url")) {
            Some(u) => {
                removal.push(String::from_str(u));
                assert(removal.deep_view() =~= seq![u@]);
            },
            None => {},
        }
        let ghost a = removal.deep_view();
        match text_in(json.get3("legacy", "quoted_status_permalink", "url")) {
            Some(u) => {
                removal.push(String::from_str(u));
                assert(removal.deep_view() =~= a + seq![u@]);
            },
            None => {
                assert(removal.deep_view() =~= a + Seq::<Seq<char>>::empty());
            },
        }
        push_media_links(&mut removal, json.get3("legacy", "entities", "media"));
        push_links(&mut removal, &mut expanded, json.get3("legacy", "entities", "urls"));
        push_links(
            &mut removal,
            &mut expanded,
            json.get5("note_tweet", "note_tweet_results", "result", "entity_set", "urls"),
        );
        assert(removal.deep_view() == links_to_remove(*json));
        assert(expanded.deep_view() =~= links_expanded(*json));
        let sorted = sort_heaviest_first(removal);
        let stripped = strip_tails(String::from_str(raw), &sorted);
        let text = trim(decode_html(stripped.as_str()).as_str());
        let lang = match text_in(json.get2("legacy", "lang")) {
            Some(l) => String::from_str(l),
            None => String::new(),
        };
        let expanded_urls = if expanded.len() > 0 {
            Some(expanded)
        } else {
            None
        };
        Some(Content { text, lang, translation: None, expanded_urls })
    }
}

/// The article that a record of the platform describes; `None` of `null`
/// and of a record without id, title or post number.
pub open spec fn article_from_api(json: Json) -> Option<ArticleView> {
    let id = text_of(json.field("id"@));
    let title = text_of(json.field("title"@));
    let number = text_of(json.field("rest_id"@));
    if json is Null || id is None || title is None || number is None {
        None
    } else {
        Some(
            ArticleView {
                id: id->0,
                title: title->0,
                description: match text_of(json.field("preview_text"@)) {
                    Some(p) => Some(p + "..."@),
                    None => None,
                },
                url: "https://x.com/i/status/"@ + number->0,
            },
        )
    }
}

impl Article {
    /// Reads an article from its record of the platform.
    pub fn from_api(json: &Json) -> (r: Option<Article>)
        ensures
            r.deep_view() == article_from_api(*json),
    {
        if json.is_null() {
            return None;
        }
        let id = text_in(json.get("id"))?;
        let title = text_in(json.get("title"))?;
        let description = match text_in(json.get("preview_text")) {
            Some(p) => Some(concat(p, "...")),
            None => None,
        };
        let number = text_in(json.get("rest_id"))?;
        Some(
            Article {
                id: String::from_str(id),
                title: String::from_str(title),
                description,
                url: concat("https://x.com/i/status/", number),
            },
        )
    }
}

} // verus!

use vstd::prelude::*;
use vstd::string::StringExecFns;
use crate::json::{
    items_in, items_of, lemma_field_view, parsed, text_in, text_of, unsigned_in, Json, JsonView,
};
use crate::post::{Card, CardView};
use crate::text::{concat, contains, occurs_in, same_text};
use crate::numbers::{decimal, u64_to_text};

verus! {

/// The text that the card's values bind to `key`: the text value of the
/// first binding of that key.
pub open spec fn binding(values: Seq<Json>, key: Seq<char>) -> Option<Seq<char>>
    decreases values.len(),
{
    if values.len() == 0 {
        None
    } else if text_of(values[0].field("key"@)) == Some(key) {
        text_of(values[0].at2("value"@, "string_value"@))
    } else {
        binding(values.skip(1), key)
    }
}

/// The expanded form of the short link `short` among the links `links`: that
/// of the first link with this short form.
pub open spec fn expansion(links: Seq<Json>, short: Seq<char>) -> Option<Seq<char>>
    decreases links.len(),
{
    if links.len() == 0 {
        None
    } else if text_of(links[0].field("url"@)) == Some(short) {
        text_of(links[0].field("expanded_url"@))
    } else {
        expansion(links.skip(1), short)
    }
}

/// The member `c` of the member `b` of the member `a` of a value.
pub open spec fn view_at3(value: JsonView, a: Seq<char>, b: Seq<char>, c: Seq<char>) -> Option<JsonView> {
    match value.field(a) {
        Some(x) => match x.field(b) {
            Some(y) => y.field(c),
            None => None,
        },
        None => None,
    }
}

/// The text of a value that may be missing.
pub open spec fn view_text(value: Option<JsonView>) -> Option<Seq<char>> {
    match value {
        Some(v) => v.text(),
        None => None,
    }
}

/// The details of a unified card, where it names them.
pub open spec fn details(value: JsonView) -> Option<JsonView> {
    view_at3(value, "component_objects"@, "details_1"@, "data"@)
}

/// The message at place `place` of a shared conversation.
pub open spec fn message(preview: JsonView, place: Seq<char>) -> Option<Seq<char>> {
    match preview.field(place) {
        Some(turn) => view_text(turn.field("message"@)),
        None => None,
    }
}

/// The name that the details of a list or a community give.
pub open spec fn detail_name(value: JsonView) -> Option<Seq<char>> {
    match details(value) {
        Some(data) => match data.field("name"@) {
            Some(name) => view_text(name.field("content"@)),
            None => None,
        },
        None => None,
    }
}

/// How many members the details of a list or a community count.
pub open spec fn detail_members(value: JsonView) -> Option<u64> {
    match details(value) {
        Some(data) => match data.field("member_count"@) {
            Some(n) => n.unsigned(),
            None => None,
        },
        None => None,
    }
}

/// The line under the title of a list or a community.
pub open spec fn member_line(kind: Seq<char>, members: Option<u64>) -> Option<Seq<char>> {
    match members {
        Some(n) => Some(kind + decimal(n as int) + " members"@),
        None => None,
    }
}

/// Title and description that a unified card gives; `None` where it names
/// no type, or is a shared conversation without a preview.
pub open spec fn unified(value: JsonView) -> Option<(Option<Seq<char>>, Option<Seq<char>>)> {
    match view_text(view_at3(value, "component_objects"@, "details_1"@, "type"@)) {
        Some(ty) => if ty == "grok_share"@ {
            match details(value) {
                Some(data) => match data.field("conversation_preview"@) {
                    Some(preview) => Some((message(preview, "0"@), message(preview, "1"@))),
                    None => None,
                },
                None => None,
            }
        } else if ty == "twitter_list_details"@ {
            Some((detail_name(value), member_line("list · "@, detail_members(value))))
        } else if ty == "community_details"@ {
            Some((detail_name(value), member_line("community · "@, detail_members(value))))
        } else {
            Some((None, None))
        },
        None => None,
    }
}

/// Title and description of a card whose bindings give neither.
pub open spec fn fallback(values: Seq<Json>, url: Seq<char>) -> Option<
    (Option<Seq<char>>, Option<Seq<char>>),
> {
    match binding(values, "unified_card"@) {
        Some(text) => match parsed(text) {
            Some(value) => unified(value),
            None => None,
        },
        None => if binding(values, "narrow_cast_space_type"@) is Some || occurs_in(url, "spaces"@) {
            None
        } else {
            Some((None, None))
        },
    }
}

/// The card made of the values `values` and the expanded link `url`.
pub open spec fn card_of(values: Seq<Json>, url: Seq<char>) -> Option<CardView> {
    let title = binding(values, "title"@);
    let description = binding(values, "description"@);
    if occurs_in(url, "compose?recipient"@) {
        None
    } else if title is None && description is None {
        match fallback(values, url) {
            Some((t, d)) => Some(CardView { title: t, description: d, url }),
            None => None,
        }
    } else {
        Some(CardView { title, description, url })
    }
}

/// The link preview of a post; `None` of a post without a card, of a card
/// that is internal, that has no link among the post's links, that leads to
/// a message form or to an audio space.
pub open spec fn card_from_api(data: Json) -> Option<CardView> {
    match (
        text_of(data.at2("card"@, "rest_id"@)),
        items_of(data.at3("card"@, "legacy"@, "binding_values"@)),
        items_of(data.at3("legacy"@, "entities"@, "urls"@)),
    ) {
        (Some(rest_id), Some(values), Some(links)) => if occurs_in(rest_id, "card://"@) {
            None
        } else {
            match binding(values, "card_url"@) {
                Some(short) => match expansion(links, short) {
                    Some(url) => card_of(values, url),
                    None => None,
                },
                None => None,
            }
        },
        _ => None,
    }
}

fn get_binding(values: &Vec<Json>, key: &str) -> (r: Option<String>)
    ensures
        r.deep_view() == binding(values@, key@),
{
    let mut i: usize = 0;
    assert(values@.skip(0) =~= values@);
    while i < values.len()
        invariant
            i <= values.len(),
            binding(values@, key@) == binding(values@.skip(i as int), key@),
        decreases values.len() - i,
    {
        let ghost rest = values@.skip(i as int);
        assert(rest[0] == values@[i as int]);
        assert(rest.skip(1) =~= values@.skip(i as int + 1));
        match text_in(values[i].get("key")) {
            Some(k) => {
                if same_text(k, key) {
                    return match text_in(values[i].get2("value", "string_value")) {
                        Some(v) => Some(String::from_str(v)),
                        None => None,
                    };
                }
            },
            None => {},
        }
        i += 1;
    }
    None
}

fn get_expansion(links: &Vec<Json>, short: &str) -> (r: Option<String>)
    ensures
        r.deep_view() == expansion(links@, short@),
{
    let mut i: usize = 0;
    assert(links@.skip(0) =~= links@);
    while i < links.len()
        invariant
            i <= links.len(),
            expansion(links@, short@) == expansion(links@.skip(i as int), short@),
        decreases links.len() - i,
    {
        let ghost rest = links@.skip(i as int);
        assert(rest[0] == links@[i as int]);
        assert(rest.skip(1) =~= links@.skip(i as int + 1));
        match text_in(links[i].get("url")) {
            Some(u) => {
                if same_text(u, short) {
                    return match text_in(links[i].get("expanded_url")) {
                        Some(v) => Some(String::from_str(v)),
                        None => None,
                    };
                }
            },
            None => {},
        }
        i += 1;
    }
    None
}

fn opt_text(value: Option<&str>) -> (r: Option<String>)
    ensures
        match value {
            Some(s) => r.deep_view() == Some(s@),
            None => r is None,
        },
{
    match value {
        Some(s) => Some(String::from_str(s)),
        None => None,
    }
}

fn get_message(preview: &Json, place: &str) -> (r: Option<String>)
    ensures
        r.deep_view() == message(preview@, place@),
{
    proof {
        lemma_field_view(*preview, place@);
    }
    match preview.get(place) {
        Some(turn) => {
            proof {
                lemma_field_view(*turn, "message"@);
            }
            match turn.get("message") {
                Some(m) => {
                    proof {
                        lemma_field_view(*m, "message"@);
                    }
                    opt_text(m.as_str())
                },
                None => None,
            }
        },
        None => None,
    }
}

fn get_view3<'a>(value: &'a Json, a: &str, b: &str, c: &str) -> (r: Option<&'a Json>)
    ensures
        match r {
            Some(j) => view_at3(value@, a@, b@, c@) == Some(j@),
            None => view_at3(value@, a@, b@, c@) is None,
        },
{
    proof {
        lemma_field_view(*value, a@);
    }
    match value.get(a) {
        Some(x) => {
            proof {
                lemma_field_view(*x, b@);
            }
            match x.get(b) {
                Some(y) => {
                    proof {
                        lemma_field_view(*y, c@);
                    }
                    y.get(c)
                },
                None => None,
            }
        },
        None => None,
    }
}

fn get_detail_name(value: &Json) -> (r: Option<String>)
    ensures
        r.deep_view() == detail_name(value@),
{
    match get_view3(value, "component_objects", "details_1", "data") {
        Some(data) => {
            proof {
                lemma_field_view(*data, "name"@);
            }
            match data.get("name") {
                Some(name) => {
                    proof {
                        lemma_field_view(*name, "content"@);
                    }
                    match name.get("content") {
                        Some(content) => {
                            proof {
                                lemma_field_view(*content, "content"@);
                            }
                            opt_text(content.as_str())
                        },
                        None => None,
                    }
                },
                None => None,
            }
        },
        None => None,
    }
}

fn get_member_line(value: &Json, kind: &str) -> (r: Option<String>)
    ensures
        r.deep_view() == member_line(kind@, detail_members(value@)),
{
    match get_view3(value, "component_objects", "details_1", "data") {
        Some(data) => {
            proof {
                lemma_field_view(*data, "member_count"@);
            }
            match data.get("member_count") {
                Some(count) => {
                    proof {
                        lemma_field_view(*count, "member_count"@);
                    }
                    match count.as_u64() {
                        Some(n) => {
                            let mut line = concat(kind, u64_to_text(n).as_str());
                            line.append(" members");
                            Some(line)
                        },
                        None => None,
                    }
                },
                None => None,
            }
        },
        None => None,
    }
}

fn get_unified(value: &Json) -> (r: Option<(Option<String>, Option<String>)>)
    ensures
        r.deep_view() == unified(value@),
{
    let ty = match get_view3(value, "component_objects", "details_1", "type") {
        Some(t) => {
            proof {
                lemma_field_view(*t, "type"@);
            }
            t.as_str()?
        },
        None => {
            return None;
        },
    };
    if same_text(ty, "grok_share") {
        match get_view3(value, "component_objects", "details_1", "data") {
            Some(data) => {
                proof {
                    lemma_field_view(*data, "conversation_preview"@);
                }
                match data.get("conversation_preview") {
                    Some(preview) => Some((get_message(preview, "0"), get_message(preview, "1"))),
                    None => None,
                }
            },
            None => None,
        }
    } else if same_text(ty, "twitter_list_details") {
        Some((get_detail_name(value), get_member_line(value, "list · ")))
    } else if same_text(ty, "community_details") {
        Some((get_detail_name(value), get_member_line(value, "community · ")))
    } else {
        Some((None, None))
    }
}

fn get_fallback(values: &Vec<Json>, url: &str) -> (r: Option<(Option<String>, Option<String>)>)
    ensures
        r.deep_view() == fallback(values@, url@),
{
    match get_binding(values, "unified_card") {
        Some(text) => match Json::parse(text.as_str()) {
            Some(value) => get_unified(&value),
            None => None,
        },
        None => {
            if get_binding(values, "narrow_cast_space_type").is_some() || contains(url, "spaces") {
                None
            } else {
                Some((None, None))
            }
        },
    }
}

impl Card {
    /// Reads the link preview of a post from its record of the platform.
    pub fn from_api(data: &Json) -> (r: Option<Card>)
        ensures
            r.deep_view() == card_from_api(*data),
    {
        let rest_id = text_in(data.get2("card", "rest_id"))?;
        let values = items_in(data.get3("card", "legacy", "binding_values"))?;
        let links = items_in(data.get3("legacy", "entities", "urls"))?;
        if contains(rest_id, "card://") {
            return None;
        }
        let short = get_binding(values, "card_url")?;
        let url = get_expansion(links, short.as_str())?;
        let title = get_binding(values, "title");
        let description = get_binding(values, "description");
        if contains(url.as_str(), "compose?recipient") {
            return None;
        }
        if title.is_none() && description.is_none() {
            let (t, d) = get_fallback(values, url.as_str())?;
            Some(Card { title: t, description: d, url })
        } else {
            Some(Card { title, description, url })
        }
    }
}

} // verus!

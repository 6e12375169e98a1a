use vstd::prelude::*;
use vstd::string::StrSliceExecFns;
use vstd::string::StringExecFns;
use crate::json::{json_view, lemma_object_view, member_views, parsed, Json, JsonView};
use crate::text::{
    contains, lines, lines_of, occurs_in, same_text, split_all, split_first, split_in_two, split_on,
    starts_with, trim, trimmed,
};

verus! {

/// The value of the first pair named `key`.
pub open spec fn first_value(pairs: Seq<(Seq<char>, Seq<char>)>, key: Seq<char>) -> Option<Seq<char>>
    decreases pairs.len(),
{
    if pairs.len() == 0 {
        None
    } else if pairs[0].0 == key {
        Some(pairs[0].1)
    } else {
        first_value(pairs.skip(1), key)
    }
}

/// One pair as it stands in a header: name, equals sign, value.
pub open spec fn pair_text(pair: (Seq<char>, Seq<char>)) -> Seq<char> {
    pair.0 + "="@ + pair.1
}

/// The pairs as they stand in a header: one after the other, with a
/// semicolon and a space between two of them.
pub open spec fn header_text(pairs: Seq<(Seq<char>, Seq<char>)>) -> Seq<char>
    decreases pairs.len(),
{
    if pairs.len() == 0 {
        Seq::empty()
    } else if pairs.len() == 1 {
        pair_text(pairs[0])
    } else {
        header_text(pairs.drop_last()) + "; "@ + pair_text(pairs.last())
    }
}

/// The pair that a member of a JSON object gives: its name and its text,
/// if its value is a text.
pub open spec fn json_pair(member: (Seq<char>, JsonView)) -> Option<(Seq<char>, Seq<char>)> {
    match member.1 {
        JsonView::Str(s) => Some((member.0, s)),
        _ => None,
    }
}

pub open spec fn json_pairs(members: Seq<(Seq<char>, JsonView)>) -> Seq<(Seq<char>, Seq<char>)>
    decreases members.len(),
{
    if members.len() == 0 {
        Seq::empty()
    } else {
        match json_pair(members.last()) {
            Some(p) => json_pairs(members.drop_last()).push(p),
            None => json_pairs(members.drop_last()),
        }
    }
}

/// The pair that one part of a header gives: what stands before and after
/// its first equals sign, each without the white space around it; none of a
/// part without an equals sign.
pub open spec fn header_pair(part: Seq<char>) -> Option<(Seq<char>, Seq<char>)> {
    let halves = split_first(trimmed(part), '=');
    if halves.len() == 2 {
        Some((trimmed(halves[0]), trimmed(halves[1])))
    } else {
        None
    }
}

pub open spec fn header_pairs(parts: Seq<Seq<char>>) -> Seq<(Seq<char>, Seq<char>)>
    decreases parts.len(),
{
    if parts.len() == 0 {
        Seq::empty()
    } else {
        match header_pair(parts.last()) {
            Some(p) => header_pairs(parts.drop_last()).push(p),
            None => header_pairs(parts.drop_last()),
        }
    }
}

/// The pair that one line of a cookie file gives: its sixth and seventh
/// column, the columns parted by tabs; none of a comment, of an empty line,
/// or of a line with fewer columns.
pub open spec fn file_pair(line: Seq<char>) -> Option<(Seq<char>, Seq<char>)> {
    let columns = split_all(line, '\t');
    if "#"@.is_prefix_of(trimmed(line)) || trimmed(line).len() == 0 {
        None
    } else if columns.len() >= 7 {
        Some((columns[5], columns[6]))
    } else {
        None
    }
}

pub open spec fn file_pairs(lines: Seq<Seq<char>>) -> Seq<(Seq<char>, Seq<char>)>
    decreases lines.len(),
{
    if lines.len() == 0 {
        Seq::empty()
    } else {
        match file_pair(lines.last()) {
            Some(p) => file_pairs(lines.drop_last()).push(p),
            None => file_pairs(lines.drop_last()),
        }
    }
}

/// The pairs that a cookie text holds. A JSON document gives the text
/// members of its object, and nothing if it is no object; a text with an
/// equals sign and a semicolon is read as a header; anything else as a
/// cookie file.
pub open spec fn cookie_pairs(input: Seq<char>) -> Seq<(Seq<char>, Seq<char>)> {
    match parsed(input) {
        Some(JsonView::Object(members)) => json_pairs(members),
        Some(_) => Seq::empty(),
        None => if occurs_in(input, "="@) && occurs_in(input, ";"@) {
            header_pairs(split_all(input, ';'))
        } else {
            file_pairs(lines_of(input))
        },
    }
}

/// The cookies of a signed-in session.
#[derive(Debug)]
pub struct AuthCookie {
    /// Every pair that was read, in order.
    pub raw: Vec<(String, String)>,
    /// The token against request forgery.
    pub ct0: Option<String>,
    /// The user's number.
    pub twid: Option<String>,
    /// The session's token.
    pub auth_token: Option<String>,
    /// The token of the known device.
    pub kdt: Option<String>,
}

/// The cookies of a session as a mathematical value.
pub struct AuthCookieView {
    pub raw: Seq<(Seq<char>, Seq<char>)>,
    pub ct0: Option<Seq<char>>,
    pub twid: Option<Seq<char>>,
    pub auth_token: Option<Seq<char>>,
    pub kdt: Option<Seq<char>>,
}

impl DeepView for AuthCookie {
    type V = AuthCookieView;

    open spec fn deep_view(&self) -> AuthCookieView {
        AuthCookieView {
            raw: self.raw.deep_view(),
            ct0: self.ct0.deep_view(),
            twid: self.twid.deep_view(),
            auth_token: self.auth_token.deep_view(),
            kdt: self.kdt.deep_view(),
        }
    }
}

/// The cookies that a cookie text holds: all its pairs, and of the four
/// that a request needs the first of each name.
pub open spec fn cookie_of(input: Seq<char>) -> AuthCookieView {
    AuthCookieView {
        raw: cookie_pairs(input),
        ct0: first_value(cookie_pairs(input), "ct0"@),
        twid: first_value(cookie_pairs(input), "twid"@),
        auth_token: first_value(cookie_pairs(input), "auth_token"@),
        kdt: first_value(cookie_pairs(input), "kdt"@),
    }
}

fn find_value(pairs: &Vec<(String, String)>, key: &str) -> (r: Option<String>)
    ensures
        r.deep_view() == first_value(pairs.deep_view(), key@),
{
    let mut i: usize = 0;
    assert(pairs.deep_view().skip(0) =~= pairs.deep_view());
    while i < pairs.len()
        invariant
            i <= pairs.len(),
            first_value(pairs.deep_view(), key@) == first_value(pairs.deep_view().skip(i as int), key@),
        decreases pairs.len() - i,
    {
        let ghost rest = pairs.deep_view().skip(i as int);
        assert(rest[0] == (pairs@[i as int].0@, pairs@[i as int].1@));
        assert(rest.skip(1) =~= pairs.deep_view().skip(i as int + 1));
        if same_text(pairs[i].0.as_str(), key) {
            return Some(pairs[i].1.clone());
        }
        i += 1;
    }
    None
}

/// The pairs as they stand in a header.
pub fn join_pairs(pairs: &Vec<(String, String)>) -> (r: String)
    ensures
        r@ == header_text(pairs.deep_view()),
{
    let ghost all = pairs.deep_view();
    let mut out = String::new();
    let mut i: usize = 0;
    assert(all.subrange(0, 0) =~= Seq::empty());
    while i < pairs.len()
        invariant
            i <= pairs.len(),
            all == pairs.deep_view(),
            out@ == header_text(all.subrange(0, i as int)),
        decreases pairs.len() - i,
    {
        let ghost before = all.subrange(0, i as int);
        let ghost after = all.subrange(0, i as int + 1);
        assert(after.drop_last() =~= before);
        assert(after.last() == (pairs@[i as int].0@, pairs@[i as int].1@));
        if i > 0 {
            out.append("; ");
        } else {
            assert(after.len() == 1);
            assert(out@ =~= Seq::empty());
        }
        out.append(pairs[i].0.as_str());
        out.append("=");
        out.append(pairs[i].1.as_str());
        assert(out@ =~= header_text(after)) by {
            if i > 0 {
                assert(header_text(after) == header_text(before) + "; "@ + pair_text(after.last()));
                assert(out@ =~= header_text(before) + "; "@ + pairs@[i as int].0@ + "="@
                    + pairs@[i as int].1@);
            } else {
                assert(header_text(after) == pair_text(after[0]));
                assert(out@ =~= pairs@[i as int].0@ + "="@ + pairs@[i as int].1@);
            }
        }
        i += 1;
    }
    assert(all.subrange(0, all.len() as int) =~= all);
    out
}

fn pairs_of_members(members: &Vec<(String, Json)>) -> (raw: Vec<(String, String)>)
    ensures
        raw.deep_view() == json_pairs(member_views(members@)),
{
    let ghost views = member_views(members@);
    let mut raw: Vec<(String, String)> = Vec::new();
    let mut i: usize = 0;
    assert(views.subrange(0, 0) =~= Seq::empty());
    assert(raw.deep_view() =~= Seq::empty());
    while i < members.len()
        invariant
            i <= members.len(),
            views == member_views(members@),
            raw.deep_view() == json_pairs(views.subrange(0, i as int)),
        decreases members.len() - i,
    {
        let ghost before = raw.deep_view();
        let ghost upto = views.subrange(0, i as int + 1);
        assert(upto.drop_last() =~= views.subrange(0, i as int));
        assert(upto.last() == (members@[i as int].0@, members@[i as int].1@));
        assert(members@[i as int].1@ == json_view(members@[i as int].1));
        match members[i].1.as_str() {
            Some(text) => {
                raw.push((members[i].0.clone(), String::from_str(text)));
                assert(raw.deep_view() =~= before.push((members@[i as int].0@, text@)));
            },
            None => {},
        }
        i += 1;
    }
    assert(views.subrange(0, views.len() as int) =~= views);
    raw
}

fn pairs_of_header(parts: &Vec<String>) -> (raw: Vec<(String, String)>)
    ensures
        raw.deep_view() == header_pairs(parts.deep_view()),
{
    let ghost all = parts.deep_view();
    let mut raw: Vec<(String, String)> = Vec::new();
    let mut i: usize = 0;
    assert(all.subrange(0, 0) =~= Seq::empty());
    assert(raw.deep_view() =~= Seq::empty());
    while i < parts.len()
        invariant
            i <= parts.len(),
            all == parts.deep_view(),
            raw.deep_view() == header_pairs(all.subrange(0, i as int)),
        decreases parts.len() - i,
    {
        let ghost before = raw.deep_view();
        let ghost upto = all.subrange(0, i as int + 1);
        assert(upto.drop_last() =~= all.subrange(0, i as int));
        assert(upto.last() == parts@[i as int]@);
        let part = trim(parts[i].as_str());
        let halves = split_in_two(part.as_str(), '=');
        if halves.len() == 2 {
            let name = trim(halves[0].as_str());
            let value = trim(halves[1].as_str());
            assert(halves.deep_view()[0] == halves@[0]@);
            assert(halves.deep_view()[1] == halves@[1]@);
            raw.push((name, value));
            assert(raw.deep_view() =~= before.push((name@, value@)));
        }
        i += 1;
    }
    assert(all.subrange(0, all.len() as int) =~= all);
    raw
}

fn pairs_of_file(file: &Vec<String>) -> (raw: Vec<(String, String)>)
    ensures
        raw.deep_view() == file_pairs(file.deep_view()),
{
    let ghost all = file.deep_view();
    let mut raw: Vec<(String, String)> = Vec::new();
    let mut i: usize = 0;
    assert(all.subrange(0, 0) =~= Seq::empty());
    assert(raw.deep_view() =~= Seq::empty());
    while i < file.len()
        invariant
            i <= file.len(),
            all == file.deep_view(),
            raw.deep_view() == file_pairs(all.subrange(0, i as int)),
        decreases file.len() - i,
    {
        let ghost before = raw.deep_view();
        let ghost upto = all.subrange(0, i as int + 1);
        assert(upto.drop_last() =~= all.subrange(0, i as int));
        assert(upto.last() == file@[i as int]@);
        let line = file[i].as_str();
        let bare = trim(line);
        if !starts_with(bare.as_str(), "#") && bare.as_str().unicode_len() > 0 {
            let columns = split_on(line, '\t');
            if columns.len() >= 7 {
                assert(columns.deep_view()[5] == columns@[5]@);
                assert(columns.deep_view()[6] == columns@[6]@);
                raw.push((columns[5].clone(), columns[6].clone()));
                assert(raw.deep_view() =~= before.push((columns@[5]@, columns@[6]@)));
            }
        }
        i += 1;
    }
    assert(all.subrange(0, all.len() as int) =~= all);
    raw
}

impl AuthCookie {
    /// The session cookies that a text holds, whatever of the three forms
    /// it has: a JSON object, a header, or a cookie file.
    pub fn parse(input: &str) -> (c: AuthCookie)
        ensures
            c.deep_view() == cookie_of(input@),
    {
        let raw = match Json::parse(input) {
            Some(Json::Object(members)) => {
                proof {
                    lemma_object_view(members);
                }
                pairs_of_members(&members)
            },
            Some(other) => {
                assert(!(json_view(other) is Object));
                let empty: Vec<(String, String)> = Vec::new();
                assert(empty.deep_view() =~= Seq::empty());
                empty
            },
            None => {
                if contains(input, "=") && contains(input, ";") {
                    pairs_of_header(&split_on(input, ';'))
                } else {
                    pairs_of_file(&lines(input))
                }
            },
        };
        AuthCookie {
            ct0: find_value(&raw, "ct0"),
            twid: find_value(&raw, "twid"),
            auth_token: find_value(&raw, "auth_token"),
            kdt: find_value(&raw, "kdt"),
            raw,
        }
    }

    /// Every pair that was read, as a header.
    pub fn to_string(&self) -> (r: String)
        ensures
            r@ == header_text(self.raw.deep_view()),
    {
        join_pairs(&self.raw)
    }

    /// Whether the four cookies that a request needs are all there.
    pub fn is_valid(&self) -> (b: bool)
        ensures
            b == (self.ct0 is Some && self.twid is Some && self.auth_token is Some && self.kdt is Some),
    {
        self.ct0.is_some() && self.twid.is_some() && self.auth_token.is_some() && self.kdt.is_some()
    }

    /// The four cookies that a request needs, as far as they are there, in
    /// the order `ct0`, `twid`, `auth_token`, `kdt`.
    pub open spec fn fields(self) -> Seq<(Seq<char>, Seq<char>)> {
        let a = match self.ct0 {
            Some(v) => seq![("ct0"@, v@)],
            None => Seq::empty(),
        };
        let b = match self.twid {
            Some(v) => a.push(("twid"@, v@)),
            None => a,
        };
        let c = match self.auth_token {
            Some(v) => b.push(("auth_token"@, v@)),
            None => b,
        };
        match self.kdt {
            Some(v) => c.push(("kdt"@, v@)),
            None => c,
        }
    }

    /// The cookies that a request needs, as a header.
    pub fn collect_fields(&self) -> (r: String)
        ensures
            r@ == header_text(self.fields()),
    {
        let mut fields: Vec<(String, String)> = Vec::new();
        assert(fields.deep_view() =~= Seq::empty());
        match &self.ct0 {
            Some(v) => {
                fields.push((String::from_str("ct0"), v.clone()));
                assert(fields.deep_view() =~= seq![("ct0"@, v@)]);
            },
            None => {},
        }
        let ghost a = fields.deep_view();
        match &self.twid {
            Some(v) => {
                fields.push((String::from_str("twid"), v.clone()));
                assert(fields.deep_view() =~= a.push(("twid"@, v@)));
            },
            None => {},
        }
        let ghost b = fields.deep_view();
        match &self.auth_token {
            Some(v) => {
                fields.push((String::from_str("auth_token"), v.clone()));
                assert(fields.deep_view() =~= b.push(("auth_token"@, v@)));
            },
            None => {},
        }
        let ghost c = fields.deep_view();
        match &self.kdt {
            Some(v) => {
                fields.push((String::from_str("kdt"), v.clone()));
                assert(fields.deep_view() =~= c.push(("kdt"@, v@)));
            },
            None => {},
        }
        join_pairs(&fields)
    }
}

} // verus!

use vstd::prelude::*;
use reqwest::header::HeaderMap;
use crate::authcookie::header_text;
use crate::credentials::AuthCredential;

verus! {

/// The value type of the header map of the `http` crate, as `reqwest` hands
/// it on.
#[verifier::external_type_specification]
#[verifier::external_body]
pub struct ExHeaderValue(reqwest::header::HeaderValue);

/// The header map of the `http` crate, as `reqwest` hands it on.
#[verifier::external_type_specification]
#[verifier::external_body]
#[verifier::reject_recursive_types(T)]
pub struct ExHeaderMap<T>(reqwest::header::HeaderMap<T>);

/// The headers that a map holds: for each name, the text of its value.
pub uninterp spec fn header_values(map: HeaderMap) -> Map<Seq<char>, Seq<char>>;

/// How many entries a map holds.
pub uninterp spec fn header_count(map: HeaderMap) -> nat;

/// A number of entries up to which a header map always takes one more: it
/// refuses to grow only beyond 32768 slots, which so few entries never ask
/// for.
pub const MAX_HEADERS: usize = 1024;

/// The names of the headers that a credential is sent with.
pub open spec fn known_name(name: Seq<char>) -> bool {
    name == "authorization"@ || name == "x-guest-token"@ || name == "x-csrf-token"@ || name
        == "cookie"@
}

/// Whether a text can be the value of a header: it holds no control
/// character but the tab.
pub open spec fn value_ok(value: Seq<char>) -> bool {
    forall|i: int|
        0 <= i < value.len() ==> (#[trigger] value[i]) == '\t' || (value[i] as u32 >= 32 && value[i] as u32
            != 127)
}

/// An empty header map.
///
/// Calls `HeaderMap::new`, which makes a map without entries.
#[verifier::external_body]
fn new_headers() -> (headers: HeaderMap)
    ensures
        header_values(headers) == map_of(Seq::empty()),
        header_count(headers) == 0,
{
    HeaderMap::new()
}

/// Sets the header `name` to `value`, if `value` can be the value of a
/// header; the result says whether it can.
///
/// Calls `HeaderValue::from_str`, which refuses a text with a byte below 32
/// other than the tab, or with the byte 127, and then `HeaderMap::insert`,
/// which puts the value in the place of all earlier values of the name and
/// adds at most one entry. `insert` panics on a name that is no header name
/// and on a map that cannot grow: the names are limited to four that are
/// header names, and the map to so few entries that it can always grow.
#[verifier::external_body]
fn insert_header(headers: &mut HeaderMap, name: &'static str, value: &str) -> (ok: bool)
    requires
        known_name(name@),
        header_count(*old(headers)) < MAX_HEADERS,
    ensures
        ok == value_ok(value@),
        ok ==> header_values(*final(headers)) == header_values(*old(headers)).insert(name@, value@),
        !ok ==> header_values(*final(headers)) == header_values(*old(headers)),
        header_count(*final(headers)) <= header_count(*old(headers)) + 1,
{
    match reqwest::header::HeaderValue::from_str(value) {
        Ok(v) => {
            headers.insert(name, v);
            true
        },
        Err(_) => false,
    }
}

/// The headers of `pairs` as a map; a later pair of a name replaces an
/// earlier one.
pub open spec fn map_of(pairs: Seq<(Seq<char>, Seq<char>)>) -> Map<Seq<char>, Seq<char>>
    decreases pairs.len(),
{
    if pairs.len() == 0 {
        Map::empty()
    } else {
        map_of(pairs.drop_last()).insert(pairs.last().0, pairs.last().1)
    }
}

/// Whether every value of `pairs` can be the value of a header.
pub open spec fn values_ok(pairs: Seq<(Seq<char>, Seq<char>)>) -> bool {
    forall|i: int| 0 <= i < pairs.len() ==> value_ok((#[trigger] pairs[i]).1)
}

impl AuthCredential {
    /// The headers that a request is sent with, as a header map; `None`
    /// where a token or the cookie holds a character that no header can
    /// hold.
    pub fn try_headers(&self) -> (r: Option<HeaderMap>)
        ensures
            match r {
                Some(map) => values_ok(self.header_list()) && header_values(map) == map_of(
                    self.header_list(),
                ),
                None => !values_ok(self.header_list()),
            },
    {
        let pairs = self.header_pairs();
        let ghost list = self.header_list();
        assert(pairs.deep_view().len() == pairs@.len());
        let mut map = new_headers();
        let n = pairs.len();
        assert(n <= 4);
        let mut i: usize = 0;
        assert(list.subrange(0, 0) =~= Seq::empty());
        while i < n
            invariant
                i <= n <= 4,
                n == pairs@.len(),
                list == pairs.deep_view(),
                list == self.header_list(),
                forall|k: int| 0 <= k < list.len() ==> known_name(#[trigger] list[k].0),
                header_count(map) <= i,
                values_ok(list.subrange(0, i as int)),
                header_values(map) == map_of(list.subrange(0, i as int)),
            decreases n - i,
        {
            let ghost upto = list.subrange(0, i as int + 1);
            assert(upto.drop_last() =~= list.subrange(0, i as int));
            assert(upto.last() == list[i as int]);
            assert(list[i as int] == (pairs@[i as int].0@, pairs@[i as int].1@));
            let name = known(pairs[i].0.as_str());
            let ok = insert_header(&mut map, name, pairs[i].1.as_str());
            if !ok {
                assert(!value_ok(list[i as int].1));
                return None;
            }
            assert(values_ok(upto)) by {
                assert forall|k: int| 0 <= k < upto.len() implies value_ok((#[trigger] upto[k]).1) by {
                    if k < i {
                        assert(list.subrange(0, i as int)[k] == upto[k]);
                    }
                }
            }
            i += 1;
        }
        assert(list.subrange(0, list.len() as int) =~= list);
        Some(map)
    }

    /// The headers that a request is sent with, as a header map. The tokens
    /// and the cookie have to be such that a header can hold them.
    pub fn headers(&self) -> (map: HeaderMap)
        requires
            values_ok(self.header_list()),
        ensures
            header_values(map) == map_of(self.header_list()),
    {
        match self.try_headers() {
            Some(map) => map,
            None => new_headers(),
        }
    }
}

/// The name of a header of a credential, as a text that lives as long as
/// the program.
fn known(name: &str) -> (r: &'static str)
    requires
        known_name(name@),
    ensures
        r@ == name@,
{
    if crate::text::same_text(name, "authorization") {
        "authorization"
    } else if crate::text::same_text(name, "x-guest-token") {
        "x-guest-token"
    } else if crate::text::same_text(name, "x-csrf-token") {
        "x-csrf-token"
    } else {
        "cookie"
    }
}

} // verus!

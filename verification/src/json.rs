use vstd::prelude::*;

verus! {

/// A JSON number, as far as the library reads it: a non-negative integer, a
/// negative integer, or a number that is neither.
#[derive(Debug, Clone, Copy, PartialEq, Eq, Structural)]
pub enum JsonNumber {
    Unsigned(u64),
    Negative(i64),
    Real,
}

/// A JSON value. An object holds its members in the order of the document
/// they came from; a lookup finds the first member of a name.
#[derive(Debug)]
pub enum Json {
    Null,
    Bool(bool),
    Number(JsonNumber),
    Str(String),
    Array(Vec<Json>),
    Object(Vec<(String, Json)>),
}

/// A JSON value as a mathematical value.
pub enum JsonView {
    Null,
    Bool(bool),
    Number(JsonNumber),
    Str(Seq<char>),
    Array(Seq<JsonView>),
    Object(Seq<(Seq<char>, JsonView)>),
}

/// The mathematical value of `json`.
pub open spec fn json_view(json: Json) -> JsonView
    decreases json,
{
    match json {
        Json::Null => JsonView::Null,
        Json::Bool(b) => JsonView::Bool(b),
        Json::Number(n) => JsonView::Number(n),
        Json::Str(s) => JsonView::Str(s@),
        Json::Array(items) => JsonView::Array(
            Seq::new(
                items@.len(),
                |i: int|
                    if 0 <= i < items@.len() {
                        json_view(items@[i])
                    } else {
                        JsonView::Null
                    },
            ),
        ),
        Json::Object(members) => JsonView::Object(
            Seq::new(
                members@.len(),
                |i: int|
                    if 0 <= i < members@.len() {
                        (members@[i].0@, json_view(members@[i].1))
                    } else {
                        (Seq::empty(), JsonView::Null)
                    },
            ),
        ),
    }
}

impl View for Json {
    type V = JsonView;

    open spec fn view(&self) -> JsonView {
        json_view(*self)
    }
}

/// The value of the first member named `key` among `members`.
pub open spec fn lookup(members: Seq<(String, Json)>, key: Seq<char>) -> Option<Json>
    decreases members.len(),
{
    if members.len() == 0 {
        None
    } else if members[0].0@ == key {
        Some(members[0].1)
    } else {
        lookup(members.subrange(1, members.len() as int), key)
    }
}

impl Json {
    /// The member `key` of an object; `None` of anything else.
    pub open spec fn field(self, key: Seq<char>) -> Option<Json> {
        match self {
            Json::Object(members) => lookup(members@, key),
            _ => None,
        }
    }

    /// The element `i` of an array; `None` of anything else.
    pub open spec fn element(self, i: int) -> Option<Json> {
        match self {
            Json::Array(items) => if 0 <= i < items@.len() {
                Some(items@[i])
            } else {
                None
            },
            _ => None,
        }
    }

    /// The value reached from `self` through the members `keys`, in order.
    pub open spec fn walk(self, keys: Seq<Seq<char>>) -> Option<Json>
        decreases keys.len(),
    {
        if keys.len() == 0 {
            Some(self)
        } else {
            match self.field(keys[0]) {
                Some(child) => child.walk(keys.subrange(1, keys.len() as int)),
                None => None,
            }
        }
    }

    /// The text of a string value.
    pub open spec fn text(self) -> Option<Seq<char>> {
        match self {
            Json::Str(s) => Some(s@),
            _ => None,
        }
    }

    /// The number a value holds if it is a non-negative integer.
    pub open spec fn unsigned(self) -> Option<u64> {
        match self {
            Json::Number(JsonNumber::Unsigned(n)) => Some(n),
            _ => None,
        }
    }

    /// The number a value holds if it is an integer of 64 bits with sign.
    pub open spec fn signed(self) -> Option<i64> {
        match self {
            Json::Number(JsonNumber::Unsigned(n)) => if n <= i64::MAX as u64 {
                Some(n as i64)
            } else {
                None
            },
            Json::Number(JsonNumber::Negative(n)) => Some(n),
            _ => None,
        }
    }

    /// The truth value of a boolean value.
    pub open spec fn truth(self) -> Option<bool> {
        match self {
            Json::Bool(b) => Some(b),
            _ => None,
        }
    }

    /// The elements of an array.
    pub open spec fn items(self) -> Option<Seq<Json>> {
        match self {
            Json::Array(items) => Some(items@),
            _ => None,
        }
    }

    /// The members of an object.
    pub open spec fn members(self) -> Option<Seq<(String, Json)>> {
        match self {
            Json::Object(members) => Some(members@),
            _ => None,
        }
    }

    pub fn get(&self, key: &str) -> (r: Option<&Json>)
        ensures
            match r {
                Some(j) => self.field(key@) == Some(*j),
                None => self.field(key@) is None,
            },
    {
        match self {
            Json::Object(members) => {
                let mut i: usize = 0;
                assert(members@.subrange(0, members@.len() as int) =~= members@);
                while i < members.len()
                    invariant
                        i <= members.len(),
                        self.field(key@) == lookup(members@, key@),
                        lookup(members@, key@) == lookup(
                            members@.subrange(i as int, members@.len() as int),
                            key@,
                        ),
                    decreases members.len() - i,
                {
                    let ghost rest = members@.subrange(i as int, members@.len() as int);
                    assert(rest[0] == members@[i as int]);
                    assert(rest.subrange(1, rest.len() as int) =~= members@.subrange(
                        i as int + 1,
                        members@.len() as int,
                    ));
                    if crate::text::same_text(members[i].0.as_str(), key) {
                        return Some(&members[i].1);
                    }
                    i += 1;
                }
                None
            },
            _ => None,
        }
    }

    pub fn at(&self, i: usize) -> (r: Option<&Json>)
        ensures
            match r {
                Some(j) => self.element(i as int) == Some(*j),
                None => self.element(i as int) is None,
            },
    {
        match self {
            Json::Array(items) => if i < items.len() {
                Some(&items[i])
            } else {
                None
            },
            _ => None,
        }
    }

    /// Follows the members `keys` from `self`, in order.
    pub fn path(&self, keys: &Vec<&str>) -> (r: Option<&Json>)
        ensures
            match r {
                Some(j) => self.walk(keys@.map_values(|k: &str| k@)) == Some(*j),
                None => self.walk(keys@.map_values(|k: &str| k@)) is None,
            },
    {
        let ghost names = keys@.map_values(|k: &str| k@);
        let mut current: &Json = self;
        let mut i: usize = 0;
        assert(names.subrange(0, names.len() as int) =~= names);
        while i < keys.len()
            invariant
                i <= keys.len(),
                names == keys@.map_values(|k: &str| k@),
                self.walk(names) == current.walk(names.subrange(i as int, names.len() as int)),
            decreases keys.len() - i,
        {
            let ghost rest = names.subrange(i as int, names.len() as int);
            assert(rest[0] == keys@[i as int]@);
            assert(rest.subrange(1, rest.len() as int) =~= names.subrange(
                i as int + 1,
                names.len() as int,
            ));
            match current.get(keys[i]) {
                Some(child) => {
                    current = child;
                },
                None => {
                    return None;
                },
            }
            i += 1;
        }
        Some(current)
    }

    pub fn as_str(&self) -> (r: Option<&str>)
        ensures
            match r {
                Some(s) => self.text() == Some(s@),
                None => self.text() is None,
            },
    {
        match self {
            Json::Str(s) => Some(s.as_str()),
            _ => None,
        }
    }

    pub fn as_u64(&self) -> (r: Option<u64>)
        ensures
            r == self.unsigned(),
    {
        match self {
            Json::Number(JsonNumber::Unsigned(n)) => Some(*n),
            _ => None,
        }
    }

    pub fn as_i64(&self) -> (r: Option<i64>)
        ensures
            r == self.signed(),
    {
        match self {
            Json::Number(JsonNumber::Unsigned(n)) => if *n <= 0x7fff_ffff_ffff_ffffu64 {
                Some(*n as i64)
            } else {
                None
            },
            Json::Number(JsonNumber::Negative(n)) => Some(*n),
            _ => None,
        }
    }

    pub fn as_bool(&self) -> (r: Option<bool>)
        ensures
            r == self.truth(),
    {
        match self {
            Json::Bool(b) => Some(*b),
            _ => None,
        }
    }

    pub fn as_array(&self) -> (r: Option<&Vec<Json>>)
        ensures
            match r {
                Some(items) => self.items() == Some(items@),
                None => self.items() is None,
            },
    {
        match self {
            Json::Array(items) => Some(items),
            _ => None,
        }
    }

    pub fn as_object(&self) -> (r: Option<&Vec<(String, Json)>>)
        ensures
            match r {
                Some(members) => self.members() == Some(members@),
                None => self.members() is None,
            },
    {
        match self {
            Json::Object(members) => Some(members),
            _ => None,
        }
    }

    pub fn is_null(&self) -> (b: bool)
        ensures
            b == (self is Null),
    {
        match self {
            Json::Null => true,
            _ => false,
        }
    }

    pub fn is_object(&self) -> (b: bool)
        ensures
            b == (self is Object),
    {
        match self {
            Json::Object(_) => true,
            _ => false,
        }
    }

    pub fn is_array(&self) -> (b: bool)
        ensures
            b == (self is Array),
    {
        match self {
            Json::Array(_) => true,
            _ => false,
        }
    }
}

/// The members `members` with the member `key` set to `value`: the first
/// member of that name takes the value, or, where there is none, the member
/// is added at the end.
pub open spec fn with_member(members: Seq<(String, Json)>, key: String, value: Json) -> Seq<(String, Json)>
    decreases members.len(),
{
    if members.len() == 0 {
        seq![(key, value)]
    } else if members[0].0@ == key@ {
        seq![(members[0].0, value)] + members.skip(1)
    } else {
        seq![members[0]] + with_member(members.skip(1), key, value)
    }
}

proof fn lemma_with_member_found(members: Seq<(String, Json)>, key: String, value: Json, i: int)
    requires
        0 <= i < members.len(),
        members[i].0@ == key@,
        forall|j: int| 0 <= j < i ==> members[j].0@ != key@,
    ensures
        with_member(members, key, value) == members.update(i, (members[i].0, value)),
    decreases i,
{
    if i == 0 {
        assert(seq![(members[0].0, value)] + members.skip(1) =~= members.update(0, (members[0].0, value)));
    } else {
        let rest = members.skip(1);
        assert forall|j: int| 0 <= j < i - 1 implies rest[j].0@ != key@ by {
            assert(rest[j] == members[j + 1]);
        }
        lemma_with_member_found(rest, key, value, i - 1);
        assert(seq![members[0]] + rest.update(i - 1, (rest[i - 1].0, value)) =~= members.update(
            i,
            (members[i].0, value),
        ));
    }
}

proof fn lemma_with_member_absent(members: Seq<(String, Json)>, key: String, value: Json)
    requires
        forall|j: int| 0 <= j < members.len() ==> members[j].0@ != key@,
    ensures
        with_member(members, key, value) == members.push((key, value)),
    decreases members.len(),
{
    if members.len() == 0 {
        assert(seq![(key, value)] =~= members.push((key, value)));
    } else {
        let rest = members.skip(1);
        assert forall|j: int| 0 <= j < rest.len() implies rest[j].0@ != key@ by {
            assert(rest[j] == members[j + 1]);
        }
        lemma_with_member_absent(rest, key, value);
        assert(seq![members[0]] + rest.push((key, value)) =~= members.push((key, value)));
    }
}

/// The members of an object as mathematical values.
pub open spec fn member_views(members: Seq<(String, Json)>) -> Seq<(Seq<char>, JsonView)> {
    Seq::new(members.len(), |i: int| (members[i].0@, members[i].1@))
}

/// `with_member`, on mathematical values.
pub open spec fn with_member_view(
    members: Seq<(Seq<char>, JsonView)>,
    key: Seq<char>,
    value: JsonView,
) -> Seq<(Seq<char>, JsonView)>
    decreases members.len(),
{
    if members.len() == 0 {
        seq![(key, value)]
    } else if members[0].0 == key {
        seq![(key, value)] + members.skip(1)
    } else {
        seq![members[0]] + with_member_view(members.skip(1), key, value)
    }
}

/// The members `base` with every member of `over` set, in the order of
/// `over`.
pub open spec fn overlay(
    base: Seq<(Seq<char>, JsonView)>,
    over: Seq<(Seq<char>, JsonView)>,
) -> Seq<(Seq<char>, JsonView)>
    decreases over.len(),
{
    if over.len() == 0 {
        base
    } else {
        with_member_view(overlay(base, over.drop_last()), over.last().0, over.last().1)
    }
}

pub proof fn lemma_with_member_view(members: Seq<(String, Json)>, key: String, value: Json)
    ensures
        member_views(with_member(members, key, value)) == with_member_view(
            member_views(members),
            key@,
            value@,
        ),
    decreases members.len(),
{
    let views = member_views(members);
    if members.len() == 0 {
        assert(member_views(seq![(key, value)]) =~= seq![(key@, value@)]);
    } else if members[0].0@ == key@ {
        assert(member_views(seq![(members[0].0, value)] + members.skip(1)) =~= seq![(key@, value@)]
            + views.skip(1));
    } else {
        lemma_with_member_view(members.skip(1), key, value);
        assert(member_views(members.skip(1)) =~= views.skip(1));
        assert(member_views(seq![members[0]] + with_member(members.skip(1), key, value)) =~= seq![
            views[0],
        ] + member_views(with_member(members.skip(1), key, value)));
    }
}

/// The deep view of an object is the views of its members.
pub proof fn lemma_object_view(members: Vec<(String, Json)>)
    ensures
        Json::Object(members)@ == JsonView::Object(member_views(members@)),
{
    assert(Json::Object(members)@->Object_0.len() == members@.len());
    assert(Json::Object(members)@->Object_0 =~= member_views(members@));
}

/// Sets the member `key` of `members` to `value`.
pub fn set_member(members: &mut Vec<(String, Json)>, key: String, value: Json)
    ensures
        final(members)@ == with_member(old(members)@, key, value),
{
    let mut i: usize = 0;
    while i < members.len()
        invariant
            i <= members.len(),
            *members == *old(members),
            forall|j: int| 0 <= j < i ==> members@[j].0@ != key@,
        decreases members.len() - i,
    {
        if crate::text::same_text(members[i].0.as_str(), key.as_str()) {
            proof {
                lemma_with_member_found(members@, key, value, i as int);
            }
            let old_member = members.remove(i);
            members.insert(i, (old_member.0, value));
            assert(members@ =~= old(members)@.update(i as int, (old(members)@[i as int].0, value)));
            return ;
        }
        i += 1;
    }
    proof {
        lemma_with_member_absent(members@, key, value);
    }
    members.push((key, value));
}

impl Json {
    /// A text value.
    pub fn string(text: &str) -> (j: Json)
        ensures
            j is Str,
            j.text() == Some(text@),
            j@ == JsonView::Str(text@),
    {
        Json::Str(String::from_str(text))
    }

    /// A non-negative number.
    pub fn number(n: u64) -> (j: Json)
        ensures
            j == Json::Number(JsonNumber::Unsigned(n)),
    {
        Json::Number(JsonNumber::Unsigned(n))
    }

    /// An object without members.
    pub fn object() -> (j: Json)
        ensures
            j is Object,
            j.members() == Some(Seq::<(String, Json)>::empty()),
    {
        Json::Object(Vec::new())
    }
}

/// The value type of `serde_json`. The library carries such a value only
/// between a parser or printer of that crate and its own `Json`.
#[verifier::external_type_specification]
#[verifier::external_body]
pub struct ExValue(serde_json::Value);

/// The value that a JSON text denotes, as `serde_json` reads it; `None` of
/// a text that it refuses.
pub uninterp spec fn parsed(text: Seq<char>) -> Option<JsonView>;

/// The compact JSON text that `serde_json` prints of a value.
pub uninterp spec fn rendered(value: JsonView) -> Seq<char>;

/// Copies a `serde_json::Value` into a `Json`, variant by variant. A number
/// becomes what `Number::as_u64` gives, else what `Number::as_i64` gives,
/// else `Real`. Nothing is claimed of the result here: it is named only
/// together with the parser, in `parse_document`.
#[verifier::external_body]
fn model_of(value: &serde_json::Value) -> Json {
    match value {
        serde_json::Value::Null => Json::Null,
        serde_json::Value::Bool(b) => Json::Bool(*b),
        serde_json::Value::Number(n) => Json::Number(match (n.as_u64(), n.as_i64()) {
            (Some(u), _) => JsonNumber::Unsigned(u),
            (None, Some(i)) => JsonNumber::Negative(i),
            (None, None) => JsonNumber::Real,
        }),
        serde_json::Value::String(s) => Json::Str(s.clone()),
        serde_json::Value::Array(a) => Json::Array(a.iter().map(model_of).collect()),
        serde_json::Value::Object(o) => Json::Object(o.iter().map(|(k, v)| (k.clone(), model_of(v))).collect()),
    }
}

/// Copies a `Json` into a `serde_json::Value`, variant by variant. `Real`
/// holds no number and becomes `null`. Nothing is claimed of the result
/// here: it is named only together with the printer, in `render_document`.
#[verifier::external_body]
fn value_of(json: &Json) -> serde_json::Value {
    match json {
        Json::Null | Json::Number(JsonNumber::Real) => serde_json::Value::Null,
        Json::Bool(b) => serde_json::Value::Bool(*b),
        Json::Number(JsonNumber::Unsigned(n)) => serde_json::Value::from(*n),
        Json::Number(JsonNumber::Negative(n)) => serde_json::Value::from(*n),
        Json::Str(s) => serde_json::Value::String(s.clone()),
        Json::Array(a) => serde_json::Value::Array(a.iter().map(value_of).collect()),
        Json::Object(m) => serde_json::Value::Object(m.iter().map(|(k, v)| (k.clone(), value_of(v))).collect()),
    }
}

/// Parses a JSON text with `serde_json::from_str`. The result is a function
/// of the text alone; the contract gives it the name `parsed`.
#[verifier::external_body]
fn parse_document(text: &str) -> (r: Option<Json>)
    ensures
        match r {
            Some(j) => parsed(text@) == Some(j@),
            None => parsed(text@) is None,
        },
{
    serde_json::from_str::<serde_json::Value>(text).ok().map(|v| model_of(&v))
}

/// Prints a value with `serde_json::to_string`. The result is a function of
/// the value alone; the contract gives it the name `rendered`.
#[verifier::external_body]
fn render_document(json: &Json) -> (r: String)
    ensures
        r@ == rendered(json@),
{
    serde_json::to_string(&value_of(json)).unwrap_or_default()
}

impl Json {
    /// The member `b` of the member `a`.
    pub open spec fn at2(self, a: Seq<char>, b: Seq<char>) -> Option<Json> {
        match self.field(a) {
            Some(x) => x.field(b),
            None => None,
        }
    }

    pub open spec fn at3(self, a: Seq<char>, b: Seq<char>, c: Seq<char>) -> Option<Json> {
        match self.at2(a, b) {
            Some(x) => x.field(c),
            None => None,
        }
    }

    pub open spec fn at4(self, a: Seq<char>, b: Seq<char>, c: Seq<char>, d: Seq<char>) -> Option<Json> {
        match self.at3(a, b, c) {
            Some(x) => x.field(d),
            None => None,
        }
    }

    pub open spec fn at5(
        self,
        a: Seq<char>,
        b: Seq<char>,
        c: Seq<char>,
        d: Seq<char>,
        e: Seq<char>,
    ) -> Option<Json> {
        match self.at4(a, b, c, d) {
            Some(x) => x.field(e),
            None => None,
        }
    }

    pub fn get2(&self, a: &str, b: &str) -> (r: Option<&Json>)
        ensures
            match r {
                Some(j) => self.at2(a@, b@) == Some(*j),
                None => self.at2(a@, b@) is None,
            },
    {
        match self.get(a) {
            Some(x) => x.get(b),
            None => None,
        }
    }

    pub fn get3(&self, a: &str, b: &str, c: &str) -> (r: Option<&Json>)
        ensures
            match r {
                Some(j) => self.at3(a@, b@, c@) == Some(*j),
                None => self.at3(a@, b@, c@) is None,
            },
    {
        match self.get2(a, b) {
            Some(x) => x.get(c),
            None => None,
        }
    }

    pub fn get4(&self, a: &str, b: &str, c: &str, d: &str) -> (r: Option<&Json>)
        ensures
            match r {
                Some(j) => self.at4(a@, b@, c@, d@) == Some(*j),
                None => self.at4(a@, b@, c@, d@) is None,
            },
    {
        match self.get3(a, b, c) {
            Some(x) => x.get(d),
            None => None,
        }
    }

    pub fn get5(&self, a: &str, b: &str, c: &str, d: &str, e: &str) -> (r: Option<&Json>)
        ensures
            match r {
                Some(j) => self.at5(a@, b@, c@, d@, e@) == Some(*j),
                None => self.at5(a@, b@, c@, d@, e@) is None,
            },
    {
        match self.get4(a, b, c, d) {
            Some(x) => x.get(e),
            None => None,
        }
    }
}

/// The text of a value that may be missing.
pub open spec fn text_of(value: Option<Json>) -> Option<Seq<char>> {
    match value {
        Some(j) => j.text(),
        None => None,
    }
}

/// The non-negative number of a value that may be missing.
pub open spec fn unsigned_of(value: Option<Json>) -> Option<u64> {
    match value {
        Some(j) => j.unsigned(),
        None => None,
    }
}

/// The elements of a value that may be missing.
pub open spec fn items_of(value: Option<Json>) -> Option<Seq<Json>> {
    match value {
        Some(j) => j.items(),
        None => None,
    }
}

pub fn text_in<'a>(value: Option<&'a Json>) -> (r: Option<&'a str>)
    ensures
        match r {
            Some(s) => match value {
                Some(j) => text_of(Some(*j)) == Some(s@),
                None => false,
            },
            None => match value {
                Some(j) => text_of(Some(*j)) is None,
                None => true,
            },
        },
{
    match value {
        Some(j) => j.as_str(),
        None => None,
    }
}

pub fn unsigned_in(value: Option<&Json>) -> (r: Option<u64>)
    ensures
        r == match value {
            Some(j) => unsigned_of(Some(*j)),
            None => None,
        },
{
    match value {
        Some(j) => j.as_u64(),
        None => None,
    }
}

pub fn items_in<'a>(value: Option<&'a Json>) -> (r: Option<&'a Vec<Json>>)
    ensures
        match r {
            Some(items) => match value {
                Some(j) => items_of(Some(*j)) == Some(items@),
                None => false,
            },
            None => match value {
                Some(j) => items_of(Some(*j)) is None,
                None => true,
            },
        },
{
    match value {
        Some(j) => j.as_array(),
        None => None,
    }
}

/// The value of the first member named `key` among `members`.
pub open spec fn lookup_view(members: Seq<(Seq<char>, JsonView)>, key: Seq<char>) -> Option<JsonView>
    decreases members.len(),
{
    if members.len() == 0 {
        None
    } else if members[0].0 == key {
        Some(members[0].1)
    } else {
        lookup_view(members.subrange(1, members.len() as int), key)
    }
}

impl JsonView {
    /// The member `key` of an object; `None` of anything else.
    pub open spec fn field(self, key: Seq<char>) -> Option<JsonView> {
        match self {
            JsonView::Object(members) => lookup_view(members, key),
            _ => None,
        }
    }

    /// The text of a string value.
    pub open spec fn text(self) -> Option<Seq<char>> {
        match self {
            JsonView::Str(s) => Some(s),
            _ => None,
        }
    }

    /// The number a value holds if it is a non-negative integer.
    pub open spec fn unsigned(self) -> Option<u64> {
        match self {
            JsonView::Number(JsonNumber::Unsigned(n)) => Some(n),
            _ => None,
        }
    }
}

proof fn lemma_lookup_view(members: Seq<(String, Json)>, key: Seq<char>)
    ensures
        match lookup(members, key) {
            Some(child) => lookup_view(member_views(members), key) == Some(child@),
            None => lookup_view(member_views(members), key) is None,
        },
    decreases members.len(),
{
    let views = member_views(members);
    if members.len() > 0 && members[0].0@ != key {
        let rest = members.subrange(1, members.len() as int);
        lemma_lookup_view(rest, key);
        assert(member_views(rest) =~= views.subrange(1, views.len() as int));
    }
}

/// Looking up a member and taking the view gives what looking it up in the
/// view gives.
pub proof fn lemma_field_view(json: Json, key: Seq<char>)
    ensures
        match json.field(key) {
            Some(child) => json@.field(key) == Some(child@),
            None => json@.field(key) is None,
        },
        json@.text() == json.text(),
        json@.unsigned() == json.unsigned(),
{
    match json {
        Json::Object(members) => {
            lemma_object_view(members);
            lemma_lookup_view(members@, key);
        },
        _ => {},
    }
}

/// The text of the JSON object that has the members `members`.
pub fn render_members(members: &Vec<(String, Json)>) -> (r: String)
    ensures
        r@ == rendered(JsonView::Object(member_views(members@))),
{
    let mut copy: Vec<(String, Json)> = Vec::new();
    let mut i: usize = 0;
    while i < members.len()
        invariant
            i <= members.len(),
            copy@.len() == i,
            forall|j: int| 0 <= j < i ==> copy@[j].0@ == members@[j].0@ && copy@[j].1@ == members@[j].1@,
        decreases members.len() - i,
    {
        copy.push((members[i].0.clone(), members[i].1.clone()));
        i += 1;
    }
    proof {
        lemma_object_view(copy);
        assert(member_views(copy@) =~= member_views(members@));
    }
    Json::Object(copy).to_text()
}

impl Clone for Json {
    fn clone(&self) -> (r: Self)
        ensures
            r@ == self@,
        decreases self,
    {
        broadcast use vstd::std_specs::vec::axiom_vec_index_decreases;

        match self {
            Json::Null => Json::Null,
            Json::Bool(b) => Json::Bool(*b),
            Json::Number(n) => Json::Number(*n),
            Json::Str(s) => Json::Str(s.clone()),
            Json::Array(items) => {
                let mut copy: Vec<Json> = Vec::new();
                let mut i: usize = 0;
                while i < items.len()
                    invariant
                        i <= items.len(),
                        copy@.len() == i,
                        *self == Json::Array(*items),
                        forall|j: int| 0 <= j < i ==> copy@[j]@ == items@[j]@,
                    decreases items.len() - i,
                {
                    assert(decreases_to!(*self => self->Array_0));
                    assert(decreases_to!(*items => items[i as int]));
                    copy.push(items[i].clone());
                    i += 1;
                }
                assert(json_view(Json::Array(copy))->Array_0 =~= json_view(Json::Array(*items))->Array_0);
                Json::Array(copy)
            },
            Json::Object(members) => {
                let mut copy: Vec<(String, Json)> = Vec::new();
                let mut i: usize = 0;
                while i < members.len()
                    invariant
                        i <= members.len(),
                        copy@.len() == i,
                        *self == Json::Object(*members),
                        forall|j: int|
                            0 <= j < i ==> copy@[j].0@ == members@[j].0@ && copy@[j].1@ == members@[j].1@,
                    decreases members.len() - i,
                {
                    assert(decreases_to!(*self => self->Object_0));
                    assert(decreases_to!(*members => members[i as int]));
                    assert(decreases_to!(members[i as int] => members[i as int].1));
                    copy.push((members[i].0.clone(), members[i].1.clone()));
                    i += 1;
                }
                assert(json_view(Json::Object(copy))->Object_0 =~= json_view(
                    Json::Object(*members),
                )->Object_0);
                Json::Object(copy)
            },
        }
    }
}

impl Json {
    /// Reads a JSON text.
    pub fn parse(text: &str) -> (r: Option<Json>)
        ensures
            match r {
                Some(j) => parsed(text@) == Some(j@),
                None => parsed(text@) is None,
            },
    {
        parse_document(text)
    }

    /// The compact JSON text of the value.
    pub fn to_text(&self) -> (r: String)
        ensures
            r@ == rendered(self@),
    {
        render_document(self)
    }
}

} // verus!

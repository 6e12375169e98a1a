use vstd::prelude::*;
use crate::json::{
    lemma_object_view, lemma_with_member_view, member_views, rendered, set_member, with_member_view,
    Json, JsonView,
};

verus! {

/// A switch of the query interface, known by its name.
pub trait Flag {
    spec fn name(&self) -> Seq<char>;

    fn as_str(&self) -> (r: &'static str)
        ensures
            r@ == self.name(),
    ;
}

/// One switch or many, as a list.
pub trait IntoEnableItems<T>: Sized {
    spec fn items(self) -> Seq<T>;

    fn into_items(self) -> (r: Vec<T>)
        ensures
            r@ == self.items(),
    ;
}

impl<T> IntoEnableItems<T> for T {
    open spec fn items(self) -> Seq<T> {
        seq![self]
    }

    fn into_items(self) -> (r: Vec<T>) {
        let mut r: Vec<T> = Vec::new();
        r.push(self);
        assert(r@ =~= seq![self]);
        r
    }
}

impl<T> IntoEnableItems<T> for Vec<T> {
    open spec fn items(self) -> Seq<T> {
        self@
    }

    fn into_items(self) -> (r: Vec<T>) {
        self
    }
}

/// The members `members` with every switch of `flags` set to `value`, in
/// the order of `flags`.
pub open spec fn switched<T: Flag>(
    members: Seq<(Seq<char>, JsonView)>,
    flags: Seq<T>,
    value: bool,
) -> Seq<(Seq<char>, JsonView)>
    decreases flags.len(),
{
    if flags.len() == 0 {
        members
    } else {
        with_member_view(
            switched(members, flags.drop_last(), value),
            flags.last().name(),
            JsonView::Bool(value),
        )
    }
}

/// What collects the parameters of a query.
pub trait Builder<T: Flag>: Sized {
    /// The parameters collected so far.
    spec fn collected(&self) -> Seq<(Seq<char>, JsonView)>;

    /// Sets the parameter `key` to `value`.
    fn set(&mut self, key: &str, value: Json)
        ensures
            final(self).collected() == with_member_view(old(self).collected(), key@, value@),
    ;

    /// Switches on every switch of `items`.
    fn enable<U: IntoEnableItems<T>>(&mut self, items: U)
        ensures
            final(self).collected() == switched(old(self).collected(), items.items(), true),
    ;

    /// Switches off every switch of `items`.
    fn disable<U: IntoEnableItems<T>>(&mut self, items: U)
        ensures
            final(self).collected() == switched(old(self).collected(), items.items(), false),
    ;

    /// The parameters as the text of one JSON object.
    fn build(&self) -> (r: String)
        ensures
            r@ == rendered(JsonView::Object(self.collected())),
    ;
}

/// Collects the parameters of a query: named values, where a later value
/// of a name replaces an earlier one.
pub struct ParamBuilder<T: Flag> {
    map: Vec<(String, Json)>,
    _phantom: core::marker::PhantomData<T>,
}

impl<T: Flag> View for ParamBuilder<T> {
    type V = Seq<(Seq<char>, JsonView)>;

    closed spec fn view(&self) -> Seq<(Seq<char>, JsonView)> {
        member_views(self.map@)
    }
}

impl<T: Flag> ParamBuilder<T> {
    pub fn new() -> (b: Self)
        ensures
            b@ == Seq::<(Seq<char>, JsonView)>::empty(),
    {
        let map: Vec<(String, Json)> = Vec::new();
        assert(member_views(map@) =~= Seq::empty());
        ParamBuilder { map, _phantom: core::marker::PhantomData }
    }

    fn put(&mut self, key: &str, value: Json)
        ensures
            final(self)@ == with_member_view(old(self)@, key@, value@),
    {
        let key = String::from_str(key);
        proof {
            lemma_with_member_view(self.map@, key, value);
        }
        set_member(&mut self.map, key, value);
    }

    fn switch(&mut self, flags: Vec<T>, value: bool)
        ensures
            final(self)@ == switched(old(self)@, flags@, value),
    {
        let mut i: usize = 0;
        assert(flags@.subrange(0, 0) =~= Seq::empty());
        while i < flags.len()
            invariant
                i <= flags.len(),
                self@ == switched(old(self)@, flags@.subrange(0, i as int), value),
            decreases flags.len() - i,
        {
            assert(flags@.subrange(0, i as int + 1).drop_last() =~= flags@.subrange(0, i as int));
            assert(flags@.subrange(0, i as int + 1).last() == flags@[i as int]);
            assert(crate::json::json_view(Json::Bool(value)) == JsonView::Bool(value));
            self.put(flags[i].as_str(), Json::Bool(value));
            i += 1;
        }
        assert(flags@.subrange(0, flags@.len() as int) =~= flags@);
    }
}

impl<T: Flag> Builder<T> for ParamBuilder<T> {
    open spec fn collected(&self) -> Seq<(Seq<char>, JsonView)> {
        self@
    }

    fn set(&mut self, key: &str, value: Json) {
        self.put(key, value);
    }

    fn enable<U: IntoEnableItems<T>>(&mut self, items: U) {
        self.switch(items.into_items(), true);
    }

    fn disable<U: IntoEnableItems<T>>(&mut self, items: U) {
        self.switch(items.into_items(), false);
    }

    fn build(&self) -> (r: String) {
        crate::json::render_members(&self.map)
    }
}

} // verus!

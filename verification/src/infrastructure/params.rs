//! The parameters of a request: the names in a query string or a form, each
//! with its value as the client wrote it.
use vstd::hash_map::StringHashMap;
use vstd::prelude::*;
use vstd::string::*;

verus! {

pub struct QueryParams {
    entries: StringHashMap<String>,
}

impl View for QueryParams {
    type V = Map<Seq<char>, Seq<char>>;

    closed spec fn view(&self) -> Map<Seq<char>, Seq<char>> {
        Map::new(|k: Seq<char>| self.entries@.contains_key(k), |k: Seq<char>| self.entries@[k]@)
    }
}

impl QueryParams {
    pub fn new() -> (r: Self)
        ensures
            r@ == Map::<Seq<char>, Seq<char>>::empty(),
    {
        QueryParams { entries: StringHashMap::new() }
    }

    /// Sets the value of `name`. A value that `name` had before is replaced.
    pub fn insert(&mut self, name: String, value: String)
        ensures
            final(self)@ == old(self)@.insert(name@, value@),
    {
        self.entries.insert(name, value);
    }

    pub fn contains_key(&self, name: &str) -> (r: bool)
        ensures
            r == self@.contains_key(name@),
    {
        self.entries.contains_key(name)
    }

    pub fn get(&self, name: &str) -> (r: Option<&String>)
        ensures
            r is Some <==> self@.contains_key(name@),
            r matches Some(value) ==> value@ == self@[name@],
    {
        self.entries.get(name)
    }

    /// Whether the request has no parameter at all.
    pub fn is_empty(&self) -> (r: bool)
        ensures
            r <==> self@ == Map::<Seq<char>, Seq<char>>::empty(),
    {
        let r = self.entries.is_empty();
        proof {
            if r {
                assert(self@ =~= Map::<Seq<char>, Seq<char>>::empty());
            } else {
                let k = choose|k: Seq<char>| self.entries@.contains_key(k);
                assert(self@.contains_key(k));
            }
        }
        r
    }
}

} // verus!

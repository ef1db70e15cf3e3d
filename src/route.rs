//! Route keys, route descriptors, and the route table a listener serves.
use vstd::prelude::*;
use serde_json::Value;
use crate::assoc::{assoc_view, unique_keys, lemma_lookup, lemma_absent, lemma_push, lemma_update};
use crate::method::HttpMethod;

verus! {

/// serde_json's `Value`, carried opaquely as a route's response payload.
#[verifier::external_type_specification]
#[verifier::external_body]
pub struct ExValue(serde_json::Value);

/// Relies on serde_json's derived `Clone` for `Value`: the copy is the same value.
pub assume_specification[ <serde_json::Value as Clone>::clone ](v: &serde_json::Value) -> (r:
    serde_json::Value)
    ensures
        r == *v,
;

/// A route key as a plain value: the method and the path's characters.
pub type RouteKey = (HttpMethod, Seq<char>);

/// The ordered pair (method, path) that identifies a route.
pub struct RequestIdentifier {
    pub path: String,
    pub method: HttpMethod,
}

impl View for RequestIdentifier {
    type V = RouteKey;

    open spec fn view(&self) -> RouteKey {
        (self.method, self.path@)
    }
}

impl RequestIdentifier {
    pub fn new(path: String, method: HttpMethod) -> (r: Self)
        ensures
            r.path == path,
            r.method == method,
    {
        Self { path, method }
    }
}

/// One declared route: its method, its path and the payload it answers with.
pub struct Registration {
    pub method: HttpMethod,
    pub path: String,
    pub response: Value,
}

impl View for Registration {
    type V = (RouteKey, Value);

    open spec fn view(&self) -> (RouteKey, Value) {
        ((self.method, self.path@), self.response)
    }
}

/// The pairs that a sequence of descriptors lists.
pub open spec fn registration_pairs(rs: Seq<Registration>) -> Seq<(RouteKey, Value)> {
    rs.map_values(|r: Registration| r@)
}

/// `rs` lists every route of `table` exactly once, with its payload, and nothing else.
pub open spec fn describes(rs: Seq<Registration>, table: Map<RouteKey, Value>) -> bool {
    &&& unique_keys(registration_pairs(rs))
    &&& assoc_view(registration_pairs(rs)) == table
}

impl Registration {
    pub fn new(method: HttpMethod, path: String, response: Value) -> (r: Self)
        ensures
            r.method == method,
            r.path == path,
            r.response == response,
    {
        Self { method, path, response }
    }

    /// A copy of this descriptor.
    pub fn duplicate(&self) -> (r: Self)
        ensures
            r@ == self@,
    {
        Self { method: self.method, path: self.path.clone(), response: self.response.clone() }
    }
}

/// A route table: each (method, path) key maps to one payload.
pub struct RouteTable {
    entries: Vec<Registration>,
}

impl View for RouteTable {
    type V = Map<RouteKey, Value>;

    closed spec fn view(&self) -> Map<RouteKey, Value> {
        assoc_view(registration_pairs(self.entries@))
    }
}

impl RouteTable {
    #[verifier::type_invariant]
    closed spec fn keys_unique(self) -> bool {
        unique_keys(registration_pairs(self.entries@))
    }

    /// An empty table.
    pub fn new() -> (t: Self)
        ensures
            t@ == Map::<RouteKey, Value>::empty(),
    {
        let t = RouteTable { entries: Vec::new() };
        assert(registration_pairs(t.entries@) =~= Seq::<(RouteKey, Value)>::empty());
        assert(assoc_view(registration_pairs(t.entries@)) =~= Map::<RouteKey, Value>::empty());
        t
    }

    /// The number of routes.
    pub fn len(&self) -> (n: usize)
        ensures
            n == self@.len(),
    {
        proof {
            use_type_invariant(self);
            self.lemma_len();
        }
        self.entries.len()
    }

    proof fn lemma_len(&self)
        requires
            self.keys_unique(),
        ensures
            self@.len() == self.entries@.len(),
    {
        let s = registration_pairs(self.entries@);
        let m = self@;
        assert forall|i: int| 0 <= i < s.len() implies m.dom().contains(#[trigger] s[i].0) by {
            lemma_lookup(s, i);
        }
        let keys = Seq::new(s.len(), |i: int| s[i].0);
        assert(keys.no_duplicates());
        assert(keys.to_set() =~= m.dom()) by {
            assert forall|k: RouteKey| m.dom().contains(k) implies keys.to_set().contains(k) by {
                let j = crate::assoc::key_index(s, k);
                assert(keys[j] == k);
            }
            assert forall|k: RouteKey| keys.to_set().contains(k) implies m.dom().contains(k) by {
                let j = choose|j: int| 0 <= j < keys.len() && keys[j] == k;
                assert(s[j].0 == k);
            }
        }
        keys.unique_seq_to_set();
    }

    /// The position of the entry keyed `(method, path)`, if there is one.
    fn position(&self, method: HttpMethod, path: &String) -> (r: Option<usize>)
        ensures
            match r {
                Some(i) => i < self.entries@.len() && self.entries@[i as int].method == method
                    && self.entries@[i as int].path@ == path@,
                None => forall|i: int|
                    0 <= i < self.entries@.len() ==> (#[trigger] self.entries@[i]).method != method
                        || self.entries@[i].path@ != path@,
            },
    {
        let mut i: usize = 0;
        while i < self.entries.len()
            invariant
                i <= self.entries@.len(),
                forall|j: int|
                    0 <= j < i ==> (#[trigger] self.entries@[j]).method != method
                        || self.entries@[j].path@ != path@,
            decreases self.entries@.len() - i,
        {
            let e = &self.entries[i];
            if e.method == method && e.path == *path {
                return Some(i);
            }
            i = i + 1;
        }
        None
    }

    /// The payload served at `key`, if any.
    pub fn get(&self, key: &RequestIdentifier) -> (r: Option<&Value>)
        ensures
            match r {
                Some(v) => self@.contains_key(key@) && self@[key@] == *v,
                None => !self@.contains_key(key@),
            },
    {
        proof {
            use_type_invariant(self);
        }
        let ghost s = registration_pairs(self.entries@);
        match self.position(key.method, &key.path) {
            Some(i) => {
                proof {
                    assert(s[i as int] == self.entries@[i as int]@);
                    lemma_lookup(s, i as int);
                }
                Some(&self.entries[i].response)
            },
            None => {
                proof {
                    assert forall|j: int| 0 <= j < s.len() implies (#[trigger] s[j]).0 != key@ by {
                        assert(s[j] == self.entries@[j]@);
                    }
                    lemma_absent(s, key@);
                }
                None
            },
        }
    }

    /// This table with `response` inserted at `key`, overwriting the payload held there.
    pub fn with_route(self, key: RequestIdentifier, response: Value) -> (t: Self)
        ensures
            t@ == self@.insert(key@, response),
    {
        proof {
            use_type_invariant(&self);
        }
        let ghost s = registration_pairs(self.entries@);
        let ghost k = key@;
        let pos = self.position(key.method, &key.path);
        let RouteTable { mut entries } = self;
        let RequestIdentifier { path, method } = key;
        let entry = Registration { method, path, response };
        match pos {
            Some(i) => {
                entries.set(i, entry);
                proof {
                    assert(s[i as int].0 == k);
                    lemma_update(s, i as int, response);
                    assert(registration_pairs(entries@) =~= s.update(i as int, (k, response)));
                }
            },
            None => {
                proof {
                    assert forall|j: int| 0 <= j < s.len() implies (#[trigger] s[j]).0 != k by {
                        assert(s[j] == self.entries@[j]@);
                    }
                    lemma_absent(s, k);
                    lemma_push(s, k, response);
                }
                entries.push(entry);
                proof {
                    assert(registration_pairs(entries@) =~= s.push((k, response)));
                }
            },
        }
        RouteTable { entries }
    }

    /// Every route of the table, each once, as descriptors.
    pub fn registrations(&self) -> (r: Vec<Registration>)
        ensures
            describes(r@, self@),
    {
        proof {
            use_type_invariant(self);
        }
        let mut r: Vec<Registration> = Vec::new();
        let mut i: usize = 0;
        while i < self.entries.len()
            invariant
                i <= self.entries@.len(),
                r@.len() == i,
                forall|j: int| 0 <= j < i ==> (#[trigger] r@[j])@ == self.entries@[j]@,
            decreases self.entries@.len() - i,
        {
            r.push(self.entries[i].duplicate());
            i = i + 1;
        }
        assert(registration_pairs(r@) =~= registration_pairs(self.entries@));
        r
    }
}

} // verus!

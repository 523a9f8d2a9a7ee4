//! The request record the router dispatches on: a URI path together with a
//! parameter container that pattern matching fills before a handler runs.

use vstd::prelude::*;

verus! {

/// The bindings of an ordered association list read as a map: each key is
/// bound to the value of its newest entry.
pub open spec fn assoc_map(entries: Seq<(Seq<char>, Seq<char>)>) -> Map<Seq<char>, Seq<char>>
    decreases entries.len(),
{
    if entries.len() == 0 {
        Map::empty()
    } else {
        assoc_map(entries.drop_last()).insert(entries.last().0, entries.last().1)
    }
}

/// The newest value bound to `key`, scanning the entries from the newest end.
pub open spec fn assoc_lookup(entries: Seq<(Seq<char>, Seq<char>)>, key: Seq<char>) -> Option<
    Seq<char>,
>
    decreases entries.len(),
{
    if entries.len() == 0 {
        None
    } else if entries.last().0 == key {
        Some(entries.last().1)
    } else {
        assoc_lookup(entries.drop_last(), key)
    }
}

/// Looking a key up among the entries agrees with the map the entries denote.
pub proof fn lemma_assoc_lookup(entries: Seq<(Seq<char>, Seq<char>)>, key: Seq<char>)
    ensures
        match assoc_lookup(entries, key) {
            Some(v) => assoc_map(entries).contains_key(key) && assoc_map(entries)[key] == v,
            None => !assoc_map(entries).contains_key(key),
        },
    decreases entries.len(),
{
    if entries.len() > 0 {
        lemma_assoc_lookup(entries.drop_last(), key);
    }
}

/// A parameter container: string keys bound to string values, insertion by key
/// with a duplicate key overwriting the older binding. It is stored as an
/// ordered association list whose lookup takes the newest binding, so the view
/// of the container is a map while the order of insertions stays observable.
pub struct Params {
    pairs: Vec<(String, String)>,
}

impl View for Params {
    type V = Map<Seq<char>, Seq<char>>;

    open spec fn view(&self) -> Map<Seq<char>, Seq<char>> {
        assoc_map(self.entries())
    }
}

impl Params {
    /// The insertions made so far, oldest first.
    pub closed spec fn entries(&self) -> Seq<(Seq<char>, Seq<char>)> {
        self.pairs@.map_values(|p: (String, String)| (p.0@, p.1@))
    }

    /// An empty container.
    pub fn new() -> (r: Params)
        ensures
            r.entries() == Seq::<(Seq<char>, Seq<char>)>::empty(),
    {
        let r = Params { pairs: Vec::new() };
        proof {
            assert(r.entries() =~= Seq::<(Seq<char>, Seq<char>)>::empty());
        }
        r
    }

    /// Binds `key` to `value`; an older binding of the same key is no longer
    /// visible in the map view.
    pub fn insert(&mut self, key: String, value: String)
        ensures
            final(self).entries() == old(self).entries().push((key@, value@)),
            final(self)@ == old(self)@.insert(key@, value@),
    {
        let ghost kv = (key@, value@);
        self.pairs.push((key, value));
        proof {
            assert(self.entries() =~= old(self).entries().push(kv));
            assert(self.entries().drop_last() =~= old(self).entries());
        }
    }

    /// The newest value bound to `key`, or `None` when the key was never
    /// inserted.
    pub fn get(&self, key: &String) -> (r: Option<&String>)
        ensures
            match r {
                Some(v) => self@.contains_key(key@) && v@ == self@[key@],
                None => !self@.contains_key(key@),
            },
    {
        proof {
            lemma_assoc_lookup(self.entries(), key@);
            assert(self.entries().take(self.pairs.len() as int) =~= self.entries());
        }
        let mut i: usize = self.pairs.len();
        while i > 0
            invariant
                i <= self.pairs.len(),
                assoc_lookup(self.entries(), key@) == assoc_lookup(
                    self.entries().take(i as int),
                    key@,
                ),
            decreases i,
        {
            let j = i - 1;
            if self.pairs[j].0 == *key {
                proof {
                    assert(self.entries()[j as int] == (self.pairs@[j as int].0@, self.pairs@[
                        j as int
                    ].1@));
                    assert(self.entries().take(i as int).last() == self.entries()[j as int]);
                    assert(assoc_lookup(self.entries(), key@) == Some(
                        self.entries()[j as int].1,
                    ));
                    lemma_assoc_lookup(self.entries(), key@);
                }
                return Some(&self.pairs[j].1);
            }
            proof {
                assert(self.entries().take(i as int).drop_last() =~= self.entries().take(j as int));
                assert(self.entries().take(i as int).last() == self.entries()[j as int]);
            }
            i = j;
        }
        proof {
            assert(self.entries().take(0) =~= Seq::<(Seq<char>, Seq<char>)>::empty());
        }
        None
    }

    /// How many insertions the container has seen.
    pub fn len(&self) -> (n: usize)
        ensures
            n == self.entries().len(),
    {
        self.pairs.len()
    }
}

/// A request: a readable URI path and the parameter container the router
/// fills from the matched pattern before the handler runs.
pub struct Request {
    pub path: String,
    pub params: Params,
}

impl Request {
    /// A request for `path` with no parameters bound yet.
    pub fn new(path: String) -> (r: Request)
        ensures
            r.path == path,
            r.params.entries() == Seq::<(Seq<char>, Seq<char>)>::empty(),
    {
        Request { path, params: Params::new() }
    }
}

} // verus!

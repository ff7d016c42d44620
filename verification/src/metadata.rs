//! User-defined name-value pairs attached to a container.

use vstd::prelude::*;
use crate::text::text_eq;

verus! {

/// The map that a list of pairs denotes: a later pair replaces an earlier one
/// with the same name.
pub open spec fn pairs_map(pairs: Seq<(String, String)>) -> Map<Seq<char>, Seq<char>>
    decreases pairs.len(),
{
    if pairs.len() == 0 {
        Map::empty()
    } else {
        pairs_map(pairs.drop_last()).insert(pairs.last().0@, pairs.last().1@)
    }
}

/// No name occurs twice among the pairs.
pub open spec fn distinct_names(pairs: Seq<(String, String)>) -> bool {
    forall|i: int, j: int| 0 <= i < j < pairs.len() ==> pairs[i].0@ != pairs[j].0@
}

/// Replacing the value of a name that is present is the same as inserting
/// it into the map.
pub proof fn lemma_replace_is_insert(pairs: Seq<(String, String)>, i: int, pair: (String, String))
    requires
        distinct_names(pairs),
        0 <= i < pairs.len(),
        pairs[i].0@ == pair.0@,
    ensures
        distinct_names(pairs.update(i, pair)),
        pairs_map(pairs.update(i, pair)) == pairs_map(pairs).insert(pair.0@, pair.1@),
    decreases pairs.len(),
{
    let updated = pairs.update(i, pair);
    let last = pairs.len() - 1;
    if i == last {
        assert(updated.drop_last() =~= pairs.drop_last());
        assert(pairs_map(updated) =~= pairs_map(pairs).insert(pair.0@, pair.1@));
    } else {
        assert(updated.drop_last() =~= pairs.drop_last().update(i, pair));
        assert(updated.last() == pairs.last());
        assert(distinct_names(pairs.drop_last()));
        lemma_replace_is_insert(pairs.drop_last(), i, pair);
        assert(pairs[i].0@ != pairs[last].0@);
        assert(pairs_map(updated) =~= pairs_map(pairs).insert(pair.0@, pair.1@));
    }
}

/// A present name maps to the value of its pair, and only present names are
/// in the map.
pub proof fn lemma_pairs_map_lookup(pairs: Seq<(String, String)>, name: Seq<char>)
    requires
        distinct_names(pairs),
    ensures
        pairs_map(pairs).contains_key(name) <==> exists|i: int|
            0 <= i < pairs.len() && #[trigger] pairs[i].0@ == name,
        forall|i: int|
            0 <= i < pairs.len() && #[trigger] pairs[i].0@ == name ==> pairs_map(pairs)[name]
                == pairs[i].1@,
    decreases pairs.len(),
{
    if pairs.len() > 0 {
        let front = pairs.drop_last();
        let last = pairs.len() - 1;
        assert(distinct_names(front));
        lemma_pairs_map_lookup(front, name);
        if pairs[last].0@ == name {
            assert(pairs_map(pairs).contains_key(name));
        } else {
            if pairs_map(front).contains_key(name) {
                let i = choose|i: int| 0 <= i < front.len() && #[trigger] front[i].0@ == name;
                assert(pairs[i].0@ == name);
            }
            if exists|i: int| 0 <= i < pairs.len() && #[trigger] pairs[i].0@ == name {
                let i = choose|i: int| 0 <= i < pairs.len() && #[trigger] pairs[i].0@ == name;
                assert(front[i].0@ == name);
            }
        }
        assert forall|i: int| 0 <= i < pairs.len() && #[trigger] pairs[i].0@ == name implies
            pairs_map(pairs)[name] == pairs[i].1@ by {
            if i < last {
                assert(front[i].0@ == name);
            }
        }
    }
}

/// Name-value pairs in which no name occurs twice.
#[derive(Clone, Debug)]
pub struct Metadata {
    pub pairs: Vec<(String, String)>,
}

impl View for Metadata {
    type V = Map<Seq<char>, Seq<char>>;

    open spec fn view(&self) -> Map<Seq<char>, Seq<char>> {
        pairs_map(self.pairs@)
    }
}

impl Metadata {
    /// The invariant: every name is held once.
    pub open spec fn well_formed(&self) -> bool {
        distinct_names(self.pairs@)
    }

    pub fn new() -> (r: Metadata)
        ensures
            r.well_formed(),
            r@ == Map::<Seq<char>, Seq<char>>::empty(),
            r.pairs@.len() == 0,
    {
        Metadata { pairs: Vec::new() }
    }

    /// Sets the value of `name`; a value that it had before is replaced.
    pub fn insert(&mut self, name: String, value: String)
        requires
            old(self).well_formed(),
        ensures
            final(self).well_formed(),
            final(self)@ == old(self)@.insert(name@, value@),
    {
        let mut i: usize = 0;
        while i < self.pairs.len()
            invariant
                i <= self.pairs.len(),
                self.pairs == old(self).pairs,
                old(self).well_formed(),
                forall|j: int| 0 <= j < i ==> self.pairs@[j].0@ != name@,
            decreases self.pairs.len() - i,
        {
            if text_eq(self.pairs[i].0.as_str(), name.as_str()) {
                proof {
                    lemma_replace_is_insert(self.pairs@, i as int, (name, value));
                }
                self.pairs.set(i, (name, value));
                return ;
            }
            i += 1;
        }
        proof {
            assert(self.pairs@.push((name, value)).drop_last() =~= self.pairs@);
        }
        self.pairs.push((name, value));
    }

    /// The value of `name`, if it has one.
    pub fn get(&self, name: &str) -> (r: Option<&str>)
        requires
            self.well_formed(),
        ensures
            r is Some <==> self@.contains_key(name@),
            r is Some ==> r->0@ == self@[name@],
    {
        proof {
            lemma_pairs_map_lookup(self.pairs@, name@);
        }
        let mut i: usize = 0;
        while i < self.pairs.len()
            invariant
                i <= self.pairs.len(),
                self@.contains_key(name@) <==> exists|k: int|
                    0 <= k < self.pairs@.len() && #[trigger] self.pairs@[k].0@ == name@,
                forall|k: int|
                    0 <= k < self.pairs@.len() && #[trigger] self.pairs@[k].0@ == name@
                        ==> self@[name@] == self.pairs@[k].1@,
                forall|j: int| 0 <= j < i ==> self.pairs@[j].0@ != name@,
            decreases self.pairs.len() - i,
        {
            if text_eq(self.pairs[i].0.as_str(), name) {
                return Some(self.pairs[i].1.as_str());
            }
            i += 1;
        }
        None
    }

    /// How many names have a value.
    pub fn len(&self) -> (r: usize)
        ensures
            r == self.pairs@.len(),
    {
        self.pairs.len()
    }
}

} // verus!

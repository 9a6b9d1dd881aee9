//! The query parameters of a call: a mapping from keys to values that keeps
//! the order in which the keys were first given.

use crate::form::{pairs_view, Pairs};
use vstd::prelude::*;

verus! {

/// No key occurs twice.
pub open spec fn distinct_keys(pairs: Pairs) -> bool {
    forall|i: int, j: int| 0 <= i < j < pairs.len() ==> pairs[i].0 != pairs[j].0
}

/// The place of the first pair with the given key, or the length of the list
/// where no pair has it.
pub open spec fn key_index(pairs: Pairs, key: Seq<char>) -> int
    decreases pairs.len(),
{
    if pairs.len() == 0 {
        0
    } else if pairs[0].0 == key {
        0
    } else {
        1 + key_index(pairs.drop_first(), key)
    }
}

/// The mapping that a list of pairs stands for; of two pairs with one key the
/// later one counts.
pub open spec fn pairs_map(pairs: Pairs) -> Map<Seq<char>, Seq<char>>
    decreases pairs.len(),
{
    if pairs.len() == 0 {
        Map::empty()
    } else {
        pairs_map(pairs.drop_last()).insert(pairs.last().0, pairs.last().1)
    }
}

/// `key_index` finds a pair with the key, the first one, exactly where there is one.
pub proof fn lemma_key_index(pairs: Pairs, key: Seq<char>)
    ensures
        0 <= key_index(pairs, key) <= pairs.len(),
        key_index(pairs, key) < pairs.len() ==> pairs[key_index(pairs, key)].0 == key,
        forall|i: int| 0 <= i < key_index(pairs, key) ==> (#[trigger] pairs[i]).0 != key,
    decreases pairs.len(),
{
    if pairs.len() > 0 && pairs[0].0 != key {
        let rest = pairs.drop_first();
        lemma_key_index(rest, key);
        assert forall|i: int| 0 <= i < key_index(pairs, key) implies (#[trigger] pairs[i]).0
            != key by {
            if i > 0 {
                assert(pairs[i] == rest[i - 1]);
            }
        }
    }
}

/// The query parameters of a call. No key occurs twice; the pairs stand in the
/// order in which their keys were first inserted.
#[derive(Clone, Debug)]
pub struct Query {
    pairs: Vec<(String, String)>,
}

impl View for Query {
    type V = Pairs;

    closed spec fn view(&self) -> Pairs {
        pairs_view(self.pairs@)
    }
}

impl Query {
    /// The invariant of the type: no key occurs twice. `new` establishes it and
    /// `insert` keeps it, and no other function makes or changes a `Query`.
    pub open spec fn wf(&self) -> bool {
        distinct_keys(self@)
    }

    /// The empty mapping.
    pub fn new() -> (query: Self)
        ensures
            query@ == Pairs::empty(),
            query.wf(),
    {
        let query = Query { pairs: Vec::new() };
        assert(query@ =~= Pairs::empty());
        query
    }

    /// The number of parameters.
    pub fn len(&self) -> (n: usize)
        ensures
            n == self@.len(),
    {
        self.pairs.len()
    }

    /// Gives `key` the value `value`. A key that is new goes to the end of the
    /// list; one that was there keeps its place, takes the new value and hands
    /// the old one back.
    pub fn insert(&mut self, key: &str, value: String) -> (previous: Option<String>)
        ensures
            key_index(old(self)@, key@) < old(self)@.len() ==> {
                &&& final(self)@ == old(self)@.update(key_index(old(self)@, key@), (key@, value@))
                &&& previous matches Some(p) && p@ == old(self)@[key_index(old(self)@, key@)].1
            },
            key_index(old(self)@, key@) == old(self)@.len() ==> {
                &&& final(self)@ == old(self)@.push((key@, value@))
                &&& previous is None
            },
            old(self).wf() ==> final(self).wf(),
            old(self).wf() ==> pairs_map(final(self)@) == pairs_map(old(self)@).insert(
                key@,
                value@,
            ),
    {
        let ghost before = self@;
        let key = key.to_owned();
        let mut i: usize = 0;
        while i < self.pairs.len() && !(self.pairs[i].0 == key)
            invariant
                0 <= i <= self.pairs.len(),
                self@ == before,
                forall|k: int| 0 <= k < i ==> (#[trigger] before[k]).0 != key@,
            decreases self.pairs.len() - i,
        {
            i += 1;
        }
        proof {
            lemma_key_index(before, key@);
            let found = key_index(before, key@);
            if found < i {
                assert(before[found].0 == key@);
            }
            if i < found {
                assert(before[i as int].0 == key@);
            }
            assert(found == i);
        }
        if i < self.pairs.len() {
            let mut slot = (key, value);
            std::mem::swap(&mut self.pairs[i], &mut slot);
            proof {
                assert(self@ =~= before.update(i as int, (key@, value@)));
                if distinct_keys(before) {
                    lemma_update_map(before, i as int, value@);
                    assert(distinct_keys(self@));
                }
            }
            Some(slot.1)
        } else {
            self.pairs.push((key, value));
            proof {
                assert(self@ =~= before.push((key@, value@)));
                assert(self@.drop_last() =~= before);
                if distinct_keys(before) {
                    assert(distinct_keys(self@));
                }
            }
            None
        }
    }

    /// The parameters in order, as owned pairs.
    pub fn pairs(&self) -> (pairs: &Vec<(String, String)>)
        ensures
            pairs_view(pairs@) == self@,
    {
        &self.pairs
    }
}

/// Replacing the value of a pair in a list without repeated keys is inserting
/// into the mapping that the list stands for.
pub proof fn lemma_update_map(pairs: Pairs, i: int, value: Seq<char>)
    requires
        0 <= i < pairs.len(),
        distinct_keys(pairs),
    ensures
        pairs_map(pairs.update(i, (pairs[i].0, value))) == pairs_map(pairs).insert(
            pairs[i].0,
            value,
        ),
    decreases pairs.len(),
{
    let updated = pairs.update(i, (pairs[i].0, value));
    if i == pairs.len() - 1 {
        assert(updated.drop_last() =~= pairs.drop_last());
        assert(pairs_map(updated) =~= pairs_map(pairs).insert(pairs[i].0, value));
    } else {
        let front = pairs.drop_last();
        lemma_update_map(front, i, value);
        assert(updated.drop_last() =~= front.update(i, (front[i].0, value)));
        assert(updated.last() == pairs.last());
        assert(pairs.last().0 != pairs[i].0);
        assert(pairs_map(updated) =~= pairs_map(pairs).insert(pairs[i].0, value));
    }
}

} // verus!

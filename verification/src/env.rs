//! A map from names to values, as the environment of a process is one.

use vstd::prelude::*;
use vstd::string::StringExecFns;

verus! {

/// Variables of an environment: each name has one value.
#[derive(Debug)]
pub struct EnvMap {
    entries: Vec<(String, String)>,
}

/// The index of the first of `entries` whose name is `key`, or the number
/// of entries where there is none.
pub closed spec fn key_index(entries: Seq<(String, String)>, key: Seq<char>) -> int
    decreases entries.len(),
{
    if entries.len() == 0 || entries[0].0@ == key {
        0
    } else {
        1 + key_index(entries.drop_first(), key)
    }
}

/// Whether no two of `entries` have the same name.
pub closed spec fn distinct_keys(entries: Seq<(String, String)>) -> bool {
    forall|i: int, j: int|
        0 <= i < j < entries.len() ==> (#[trigger] entries[i]).0@ != (#[trigger] entries[j]).0@
}

proof fn lemma_key_index(entries: Seq<(String, String)>, key: Seq<char>)
    ensures
        0 <= key_index(entries, key) <= entries.len(),
        key_index(entries, key) < entries.len() ==> entries[key_index(entries, key)].0@ == key,
        forall|k: int| 0 <= k < key_index(entries, key) ==> (#[trigger] entries[k]).0@ != key,
    decreases entries.len(),
{
    if entries.len() == 0 || entries[0].0@ == key {
    } else {
        let rest = entries.drop_first();
        lemma_key_index(rest, key);
        assert forall|k: int| 0 <= k < key_index(entries, key) implies (#[trigger] entries[k]).0@
            != key by {
            if k > 0 {
                assert(rest[k - 1] == entries[k]);
            }
        }
    }
}

impl EnvMap {
    #[verifier::type_invariant]
    spec fn distinct(&self) -> bool {
        distinct_keys(self.entries@)
    }

    /// The variables as a map from names to values.
    pub closed spec fn map(&self) -> Map<Seq<char>, Seq<char>> {
        Map::new(
            |key: Seq<char>| key_index(self.entries@, key) < self.entries@.len(),
            |key: Seq<char>| self.entries@[key_index(self.entries@, key)].1@,
        )
    }

    /// The names and values in the order in which the names were first set.
    pub closed spec fn pairs(&self) -> Seq<(Seq<char>, Seq<char>)> {
        self.entries@.map_values(|entry: (String, String)| (entry.0@, entry.1@))
    }

    /// An environment without variables.
    pub fn new() -> (env: EnvMap)
        ensures
            env.map() == Map::<Seq<char>, Seq<char>>::empty(),
            env.pairs().len() == 0,
    {
        let env = EnvMap { entries: Vec::new() };
        assert(env.map() =~= Map::<Seq<char>, Seq<char>>::empty());
        env
    }

    /// The position of `key` among the entries.
    fn position(&self, key: &str) -> (at: usize)
        ensures
            at == key_index(self.entries@, key@),
            at <= self.entries@.len(),
    {
        let mut at: usize = 0;
        assert(self.entries@.skip(0) == self.entries@);
        while at < self.entries.len()
            invariant
                at <= self.entries.len(),
                key_index(self.entries@, key@) == at + key_index(
                    self.entries@.skip(at as int),
                    key@,
                ),
            decreases self.entries.len() - at,
        {
            proof {
                assert(self.entries@.skip(at as int)[0] == self.entries@[at as int]);
                assert(self.entries@.skip(at as int).drop_first() == self.entries@.skip(at + 1));
            }
            if str_eq(self.entries[at].0.as_str(), key) {
                return at;
            }
            at += 1;
        }
        at
    }

    /// The value of `key`, where it has one.
    pub fn get(&self, key: &str) -> (value: Option<&String>)
        ensures
            value is Some <==> self.map().dom().contains(key@),
            value matches Some(v) ==> v@ == self.map()[key@],
    {
        let at = self.position(key);
        if at < self.entries.len() {
            Some(&self.entries[at].1)
        } else {
            None
        }
    }

    /// Gives `key` the value `value`, in place of the one it had. A name
    /// that had a value keeps its place among the pairs; a new name comes
    /// last.
    pub fn insert(&mut self, key: &str, value: &str)
        ensures
            final(self).map() == old(self).map().insert(key@, value@),
            old(self).map().dom().contains(key@) ==> final(self).pairs() == old(
                self,
            ).pairs().map_values(
                |pair: (Seq<char>, Seq<char>)| if pair.0 == key@ {
                    (key@, value@)
                } else {
                    pair
                },
            ),
            !old(self).map().dom().contains(key@) ==> final(self).pairs() == old(
                self,
            ).pairs().push((key@, value@)),
    {
        proof {
            use_type_invariant(&*self);
            lemma_key_index(self.entries@, key@);
        }
        let ghost before = self.entries@;
        let at = self.position(key);
        let entry = (String::from_str(key), String::from_str(value));
        let mut entries: Vec<(String, String)> = Vec::new();
        let mut i: usize = 0;
        while i < self.entries.len()
            invariant
                i <= self.entries.len(),
                entries.len() == i,
                before == self.entries@,
                forall|k: int|
                    0 <= k < i ==> (#[trigger] entries@[k]).0@ == before[k].0@ && entries@[k].1@
                        == before[k].1@,
            decreases self.entries.len() - i,
        {
            entries.push((self.entries[i].0.clone(), self.entries[i].1.clone()));
            i += 1;
        }
        let ghost copied = entries@;
        proof {
            assert forall|k: Seq<char>| key_index(copied, k) == key_index(before, k) by {
                lemma_same_keys(before, copied, k);
            }
        }
        if at < entries.len() {
            entries.set(at, entry);
            self.entries = entries;
            proof {
                let after = self.entries@;
                assert forall|k: int| 0 <= k < after.len() implies (#[trigger] after[k]).0@
                    == before[k].0@ by {
                    if k != at {
                        assert(after[k] == copied[k]);
                    }
                }
                assert forall|k: Seq<char>| key_index(after, k) == key_index(before, k) by {
                    lemma_same_keys(before, after, k);
                }
                assert forall|k: Seq<char>| #![auto] self.map().dom().contains(k) == old(
                    self,
                ).map().insert(key@, value@).dom().contains(k) by {}
                assert forall|k: Seq<char>| #![auto] self.map().dom().contains(k) implies self.map()[k]
                    == old(self).map().insert(key@, value@)[k] by {
                    let p = key_index(before, k);
                    lemma_key_index(before, k);
                    if p != at {
                        assert(after[p] == copied[p]);
                    }
                }
                assert(self.map() =~= old(self).map().insert(key@, value@));
            }
        } else {
            entries.push(entry);
            self.entries = entries;
            proof {
                let after = self.entries@;
                assert(after == copied.push(entry));
                assert forall|k: Seq<char>|
                    key_index(after, k) == (if key_index(before, k) < before.len() {
                        key_index(before, k)
                    } else if k == key@ {
                        before.len() as int
                    } else {
                        (before.len() + 1) as int
                    }) by {
                    lemma_key_index_push(copied, entry, k);
                }
                assert forall|k: Seq<char>| #![auto] self.map().dom().contains(k) implies self.map()[k]
                    == old(self).map().insert(key@, value@)[k] by {
                    let p = key_index(before, k);
                    lemma_key_index(before, k);
                    if p < before.len() {
                        assert(after[p] == copied[p]);
                    }
                }
                assert(self.map() =~= old(self).map().insert(key@, value@));
            }
        }
    }

    /// The number of variables.
    pub fn len(&self) -> (n: usize)
        ensures
            n == self.pairs().len(),
    {
        self.entries.len()
    }

    /// The name and the value of the variable at `index`.
    pub fn entry(&self, index: usize) -> (pair: (&String, &String))
        requires
            index < self.pairs().len(),
        ensures
            (pair.0@, pair.1@) == self.pairs()[index as int],
            self.map().dom().contains(pair.0@),
            self.map()[pair.0@] == pair.1@,
    {
        proof {
            use_type_invariant(self);
            lemma_key_index(self.entries@, self.entries@[index as int].0@);
        }
        (&self.entries[index].0, &self.entries[index].1)
    }

    /// A copy of the environment.
    pub fn duplicate(&self) -> (copy: EnvMap)
        ensures
            copy.map() == self.map(),
            copy.pairs() == self.pairs(),
    {
        proof {
            use_type_invariant(self);
        }
        let mut entries: Vec<(String, String)> = Vec::new();
        let mut i: usize = 0;
        while i < self.entries.len()
            invariant
                i <= self.entries.len(),
                entries.len() == i,
                forall|k: int|
                    0 <= k < i ==> (#[trigger] entries@[k]).0@ == self.entries@[k].0@
                        && entries@[k].1@ == self.entries@[k].1@,
            decreases self.entries.len() - i,
        {
            entries.push((self.entries[i].0.clone(), self.entries[i].1.clone()));
            i += 1;
        }
        proof {
            assert forall|k: Seq<char>| key_index(entries@, k) == key_index(self.entries@, k) by {
                lemma_same_keys(self.entries@, entries@, k);
            }
            assert(distinct_keys(entries@)) by {
                assert forall|i: int, j: int| 0 <= i < j < entries@.len() implies (
                #[trigger] entries@[i]).0@ != (#[trigger] entries@[j]).0@ by {
                    assert(entries@[i].0@ == self.entries@[i].0@);
                    assert(entries@[j].0@ == self.entries@[j].0@);
                }
            }
        }
        let copy = EnvMap { entries };
        proof {
            assert forall|k: Seq<char>| #![auto] self.map().dom().contains(k) implies copy.map()[k]
                == self.map()[k] by {
                lemma_key_index(self.entries@, k);
            }
            assert(copy.map() =~= self.map());
            assert(copy.pairs() =~= self.pairs());
        }
        copy
    }
}

/// Whether two strings hold the same text.
pub fn str_eq(a: &str, b: &str) -> (same: bool)
    ensures
        same == (a@ == b@),
{
    let x = String::from_str(a);
    let y = String::from_str(b);
    x == y
}

proof fn lemma_same_keys(a: Seq<(String, String)>, b: Seq<(String, String)>, key: Seq<char>)
    requires
        a.len() == b.len(),
        forall|k: int| 0 <= k < a.len() ==> (#[trigger] a[k]).0@ == b[k].0@,
    ensures
        key_index(a, key) == key_index(b, key),
    decreases a.len(),
{
    if a.len() > 0 {
        assert(a[0].0@ == b[0].0@);
        if a[0].0@ != key {
            assert forall|k: int| 0 <= k < a.drop_first().len() implies (
            #[trigger] a.drop_first()[k]).0@ == b.drop_first()[k].0@ by {
                assert(a.drop_first()[k] == a[k + 1]);
                assert(b.drop_first()[k] == b[k + 1]);
            }
            lemma_same_keys(a.drop_first(), b.drop_first(), key);
        }
    }
}

proof fn lemma_key_index_push(a: Seq<(String, String)>, entry: (String, String), key: Seq<char>)
    ensures
        key_index(a.push(entry), key) == (if key_index(a, key) < a.len() {
            key_index(a, key)
        } else if entry.0@ == key {
            a.len() as int
        } else {
            (a.len() + 1) as int
        }),
        key_index(a, key) <= a.len(),
    decreases a.len(),
{
    reveal_with_fuel(key_index, 2);
    if a.len() == 0 {
        assert(a.push(entry)[0] == entry);
        assert(a.push(entry).drop_first().len() == 0);
    } else if a[0].0@ == key {
        assert(a.push(entry)[0] == a[0]);
    } else {
        assert(a.push(entry).drop_first() == a.drop_first().push(entry));
        lemma_key_index_push(a.drop_first(), entry, key);
    }
}

} // verus!

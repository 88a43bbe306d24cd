//! Tokens that one macro expansion leaves for a later one, by namespace and
//! name.

use vstd::prelude::*;
use crate::text::{chars_of, push_str, same_text, string_from_chars};

verus! {

/// The key a token is kept under: `namespace::name`.
pub open spec fn registry_key(namespace: Seq<char>, name: Seq<char>) -> Seq<char> {
    namespace + "::"@ + name
}

pub open spec fn has_key(s: Seq<(Seq<char>, Seq<char>)>, k: Seq<char>) -> bool {
    exists|i: int| 0 <= i < s.len() && s[i].0 == k
}

pub open spec fn is_first_key(s: Seq<(Seq<char>, Seq<char>)>, k: Seq<char>, i: int) -> bool {
    &&& 0 <= i < s.len()
    &&& s[i].0 == k
    &&& forall|j: int| 0 <= j < i ==> s[j].0 != k
}

pub open spec fn key_index(s: Seq<(Seq<char>, Seq<char>)>, k: Seq<char>) -> int {
    choose|i: int| is_first_key(s, k, i)
}

/// The tokens by key; a key holds the token stored last under it.
pub open spec fn entries_map(s: Seq<(Seq<char>, Seq<char>)>) -> Map<Seq<char>, Seq<char>> {
    Map::new(|k: Seq<char>| has_key(s, k), |k: Seq<char>| s[key_index(s, k)].1)
}

/// Tokens kept by key.
pub struct Registry {
    entries: Vec<(String, String)>,
}

pub open spec fn pairs_view(v: Seq<(String, String)>) -> Seq<(Seq<char>, Seq<char>)> {
    v.map_values(|p: (String, String)| (p.0@, p.1@))
}

impl View for Registry {
    type V = Map<Seq<char>, Seq<char>>;

    closed spec fn view(&self) -> Map<Seq<char>, Seq<char>> {
        entries_map(pairs_view(self.entries@))
    }
}

proof fn lemma_first_key_unique(s: Seq<(Seq<char>, Seq<char>)>, k: Seq<char>, i: int)
    requires
        is_first_key(s, k, i),
    ensures
        has_key(s, k),
        key_index(s, k) == i,
{
    let j = key_index(s, k);
    assert(is_first_key(s, k, j));
    if j < i {
        assert(s[j].0 != k);
    } else if i < j {
        assert(s[i].0 != k);
    }
}

proof fn lemma_first_key_exists(s: Seq<(Seq<char>, Seq<char>)>, k: Seq<char>)
    requires
        has_key(s, k),
    ensures
        is_first_key(s, k, key_index(s, k)),
    decreases s.len(),
{
    if has_key(s.drop_last(), k) {
        lemma_first_key_exists(s.drop_last(), k);
        let i = key_index(s.drop_last(), k);
        assert(s[i] == s.drop_last()[i]);
        assert forall|j: int| 0 <= j < i implies s[j].0 != k by {
            assert(s[j] == s.drop_last()[j]);
        }
        assert(is_first_key(s, k, i));
        lemma_first_key_unique(s, k, i);
    } else {
        let i = s.len() - 1;
        assert forall|j: int| 0 <= j < i implies s[j].0 != k by {
            assert(s.drop_last()[j] == s[j]);
        }
        let w = choose|j: int| 0 <= j < s.len() && s[j].0 == k;
        if w < i {
            assert(s.drop_last()[w] == s[w]);
        }
        assert(is_first_key(s, k, i));
        lemma_first_key_unique(s, k, i);
    }
}

impl Registry {
    /// An empty registry.
    pub fn new() -> (r: Self)
        ensures
            r@ == Map::<Seq<char>, Seq<char>>::empty(),
    {
        let r = Registry { entries: Vec::new() };
        assert(r@ =~= Map::<Seq<char>, Seq<char>>::empty());
        r
    }

    fn position(&self, key: &str) -> (r: Option<usize>)
        ensures
            match r {
                Some(i) => is_first_key(pairs_view(self.entries@), key@, i as int)
                    && key_index(pairs_view(self.entries@), key@) == i,
                None => !has_key(pairs_view(self.entries@), key@),
            },
    {
        let ghost s = pairs_view(self.entries@);
        let mut i: usize = 0;
        while i < self.entries.len()
            invariant
                i <= self.entries@.len(),
                s == pairs_view(self.entries@),
                forall|j: int| 0 <= j < i ==> s[j].0 != key@,
            decreases self.entries@.len() - i,
        {
            assert(s[i as int].0 == self.entries@[i as int].0@);
            if same_text(self.entries[i].0.as_str(), key) {
                proof {
                    lemma_first_key_unique(s, key@, i as int);
                }
                return Some(i);
            }
            i = i + 1;
        }
        None
    }
}

fn key_of(namespace: &str, name: &str) -> (k: String)
    ensures
        k@ == registry_key(namespace@, name@),
{
    let mut v = chars_of(namespace);
    push_str(&mut v, "::");
    push_str(&mut v, name);
    string_from_chars(&v)
}

/// Keeps `token` under `namespace::name`, replacing what was kept there.
pub fn store(registry: &mut Registry, namespace: &str, name: &str, token: String)
    ensures
        final(registry)@ == old(registry)@.insert(registry_key(namespace@, name@), token@),
{
    let key = key_of(namespace, name);
    let ghost s = pairs_view(registry.entries@);
    let ghost k = key@;
    let ghost t = token@;
    match registry.position(key.as_str()) {
        Some(i) => {
            registry.entries.set(i, (key, token));
            let ghost s2 = pairs_view(registry.entries@);
            assert(s2 =~= s.update(i as int, (k, t)));
            assert forall|q: Seq<char>| has_key(s, q) implies is_first_key(s, q, key_index(s, q)) by {
                lemma_first_key_exists(s, q);
            }
            assert forall|q: Seq<char>| #[trigger] has_key(s2, q) <==> (has_key(s, q) || q == k) by {
                if has_key(s2, q) {
                    let w = choose|j: int| 0 <= j < s2.len() && s2[j].0 == q;
                    if w != i {
                        assert(s[w].0 == q);
                    }
                }
                if has_key(s, q) {
                    let w = choose|j: int| 0 <= j < s.len() && s[j].0 == q;
                    if w != i {
                        assert(s2[w].0 == q);
                    } else {
                        assert(s2[i as int].0 == q);
                    }
                }
                if q == k {
                    assert(s2[i as int].0 == q);
                }
            }
            assert forall|q: Seq<char>| has_key(s2, q) implies s2[key_index(s2, q)].1 == (if q == k {
                t
            } else {
                s[key_index(s, q)].1
            }) by {
                if q == k {
                    assert(is_first_key(s2, k, i as int));
                    lemma_first_key_unique(s2, k, i as int);
                } else {
                    let f = key_index(s, q);
                    assert(is_first_key(s2, q, f));
                    lemma_first_key_unique(s2, q, f);
                }
            }
            assert(entries_map(s2) =~= entries_map(s).insert(k, t));
        },
        None => {
            registry.entries.push((key, token));
            let ghost s2 = pairs_view(registry.entries@);
            assert(s2 =~= s.push((k, t)));
            assert forall|q: Seq<char>| has_key(s, q) implies is_first_key(s, q, key_index(s, q)) by {
                lemma_first_key_exists(s, q);
            }
            assert forall|q: Seq<char>| #[trigger] has_key(s2, q) <==> (has_key(s, q) || q == k) by {
                if has_key(s2, q) {
                    let w = choose|j: int| 0 <= j < s2.len() && s2[j].0 == q;
                    if w < s.len() {
                        assert(s[w].0 == q);
                    }
                }
                if has_key(s, q) {
                    let w = choose|j: int| 0 <= j < s.len() && s[j].0 == q;
                    assert(s2[w].0 == q);
                }
                if q == k {
                    assert(s2[s.len() as int].0 == q);
                }
            }
            assert forall|q: Seq<char>| has_key(s2, q) implies s2[key_index(s2, q)].1 == (if q == k {
                t
            } else {
                s[key_index(s, q)].1
            }) by {
                if q == k {
                    assert forall|j: int| 0 <= j < s.len() implies s2[j].0 != k by {
                        assert(s2[j] == s[j]);
                    }
                    assert(is_first_key(s2, k, s.len() as int));
                    lemma_first_key_unique(s2, k, s.len() as int);
                } else {
                    let f = key_index(s, q);
                    assert(is_first_key(s2, q, f));
                    lemma_first_key_unique(s2, q, f);
                }
            }
            assert(entries_map(s2) =~= entries_map(s).insert(k, t));
        },
    }
}

/// The token kept under `namespace::name`, if any.
pub fn fetch(registry: &Registry, namespace: &str, name: &str) -> (r: Option<String>)
    ensures
        match r {
            Some(t) => registry@.contains_key(registry_key(namespace@, name@))
                && registry@[registry_key(namespace@, name@)] == t@,
            None => !registry@.contains_key(registry_key(namespace@, name@)),
        },
{
    let key = key_of(namespace, name);
    match registry.position(key.as_str()) {
        Some(i) => Some(registry.entries[i].1.clone()),
        None => None,
    }
}

/// What is fetched after a store: the stored token under its own key, and
/// what was there before under any other key.
pub proof fn lemma_fetch_after_store(
    before: Map<Seq<char>, Seq<char>>,
    namespace: Seq<char>,
    name: Seq<char>,
    token: Seq<char>,
    key: Seq<char>,
)
    ensures
        ({
            let after = before.insert(registry_key(namespace, name), token);
            &&& key == registry_key(namespace, name) ==> after.contains_key(key) && after[key]
                == token
            &&& key != registry_key(namespace, name) ==> after.contains_key(key)
                == before.contains_key(key) && (before.contains_key(key) ==> after[key]
                == before[key])
        }),
{
}

} // verus!

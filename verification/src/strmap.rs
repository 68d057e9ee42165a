//! A small string-keyed association map with first-match lookup and a
//! wildcard fallback, used for configuration tables and handler registries.

use vstd::prelude::*;

use crate::str_util::str_eq;

verus! {

/// First-match lookup in an association list.
pub open spec fn assoc_get<T>(m: Seq<(Seq<char>, T)>, k: Seq<char>) -> Option<T>
    decreases m.len(),
{
    if m.len() == 0 {
        None
    } else if m[0].0 == k {
        Some(m[0].1)
    } else {
        assoc_get(m.drop_first(), k)
    }
}

/// Lookup with fallback to the wildcard entry `"*"` when the exact key is
/// absent.
pub open spec fn assoc_get_wild<T>(m: Seq<(Seq<char>, T)>, k: Seq<char>) -> Option<T> {
    match assoc_get(m, k) {
        Some(v) => Some(v),
        None => assoc_get(m, "*"@),
    }
}

proof fn lemma_assoc_get_at<T>(m: Seq<(Seq<char>, T)>, k: Seq<char>, i: int)
    requires
        0 <= i <= m.len(),
        forall|j: int| 0 <= j < i ==> (#[trigger] m[j]).0 != k,
        i < m.len() ==> m[i].0 == k,
    ensures
        assoc_get(m, k) == if i < m.len() {
            Some(m[i].1)
        } else {
            None::<T>
        },
    decreases m.len(),
{
    if m.len() == 0 {
    } else if m[0].0 == k {
        assert(i == 0);
    } else {
        assert(forall|j: int|
            0 <= j < i - 1 ==> (#[trigger] m.drop_first()[j]) == m[j + 1]);
        lemma_assoc_get_at(m.drop_first(), k, i - 1);
    }
}

/// A map from strings to values, kept as an association list. Its view is
/// the sequence of (key, value) pairs, newest first; lookup takes the first
/// pair whose key matches, and `insert` prepends, so the last insertion of a
/// key wins.
#[derive(Debug)]
pub struct StrMap<V> {
    pairs: Vec<(String, V)>,
}

impl<V: DeepView> View for StrMap<V> {
    type V = Seq<(Seq<char>, <V as DeepView>::V)>;

    closed spec fn view(&self) -> Seq<(Seq<char>, <V as DeepView>::V)> {
        self.pairs.deep_view()
    }
}

impl<V: DeepView> StrMap<V> {
    /// The empty map.
    pub fn new() -> (r: Self)
        ensures
            r@ == Seq::<(Seq<char>, <V as DeepView>::V)>::empty(),
    {
        let r = StrMap { pairs: Vec::new() };
        proof {
            assert(r@ =~= Seq::<(Seq<char>, <V as DeepView>::V)>::empty());
        }
        r
    }

    /// Number of entries.
    pub fn len(&self) -> (r: usize)
        ensures
            r == self@.len(),
    {
        self.pairs.len()
    }

    /// Bind `k` to `v`, shadowing any earlier binding of `k`: the new pair
    /// goes to the front and lookup is first-match, so re-inserting a key
    /// replaces what it maps to.
    pub fn insert(&mut self, k: String, v: V)
        ensures
            final(self)@ == seq![(k@, v.deep_view())] + old(self)@,
    {
        let ghost gk = k@;
        let ghost gv = v.deep_view();
        self.pairs.insert(0, (k, v));
        proof {
            assert(final(self)@ =~= seq![(gk, gv)] + old(self)@);
        }
    }

    /// The entries, most recent insertion first.
    pub fn pairs(&self) -> (r: &Vec<(String, V)>)
        ensures
            r.deep_view() == self@,
    {
        &self.pairs
    }

    /// First-match lookup of `k`.
    pub fn get(&self, k: &str) -> (r: Option<&V>)
        ensures
            match r {
                Some(v) => assoc_get(self@, k@) == Some(v.deep_view()),
                None => assoc_get(self@, k@) is None,
            },
    {
        let n = self.pairs.len();
        let mut i: usize = 0;
        while i < n
            invariant
                i <= n,
                n == self.pairs@.len(),
                self@.len() == n,
                forall|j: int| 0 <= j < i ==> (#[trigger] self@[j]).0 != k@,
            decreases n - i,
        {
            if str_eq(self.pairs[i].0.as_str(), k) {
                proof {
                    lemma_assoc_get_at(self@, k@, i as int);
                }
                return Some(&self.pairs[i].1);
            }
            i = i + 1;
        }
        proof {
            lemma_assoc_get_at(self@, k@, n as int);
        }
        None
    }
}

/// Insertion shadows: after binding `k`, lookup of `k` yields the new value,
/// and lookup of every other key is unchanged. Re-registering a command
/// keyword therefore replaces its handler.
pub proof fn lemma_insert_shadows<T>(m: Seq<(Seq<char>, T)>, k: Seq<char>, v: T, k2: Seq<char>)
    ensures
        assoc_get(seq![(k, v)] + m, k) == Some(v),
        k2 != k ==> assoc_get(seq![(k, v)] + m, k2) == assoc_get(m, k2),
{
    assert((seq![(k, v)] + m)[0] == (k, v));
    assert((seq![(k, v)] + m).drop_first() =~= m);
}

/// Lookup of `key` in `map`, falling back to the wildcard entry `"*"` when
/// no exact entry exists.
pub fn get_wild<'a, V: DeepView>(map: &'a StrMap<V>, key: &str) -> (r: Option<&'a V>)
    ensures
        match r {
            Some(v) => assoc_get_wild(map@, key@) == Some(v.deep_view()),
            None => assoc_get_wild(map@, key@) is None,
        },
{
    match map.get(key) {
        Some(v) => Some(v),
        None => map.get("*"),
    }
}

} // verus!

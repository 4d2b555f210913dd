//! The environment variables that are handed to the shell that runs the compiler.

use vstd::prelude::*;

verus! {

/// A set of environment variables: every name is held at most once.
#[derive(Debug, PartialEq, Eq, Default)]
pub struct EnvVars {
    entries: Vec<(String, String)>,
}

/// The names and values of a sequence of pairs.
pub open spec fn pair_views(s: Seq<(String, String)>) -> Seq<(Seq<char>, Seq<char>)> {
    s.map_values(|p: (String, String)| (p.0@, p.1@))
}

/// The map that a sequence of pairs with distinct names describes.
pub open spec fn map_of(s: Seq<(Seq<char>, Seq<char>)>) -> Map<Seq<char>, Seq<char>>
    decreases s.len(),
{
    if s.len() == 0 {
        Map::empty()
    } else {
        map_of(s.drop_last()).insert(s.last().0, s.last().1)
    }
}

/// Whether no two pairs share a name.
pub open spec fn distinct_names(s: Seq<(Seq<char>, Seq<char>)>) -> bool {
    forall|i: int, j: int|
        0 <= i < s.len() && 0 <= j < s.len() && i != j ==> #[trigger] s[i].0 != #[trigger] s[j].0
}

proof fn lemma_map_of_contains(s: Seq<(Seq<char>, Seq<char>)>, k: Seq<char>)
    requires
        distinct_names(s),
    ensures
        map_of(s).contains_key(k) <==> exists|i: int| 0 <= i < s.len() && #[trigger] s[i].0 == k,
        forall|i: int| 0 <= i < s.len() && #[trigger] s[i].0 == k ==> map_of(s)[k] == s[i].1,
    decreases s.len(),
{
    if s.len() > 0 {
        let t = s.drop_last();
        assert(distinct_names(t)) by {
            assert forall|i: int, j: int| 0 <= i < t.len() && 0 <= j < t.len() && i != j implies #[trigger] t[i].0 != #[trigger] t[j].0 by {
                assert(t[i] == s[i] && t[j] == s[j]);
            }
        }
        lemma_map_of_contains(t, k);
        if map_of(s).contains_key(k) {
            if s.last().0 != k {
                let i = choose|i: int| 0 <= i < t.len() && #[trigger] t[i].0 == k;
                assert(s[i].0 == k);
            }
        }
        assert forall|i: int| 0 <= i < s.len() && #[trigger] s[i].0 == k implies map_of(s)[k] == s[i].1 by {
            if i < s.len() - 1 {
                assert(t[i] == s[i]);
            }
        }
        if exists|i: int| 0 <= i < s.len() && #[trigger] s[i].0 == k {
            let i = choose|i: int| 0 <= i < s.len() && #[trigger] s[i].0 == k;
            if i < s.len() - 1 {
                assert(t[i] == s[i]);
            }
        }
    }
}

proof fn lemma_map_of_update(s: Seq<(Seq<char>, Seq<char>)>, i: int, v: Seq<char>)
    requires
        distinct_names(s),
        0 <= i < s.len(),
    ensures
        distinct_names(s.update(i, (s[i].0, v))),
        map_of(s.update(i, (s[i].0, v))) == map_of(s).insert(s[i].0, v),
{
    let u = s.update(i, (s[i].0, v));
    assert(distinct_names(u));
    lemma_map_of_contains(s, s[i].0);
    lemma_map_of_contains(u, s[i].0);
    assert forall|k: Seq<char>| #![trigger map_of(u).contains_key(k)] true implies (map_of(u).contains_key(k) == map_of(s).insert(s[i].0, v).contains_key(k)) by {
        lemma_map_of_contains(s, k);
        lemma_map_of_contains(u, k);
        if exists|j: int| 0 <= j < s.len() && #[trigger] s[j].0 == k {
            let j = choose|j: int| 0 <= j < s.len() && #[trigger] s[j].0 == k;
            assert(u[j].0 == k);
        }
        if exists|j: int| 0 <= j < u.len() && #[trigger] u[j].0 == k {
            let j = choose|j: int| 0 <= j < u.len() && #[trigger] u[j].0 == k;
            assert(s[j].0 == k);
        }
    }
    assert forall|k: Seq<char>| #[trigger] map_of(u).contains_key(k) implies map_of(u)[k] == map_of(s).insert(s[i].0, v)[k] by {
        lemma_map_of_contains(s, k);
        lemma_map_of_contains(u, k);
        let j = choose|j: int| 0 <= j < u.len() && #[trigger] u[j].0 == k;
        if j != i {
            assert(s[j].0 == k);
        }
    }
    assert(map_of(u) =~= map_of(s).insert(s[i].0, v));
}

impl View for EnvVars {
    type V = Map<Seq<char>, Seq<char>>;

    closed spec fn view(&self) -> Map<Seq<char>, Seq<char>> {
        map_of(pair_views(self.entries@))
    }
}

impl EnvVars {
    /// Every name is held once.
    #[verifier::type_invariant]
    spec fn wf(&self) -> bool {
        distinct_names(pair_views(self.entries@))
    }

    /// No variables.
    pub fn new() -> (r: EnvVars)
        ensures
            r@ == Map::<Seq<char>, Seq<char>>::empty(),
    {
        let r = EnvVars { entries: Vec::new() };
        proof {
            assert(pair_views(r.entries@) =~= Seq::<(Seq<char>, Seq<char>)>::empty());
        }
        r
    }

    fn index_of(&self, name: &str) -> (r: Option<usize>)
        ensures
            match r {
                Some(i) => i < self.entries@.len() && self.entries@[i as int].0@ == name@,
                None => forall|j: int| 0 <= j < self.entries@.len() ==> #[trigger] self.entries@[j].0@ != name@,
            },
    {
        let mut i: usize = 0;
        while i < self.entries.len()
            invariant
                0 <= i <= self.entries@.len(),
                forall|j: int| 0 <= j < i ==> #[trigger] self.entries@[j].0@ != name@,
            decreases self.entries@.len() - i,
        {
            if crate::paths::str_equal(self.entries[i].0.as_str(), name) {
                return Some(i);
            }
            i = i + 1;
        }
        None
    }

    /// Sets the variable `name` to `value`, replacing the value that it had.
    pub fn insert(&mut self, name: String, value: String)
        ensures
            final(self)@ == old(self)@.insert(name@, value@),
    {
        proof {
            use_type_invariant(&*self);
        }
        let ghost pv = pair_views(self.entries@);
        let found = self.index_of(name.as_str());
        let mut entries: Vec<(String, String)> = Vec::new();
        std::mem::swap(&mut entries, &mut self.entries);
        match found {
            Some(i) => {
                entries.set(i, (name, value));
                proof {
                    assert(pv[i as int].0 == name@);
                    assert(pair_views(entries@) =~= pv.update(i as int, (pv[i as int].0, value@)));
                    lemma_map_of_update(pv, i as int, value@);
                }
            },
            None => {
                entries.push((name, value));
                proof {
                    let nv = pair_views(entries@);
                    assert(nv =~= pv.push((name@, value@)));
                    assert(nv.drop_last() =~= pv);
                    assert forall|a: int, b: int| 0 <= a < nv.len() && 0 <= b < nv.len() && a != b implies #[trigger] nv[a].0 != #[trigger] nv[b].0 by {
                        if a < pv.len() && b < pv.len() {
                            assert(nv[a] == pv[a] && nv[b] == pv[b]);
                        } else if a < pv.len() {
                            assert(entries@[a].0@ == pv[a].0);
                        } else {
                            assert(entries@[b].0@ == pv[b].0);
                        }
                    }
                }
            },
        }
        self.entries = entries;
    }

    /// The value of the variable `name`, when it is set.
    pub fn get(&self, name: &str) -> (r: Option<&String>)
        ensures
            match r {
                Some(v) => self@.contains_key(name@) && self@[name@] == v@,
                None => !self@.contains_key(name@),
            },
    {
        proof {
            use_type_invariant(self);
            lemma_map_of_contains(pair_views(self.entries@), name@);
        }
        match self.index_of(name) {
            Some(i) => {
                proof {
                    assert(pair_views(self.entries@)[i as int].0 == name@);
                }
                Some(&self.entries[i].1)
            },
            None => {
                proof {
                    assert forall|j: int| 0 <= j < pair_views(self.entries@).len() implies #[trigger] pair_views(self.entries@)[j].0 != name@ by {
                        assert(self.entries@[j].0@ != name@);
                    }
                }
                None
            },
        }
    }

    /// The variables, each name once, in the order in which they were first set.
    pub fn entries(&self) -> (r: &Vec<(String, String)>)
        ensures
            distinct_names(pair_views(r@)),
            map_of(pair_views(r@)) == self@,
    {
        proof {
            use_type_invariant(self);
        }
        &self.entries
    }

    /// A copy of the variables.
    pub fn duplicate(&self) -> (r: EnvVars)
        ensures
            r@ == self@,
    {
        proof {
            use_type_invariant(self);
        }
        let mut v: Vec<(String, String)> = Vec::new();
        let mut i: usize = 0;
        while i < self.entries.len()
            invariant
                0 <= i <= self.entries@.len(),
                pair_views(v@) == pair_views(self.entries@.subrange(0, i as int)),
            decreases self.entries@.len() - i,
        {
            v.push((self.entries[i].0.clone(), self.entries[i].1.clone()));
            proof {
                assert(pair_views(self.entries@.subrange(0, i + 1)) =~= pair_views(self.entries@.subrange(0, i as int)).push((self.entries@[i as int].0@, self.entries@[i as int].1@)));
                assert(pair_views(v@) =~= pair_views(self.entries@.subrange(0, i + 1)));
            }
            i = i + 1;
        }
        proof {
            assert(self.entries@.subrange(0, self.entries@.len() as int) =~= self.entries@);
        }
        EnvVars { entries: v }
    }
}

impl Clone for EnvVars {
    fn clone(&self) -> (r: Self)
        ensures
            r@ == self@,
    {
        self.duplicate()
    }
}

} // verus!

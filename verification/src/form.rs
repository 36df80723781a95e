use vstd::prelude::*;

use crate::text;

verus! {

/// No two pairs of `s` share a key.
pub open spec fn unique_keys(s: Seq<(Seq<char>, Seq<char>)>) -> bool {
    forall|i: int, j: int| 0 <= i < j < s.len() ==> (#[trigger] s[i]).0 != (#[trigger] s[j]).0
}

/// The map that a sequence of (key, value) pairs denotes; a later pair wins.
pub open spec fn spec_map_of(s: Seq<(Seq<char>, Seq<char>)>) -> Map<Seq<char>, Seq<char>>
    decreases s.len(),
{
    if s.len() == 0 {
        Map::empty()
    } else {
        spec_map_of(s.drop_last()).insert(s.last().0, s.last().1)
    }
}

/// A key is in the denoted map exactly when some pair carries it.
pub proof fn lemma_map_of_contains(s: Seq<(Seq<char>, Seq<char>)>, k: Seq<char>)
    ensures
        spec_map_of(s).contains_key(k) <==> exists|i: int|
            0 <= i < s.len() && (#[trigger] s[i]).0 == k,
    decreases s.len(),
{
    if s.len() > 0 {
        let sd = s.drop_last();
        lemma_map_of_contains(sd, k);
        if exists|i: int| 0 <= i < sd.len() && (#[trigger] sd[i]).0 == k {
            let i = choose|i: int| 0 <= i < sd.len() && (#[trigger] sd[i]).0 == k;
            assert(s[i].0 == k);
        }
        if s.last().0 == k {
            assert(s[s.len() - 1].0 == k);
        }
        if exists|i: int| 0 <= i < s.len() && (#[trigger] s[i]).0 == k {
            let i = choose|i: int| 0 <= i < s.len() && (#[trigger] s[i]).0 == k;
            if i < s.len() - 1 {
                assert(sd[i].0 == k);
            }
        }
    }
}

/// With unique keys, the pair that carries a key gives the map's value at it.
pub proof fn lemma_map_of_get(s: Seq<(Seq<char>, Seq<char>)>, i: int)
    requires
        unique_keys(s),
        0 <= i < s.len(),
    ensures
        spec_map_of(s).contains_key(s[i].0),
        spec_map_of(s)[s[i].0] == s[i].1,
    decreases s.len(),
{
    if i < s.len() - 1 {
        lemma_map_of_get(s.drop_last(), i);
    }
}

/// A flat, form-encoded parameter map: unique string keys mapped to string
/// values, with insertion order kept for encoding.
#[derive(Debug)]
pub struct FormMap {
    entries: Vec<(String, String)>,
}

impl View for FormMap {
    type V = Map<Seq<char>, Seq<char>>;

    open spec fn view(&self) -> Map<Seq<char>, Seq<char>> {
        spec_map_of(self.entries_view())
    }
}

impl FormMap {
    /// The (key, value) character views in insertion order.
    pub closed spec fn entries_view(self) -> Seq<(Seq<char>, Seq<char>)> {
        self.entries@.map_values(|e: (String, String)| (e.0@, e.1@))
    }

    /// Well-formed: no two entries share a key. Constructors establish it
    /// and every method preserves it.
    pub open spec fn wf(self) -> bool {
        unique_keys(self.entries_view())
    }

    /// An empty parameter map.
    pub fn new() -> (r: FormMap)
        ensures
            r.wf(),
            r@ == Map::<Seq<char>, Seq<char>>::empty(),
            r.entries_view() == Seq::<(Seq<char>, Seq<char>)>::empty(),
    {
        let r = FormMap { entries: Vec::new() };
        proof {
            assert(r.entries_view() =~= Seq::<(Seq<char>, Seq<char>)>::empty());
        }
        r
    }

    /// How many parameters the map holds.
    pub fn len(&self) -> (r: usize)
        ensures
            r == self.entries_view().len(),
    {
        self.entries.len()
    }

    /// Whether the map holds a parameter named `k`.
    pub fn contains_key(&self, k: &str) -> (r: bool)
        ensures
            r == self@.contains_key(k@),
    {
        proof {
            lemma_map_of_contains(self.entries_view(), k@);
        }
        let mut i: usize = 0;
        let n = self.entries.len();
        while i < n
            invariant
                n == self.entries@.len(),
                i <= n,
                forall|j: int| 0 <= j < i ==> (#[trigger] self.entries_view()[j]).0 != k@,
        decreases n - i,
        {
            if text::str_eq(self.entries[i].0.as_str(), k) {
                proof {
                    assert(self.entries_view()[i as int].0 == k@);
                    lemma_map_of_contains(self.entries_view(), k@);
                }
                return true;
            }
            i += 1;
        }
        false
    }

    /// Adds a parameter under a key the map does not yet hold.
    pub fn insert(&mut self, k: String, v: String)
        requires
            old(self).wf(),
            !old(self)@.contains_key(k@),
        ensures
            final(self).wf(),
            final(self)@ == old(self)@.insert(k@, v@),
            final(self).entries_view() == old(self).entries_view().push((k@, v@)),
    {
        proof {
            lemma_map_of_contains(old(self).entries_view(), k@);
        }
        let ghost old_view = self.entries_view();
        let ghost kv = (k@, v@);
        self.entries.push((k, v));
        proof {
            assert(self.entries_view() =~= old_view.push(kv));
            assert(self.entries_view().drop_last() =~= old_view);
        }
    }

    /// The value stored under `k`, if any.
    pub fn get(&self, k: &str) -> (r: Option<&String>)
        requires
            self.wf(),
        ensures
            match r {
                Some(v) => self@.contains_key(k@) && self@[k@] == v@,
                None => !self@.contains_key(k@),
            },
    {
        proof {
            lemma_map_of_contains(self.entries_view(), k@);
        }
        let mut i: usize = 0;
        let n = self.entries.len();
        while i < n
            invariant
                n == self.entries@.len(),
                i <= n,
                unique_keys(self.entries_view()),
                n == self.entries_view().len(),
                forall|j: int| 0 <= j < i ==> (#[trigger] self.entries_view()[j]).0 != k@,
        decreases n - i,
        {
            if text::str_eq(self.entries[i].0.as_str(), k) {
                proof {
                    lemma_map_of_get(self.entries_view(), i as int);
                }
                return Some(&self.entries[i].1);
            }
            i += 1;
        }
        None
    }

    /// The parameters in insertion order, for encoding or transport.
    pub fn entries(&self) -> (r: &Vec<(String, String)>)
        ensures
            r@.map_values(|e: (String, String)| (e.0@, e.1@)) == self.entries_view(),
    {
        &self.entries
    }
}

} // verus!

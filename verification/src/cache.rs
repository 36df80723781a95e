use vstd::prelude::*;

use crate::text;
use crate::token::Token;

verus! {

use crate::text::str_views;

/// Seconds before expiry within which a cached token is not reused: a token
/// that would expire mid-flight is refreshed instead. Fixed, not
/// configurable, so cache behavior stays deterministic.
pub const REFRESH_MARGIN_SECS: u64 = 300;

/// The identity under which a token is cached: the client id, the tenant
/// (where the authority names one), and the set of scopes the token was
/// requested for. Two identities agree when these coincide; the order of
/// the scopes does not matter.
#[derive(Debug)]
pub struct CacheId {
    pub client_id: String,
    pub tenant_id: Option<String>,
    pub scopes: Vec<String>,
}

/// The scope strings of an identity, by character content.
pub open spec fn scopes_view(c: CacheId) -> Seq<Seq<char>> {
    str_views(c.scopes@)
}

/// The two option values hold the same characters, or are both absent.
pub open spec fn opt_view_eq(a: Option<String>, b: Option<String>) -> bool {
    match (a, b) {
        (Some(x), Some(y)) => x@ == y@,
        (None, None) => true,
        _ => false,
    }
}

/// The two identities index the same cache entry: same client, same tenant,
/// and the same set of scopes, in any order.
pub open spec fn spec_matches(a: CacheId, b: CacheId) -> bool {
    &&& a.client_id@ == b.client_id@
    &&& opt_view_eq(a.tenant_id, b.tenant_id)
    &&& forall|x: Seq<char>|
        #![trigger scopes_view(a).contains(x)]
        #![trigger scopes_view(b).contains(x)]
        scopes_view(a).contains(x) <==> scopes_view(b).contains(x)
}

/// Matching is symmetric and carries across a shared identity.
pub proof fn lemma_matches_trans(a: CacheId, b: CacheId, c: CacheId)
    requires
        spec_matches(a, c),
        spec_matches(b, c),
    ensures
        spec_matches(a, b),
{
    assert forall|x: Seq<char>|
        #![trigger scopes_view(a).contains(x)]
        #![trigger scopes_view(b).contains(x)]
        scopes_view(a).contains(x) <==> scopes_view(b).contains(x) by {
        assert(scopes_view(a).contains(x) <==> scopes_view(c).contains(x));
        assert(scopes_view(b).contains(x) <==> scopes_view(c).contains(x));
    }
}

/// Matching does not depend on the order of its two sides.
pub proof fn lemma_matches_sym(a: CacheId, b: CacheId)
    requires
        spec_matches(a, b),
    ensures
        spec_matches(b, a),
{
    assert forall|x: Seq<char>|
        #![trigger scopes_view(b).contains(x)]
        #![trigger scopes_view(a).contains(x)]
        scopes_view(b).contains(x) <==> scopes_view(a).contains(x) by {
        assert(scopes_view(a).contains(x) <==> scopes_view(b).contains(x));
    }
}

/// Whether `v` holds a string with the characters of `s`.
fn contains_str(v: &Vec<String>, s: &str) -> (r: bool)
    ensures
        r == str_views(v@).contains(s@),
{
    let ghost vw = str_views(v@);
    let mut i: usize = 0;
    let n = v.len();
    while i < n
        invariant
            n == v@.len(),
            vw == str_views(v@),
            i <= n,
            forall|j: int| 0 <= j < i ==> vw[j] != s@,
        decreases n - i,
    {
        if text::str_eq(v[i].as_str(), s) {
            proof {
                assert(vw[i as int] == s@);
            }
            return true;
        }
        i += 1;
    }
    proof {
        if vw.contains(s@) {
            let j = choose|j: int| 0 <= j < vw.len() && vw[j] == s@;
            assert(vw[j] != s@);
        }
    }
    false
}

/// Whether every string of `a` also occurs in `b`.
fn scopes_subset(a: &Vec<String>, b: &Vec<String>) -> (r: bool)
    ensures
        r == forall|x: Seq<char>| #[trigger] str_views(a@).contains(x) ==> str_views(b@).contains(x),
{
    let ghost aw = str_views(a@);
    let ghost bw = str_views(b@);
    let mut i: usize = 0;
    let n = a.len();
    while i < n
        invariant
            n == a@.len(),
            aw == str_views(a@),
            bw == str_views(b@),
            i <= n,
            forall|j: int| 0 <= j < i ==> bw.contains(#[trigger] aw[j]),
        decreases n - i,
    {
        if !contains_str(b, a[i].as_str()) {
            proof {
                assert(aw.contains(aw[i as int]));
            }
            return false;
        }
        i += 1;
    }
    proof {
        assert forall|x: Seq<char>| #[trigger] aw.contains(x) implies bw.contains(x) by {
            let j = choose|j: int| 0 <= j < aw.len() && aw[j] == x;
            assert(bw.contains(aw[j]));
        }
    }
    true
}

impl CacheId {
    /// An identity from its parts.
    pub fn new(client_id: String, tenant_id: Option<String>, scopes: Vec<String>) -> (r: CacheId)
        ensures
            r == (CacheId { client_id, tenant_id, scopes }),
    {
        CacheId { client_id, tenant_id, scopes }
    }

    /// Whether the two identities index the same cache entry.
    pub fn matches(&self, other: &CacheId) -> (r: bool)
        ensures
            r == spec_matches(*self, *other),
    {
        let client_ok = text::str_eq(self.client_id.as_str(), other.client_id.as_str());
        if !client_ok {
            return false;
        }
        let tenant_ok = match (&self.tenant_id, &other.tenant_id) {
            (Some(x), Some(y)) => text::str_eq(x.as_str(), y.as_str()),
            (None, None) => true,
            _ => false,
        };
        if !tenant_ok {
            return false;
        }
        let fwd = scopes_subset(&self.scopes, &other.scopes);
        let bwd = scopes_subset(&other.scopes, &self.scopes);
        let r = fwd && bwd;
        proof {
            if r {
                assert forall|x: Seq<char>|
                    #![trigger scopes_view(*self).contains(x)]
                    #![trigger scopes_view(*other).contains(x)]
                    scopes_view(*self).contains(x) <==> scopes_view(*other).contains(x) by {
                    assert(str_views(self.scopes@).contains(x) ==> str_views(
                        other.scopes@,
                    ).contains(x));
                    assert(str_views(other.scopes@).contains(x) ==> str_views(
                        self.scopes@,
                    ).contains(x));
                }
            } else if spec_matches(*self, *other) {
                assert forall|x: Seq<char>| #[trigger]
                    str_views(self.scopes@).contains(x) implies str_views(
                    other.scopes@,
                ).contains(x) by {
                    assert(scopes_view(*self).contains(x) <==> scopes_view(*other).contains(x));
                }
                assert forall|x: Seq<char>| #[trigger]
                    str_views(other.scopes@).contains(x) implies str_views(
                    self.scopes@,
                ).contains(x) by {
                    assert(scopes_view(*self).contains(x) <==> scopes_view(*other).contains(x));
                }
            }
        }
        r
    }
}

/// The keyed token store: one entry per cache identity, overwritten on
/// refresh, never evicted for the life of the process. The last writer
/// wins; readers never observe a partial entry.
#[derive(Debug)]
pub struct TokenCache {
    entries: Vec<(CacheId, Token)>,
}

impl TokenCache {
    /// The entries as a sequence, oldest first.
    pub closed spec fn entries_seq(self) -> Seq<(CacheId, Token)> {
        self.entries@
    }

    /// Well-formed: no two entries share a matching identity.
    pub open spec fn wf(self) -> bool {
        forall|i: int, j: int|
            0 <= i < j < self.entries_seq().len() ==> !spec_matches(
                (#[trigger] self.entries_seq()[i]).0,
                (#[trigger] self.entries_seq()[j]).0,
            )
    }

    /// Some entry is stored under an identity matching `id`.
    pub open spec fn spec_has(self, id: CacheId) -> bool {
        exists|i: int|
            0 <= i < self.entries_seq().len() && spec_matches(
                (#[trigger] self.entries_seq()[i]).0,
                id,
            )
    }

    /// The token stored under `id`, if any.
    pub open spec fn spec_lookup(self, id: CacheId) -> Option<Token> {
        if self.spec_has(id) {
            let i = choose|i: int|
                0 <= i < self.entries_seq().len() && spec_matches(
                    (#[trigger] self.entries_seq()[i]).0,
                    id,
                );
            Some(self.entries_seq()[i].1)
        } else {
            None
        }
    }

    /// An empty cache.
    pub fn new() -> (r: TokenCache)
        ensures
            r.wf(),
            forall|id: CacheId| r.spec_lookup(id) is None,
    {
        TokenCache { entries: Vec::new() }
    }

    /// With no two entries matching, any entry matching `id` gives the
    /// lookup result.
    proof fn lemma_lookup_at(self, id: CacheId, i: int)
        requires
            self.wf(),
            0 <= i < self.entries_seq().len(),
            spec_matches(self.entries_seq()[i].0, id),
        ensures
            self.spec_lookup(id) == Some(self.entries_seq()[i].1),
    {
        let k = choose|k: int|
            0 <= k < self.entries_seq().len() && spec_matches(
                (#[trigger] self.entries_seq()[k]).0,
                id,
            );
        if k != i {
            lemma_matches_trans(self.entries_seq()[i].0, self.entries_seq()[k].0, id);
        }
    }

    /// Matching identities index the same entry.
    pub proof fn lemma_lookup_congruent(self, a: CacheId, b: CacheId)
        requires
            self.wf(),
            spec_matches(a, b),
        ensures
            self.spec_lookup(a) == self.spec_lookup(b),
    {
        lemma_matches_sym(a, b);
        if self.spec_has(a) {
            let i = choose|i: int|
                0 <= i < self.entries_seq().len() && spec_matches(
                    (#[trigger] self.entries_seq()[i]).0,
                    a,
                );
            lemma_matches_sym(a, b);
            lemma_matches_trans(self.entries_seq()[i].0, b, a);
            self.lemma_lookup_at(a, i);
            self.lemma_lookup_at(b, i);
        } else {
            if self.spec_has(b) {
                let i = choose|i: int|
                    0 <= i < self.entries_seq().len() && spec_matches(
                        (#[trigger] self.entries_seq()[i]).0,
                        b,
                    );
                lemma_matches_trans(self.entries_seq()[i].0, a, b);
            }
        }
    }

    /// A borrow of the token stored under `id`, if any.
    pub fn get(&self, id: &CacheId) -> (r: Option<&Token>)
        requires
            self.wf(),
        ensures
            match r {
                Some(t) => self.spec_lookup(*id) == Some(*t),
                None => self.spec_lookup(*id) is None,
            },
    {
        let mut i: usize = 0;
        let n = self.entries.len();
        while i < n
            invariant
                self.wf(),
                n == self.entries_seq().len(),
                i <= n,
                forall|j: int| 0 <= j < i ==> !spec_matches((#[trigger] self.entries_seq()[j]).0, *id),
            decreases n - i,
        {
            if self.entries[i].0.matches(id) {
                proof {
                    self.lemma_lookup_at(*id, i as int);
                }
                return Some(&self.entries[i].1);
            }
            i += 1;
        }
        None
    }

    /// Stores `token` under `id`, overwriting any entry whose identity
    /// matches; entries under other identities are untouched.
    pub fn store(&mut self, id: CacheId, token: Token)
        requires
            old(self).wf(),
        ensures
            final(self).wf(),
            final(self).spec_lookup(id) == Some(token),
            forall|q: CacheId|
                !spec_matches(q, id) ==> final(self).spec_lookup(q) == old(self).spec_lookup(q),
    {
        let ghost orig = self.entries@;
        let mut i: usize = 0;
        let n = self.entries.len();
        while i < n
            invariant
                self.entries@ == orig,
                old(self).wf(),
                orig == old(self).entries_seq(),
                n == orig.len(),
                i <= n,
                forall|j: int| 0 <= j < i ==> !spec_matches((#[trigger] orig[j]).0, id),
            decreases n - i,
        {
            if self.entries[i].0.matches(&id) {
                self.entries.remove(i);
                self.entries.push((id, token));
                proof {
                    orig.remove_ensures(i as int);
                    assert(self.entries@.drop_last() =~= orig.remove(i as int));
                    assert(self.entries@.last() == (id, token));
                    self.lemma_store_shape(*old(self), id, token, Some(i), orig);
                }
                return;
            }
            i += 1;
        }
        self.entries.push((id, token));
        proof {
            assert(self.entries@.drop_last() =~= orig);
            assert(self.entries@.last() == (id, token));
            self.lemma_store_shape(*old(self), id, token, None, orig);
        }
    }

    /// After appending `(id, token)` to the entries with any old match for
    /// `id` removed, the cache is well formed, finds `token` under `id`, and
    /// is unchanged under every other identity.
    proof fn lemma_store_shape(
        self,
        prev: TokenCache,
        id: CacheId,
        token: Token,
        removed: Option<usize>,
        orig: Seq<(CacheId, Token)>,
    )
        requires
            prev.wf(),
            prev.entries_seq() == orig,
            self.entries_seq().len() > 0,
            self.entries_seq().last() == (id, token),
            match removed {
                Some(k) => {
                    &&& 0 <= k < orig.len()
                    &&& spec_matches(orig[k as int].0, id)
                    &&& self.entries_seq().drop_last() == orig.remove(k as int)
                },
                None => {
                    &&& self.entries_seq().drop_last() == orig
                    &&& forall|j: int| 0 <= j < orig.len() ==> !spec_matches((#[trigger] orig[j]).0, id)
                },
            },
        ensures
            self.wf(),
            self.spec_lookup(id) == Some(token),
            forall|q: CacheId|
                !spec_matches(q, id) ==> self.spec_lookup(q) == prev.spec_lookup(q),
    {
        let new = self.entries_seq();
        let mid = new.drop_last();
        let last = new.len() - 1;
        if let Some(k) = removed {
            orig.remove_ensures(k as int);
        }
        // No kept entry matches `id`.
        assert forall|j: int| 0 <= j < last implies !spec_matches(
            (#[trigger] new[j]).0,
            id,
        ) by {
            assert(new[j] == mid[j]);
            match removed {
                Some(k) => {
                    let j0: int = if j < k { j } else { j + 1 };
                    assert(mid[j] == orig[j0]);
                    if spec_matches(orig[j0].0, id) {
                        lemma_matches_trans(orig[j0].0, orig[k as int].0, id);
                    }
                },
                None => {
                    assert(mid[j] == orig[j]);
                },
            }
        }
        // The kept entries stay pairwise non-matching.
        assert forall|p: int, q: int| 0 <= p < q < new.len() implies !spec_matches(
            (#[trigger] new[p]).0,
            (#[trigger] new[q]).0,
        ) by {
            if q < last {
                assert(new[p] == mid[p]);
                assert(new[q] == mid[q]);
                match removed {
                    Some(k) => {
                        let p0: int = if p < k { p } else { p + 1 };
                        let q0: int = if q < k { q } else { q + 1 };
                        assert(mid[p] == orig[p0]);
                        assert(mid[q] == orig[q0]);
                    },
                    None => {},
                }
            } else {
                assert(new[q].0 == id);
            }
        }
        assert(new[last].0 == id);
        self.lemma_lookup_at(id, last);
        assert forall|q: CacheId| !spec_matches(q, id) implies self.spec_lookup(q)
            == prev.spec_lookup(q) by {
            self.lemma_lookup_unchanged(prev, id, q, removed, orig);
        }
    }

    /// After a store under `id`, a lookup under a non-matching identity is
    /// unchanged.
    proof fn lemma_lookup_unchanged(
        self,
        prev: TokenCache,
        id: CacheId,
        q: CacheId,
        removed: Option<usize>,
        orig: Seq<(CacheId, Token)>,
    )
        requires
            prev.wf(),
            self.wf(),
            prev.entries_seq() == orig,
            !spec_matches(q, id),
            self.entries_seq().len() > 0,
            self.entries_seq().last().0 == id,
            match removed {
                Some(k) => {
                    &&& 0 <= k < orig.len()
                    &&& spec_matches(orig[k as int].0, id)
                    &&& self.entries_seq().drop_last() == orig.remove(k as int)
                },
                None => self.entries_seq().drop_last() == orig,
            },
        ensures
            self.spec_lookup(q) == prev.spec_lookup(q),
    {
        let new = self.entries_seq();
        let last = new.len() - 1;
        if spec_matches(new[last].0, q) {
            lemma_matches_sym(new[last].0, q);
        }
        if let Some(k) = removed {
            orig.remove_ensures(k as int);
        }
        if prev.spec_has(q) {
            let i = choose|i: int|
                0 <= i < orig.len() && spec_matches((#[trigger] orig[i]).0, q);
            match removed {
                Some(k) => {
                    if i == k {
                        lemma_matches_sym(orig[k as int].0, q);
                        lemma_matches_sym(orig[k as int].0, id);
                        lemma_matches_trans(q, id, orig[k as int].0);
                    }
                    let i_new: int = if i < k { i } else { i - 1 };
                    assert(new[i_new] == new.drop_last()[i_new]);
                    assert(new[i_new] == orig[i]);
                    prev.lemma_lookup_at(q, i);
                    self.lemma_lookup_at(q, i_new);
                },
                None => {
                    assert(new[i] == new.drop_last()[i]);
                    assert(new[i] == orig[i]);
                    prev.lemma_lookup_at(q, i);
                    self.lemma_lookup_at(q, i);
                },
            }
        } else {
            if self.spec_has(q) {
                let i = choose|i: int|
                    0 <= i < new.len() && spec_matches((#[trigger] new[i]).0, q);
                if i < last {
                    assert(new[i] == new.drop_last()[i]);
                    match removed {
                        Some(k) => {
                            let i0: int = if i < k { i } else { i + 1 };
                            assert(new[i] == orig[i0]);
                            assert(spec_matches(prev.entries_seq()[i0].0, q));
                        },
                        None => {
                            assert(new[i] == orig[i]);
                            assert(spec_matches(prev.entries_seq()[i].0, q));
                        },
                    }
                }
            }
        }
    }

    /// The token stored under `id`, provided it is not expired and will not
    /// expire within the refresh margin of `now`: a cache hit that needs no
    /// network call. `None` asks the caller to refresh.
    pub fn get_if_fresh(&self, id: &CacheId, now: u64) -> (r: Option<&Token>)
        requires
            self.wf(),
        ensures
            match r {
                Some(t) => {
                    &&& self.spec_lookup(*id) == Some(*t)
                    &&& !t.spec_is_expired_within(REFRESH_MARGIN_SECS, now)
                },
                None => match self.spec_lookup(*id) {
                    Some(t) => t.spec_is_expired_within(REFRESH_MARGIN_SECS, now),
                    None => true,
                },
            },
    {
        match self.get(id) {
            Some(t) => {
                if t.is_expired_within(REFRESH_MARGIN_SECS, now) {
                    None
                } else {
                    Some(t)
                }
            },
            None => None,
        }
    }
}

} // verus!

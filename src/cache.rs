//! The verification cache: digests of finished builds, and the builds in flight.
use vstd::prelude::*;
use crate::params::{identity_key, VerifyParams};
use crate::pipeline::{contains_parent_ref, has_parent_ref, VerifyError};

verus! {

pub type IdentityKey = (Seq<char>, Seq<char>, Seq<char>);

/// What the cache holds: a digest for each identity that was built, and the
/// identities whose build has started and not yet finished.
pub struct CacheModel {
    pub digests: Map<IdentityKey, Seq<char>>,
    pub pending: Set<IdentityKey>,
}

/// What a request should do for its identity.
pub enum Lookup {
    /// The digest is known.
    Hit(String),
    /// Nobody is building it: this request builds, then calls `finish`.
    Build,
    /// Another request is building it: ask again later.
    Wait,
}

pub ghost enum LookupKind {
    Hit(Seq<char>),
    Build,
    Wait,
}

pub open spec fn lookup_kind(l: Lookup) -> LookupKind {
    match l {
        Lookup::Hit(d) => LookupKind::Hit(d@),
        Lookup::Build => LookupKind::Build,
        Lookup::Wait => LookupKind::Wait,
    }
}

/// The state after a request asks for identity `k`, and what it is told.
pub open spec fn begin_spec(m: CacheModel, k: IdentityKey) -> (CacheModel, LookupKind) {
    if m.digests.contains_key(k) {
        (m, LookupKind::Hit(m.digests[k]))
    } else if m.pending.contains(k) {
        (m, LookupKind::Wait)
    } else {
        (CacheModel { digests: m.digests, pending: m.pending.insert(k) }, LookupKind::Build)
    }
}

/// The state after the build of `k` ends with the given digest, or fails (`None`).
/// An identity whose sub-path climbs out of its clone is never stored, and a
/// digest once stored is never replaced.
pub open spec fn finish_spec(m: CacheModel, k: IdentityKey, outcome: Option<Seq<char>>) -> CacheModel {
    CacheModel {
        digests: if outcome is Some && !has_parent_ref(k.1) && !m.digests.contains_key(k) {
            m.digests.insert(k, outcome->Some_0)
        } else {
            m.digests
        },
        pending: m.pending.remove(k),
    }
}

pub open spec fn outcome_digest(r: Result<String, VerifyError>) -> Option<Seq<char>> {
    match r {
        Ok(d) => Some(d@),
        Err(_) => None,
    }
}

/// The digest last stored for `k`.
pub open spec fn lookup_in(entries: Seq<(VerifyParams, String)>, k: IdentityKey) -> Option<Seq<char>>
    decreases entries.len(),
{
    if entries.len() == 0 {
        None
    } else if identity_key(entries.last().0) == k {
        Some(entries.last().1@)
    } else {
        lookup_in(entries.drop_last(), k)
    }
}

pub open spec fn in_list(ids: Seq<VerifyParams>, k: IdentityKey) -> bool
    decreases ids.len(),
{
    ids.len() > 0 && (identity_key(ids.last()) == k || in_list(ids.drop_last(), k))
}

proof fn lemma_lookup_push(entries: Seq<(VerifyParams, String)>, e: (VerifyParams, String), k: IdentityKey)
    ensures
        lookup_in(entries.push(e), k) == (if identity_key(e.0) == k {
            Some(e.1@)
        } else {
            lookup_in(entries, k)
        }),
{
    assert(entries.push(e).drop_last() =~= entries);
}

proof fn lemma_in_list_push(ids: Seq<VerifyParams>, x: VerifyParams, k: IdentityKey)
    ensures
        in_list(ids.push(x), k) == (identity_key(x) == k || in_list(ids, k)),
{
    assert(ids.push(x).drop_last() =~= ids);
}

/// Identities are kept in vectors and compared field by field: a std map keyed
/// by strings would rest on `String`'s hashing and ordering, of which Verus
/// proves nothing, while this lookup is proved against the model.
pub struct VerificationCache {
    entries: Vec<(VerifyParams, String)>,
    pending: Vec<VerifyParams>,
}

impl View for VerificationCache {
    type V = CacheModel;

    closed spec fn view(&self) -> CacheModel {
        CacheModel {
            digests: Map::new(
                |k: IdentityKey| lookup_in(self.entries@, k) is Some,
                |k: IdentityKey| lookup_in(self.entries@, k)->Some_0,
            ),
            pending: Set::new(|k: IdentityKey| in_list(self.pending@, k)),
        }
    }
}

impl VerificationCache {
    /// An empty cache.
    pub fn new() -> (r: VerificationCache)
        ensures
            r@.digests == Map::<IdentityKey, Seq<char>>::empty(),
            r@.pending == Set::<IdentityKey>::empty(),
            no_traversal_digests(r@),
    {
        let r = VerificationCache { entries: Vec::new(), pending: Vec::new() };
        assert(r@.digests =~= Map::<IdentityKey, Seq<char>>::empty());
        assert(r@.pending =~= Set::<IdentityKey>::empty());
        r
    }

    /// The digest cached for the identity, if any.
    pub fn get(&self, id: &VerifyParams) -> (r: Option<String>)
        ensures
            match r {
                Some(d) => self@.digests.contains_key(identity_key(*id))
                    && self@.digests[identity_key(*id)] == d@,
                None => !self@.digests.contains_key(identity_key(*id)),
            },
    {
        let ghost k = identity_key(*id);
        let mut i: usize = self.entries.len();
        assert(self.entries@.subrange(0, i as int) =~= self.entries@);
        while i > 0
            invariant
                i <= self.entries@.len(),
                k == identity_key(*id),
                lookup_in(self.entries@, k) == lookup_in(self.entries@.subrange(0, i as int), k),
            decreases i,
        {
            let ghost pre = self.entries@.subrange(0, i as int);
            assert(pre.drop_last() =~= self.entries@.subrange(0, i - 1));
            assert(pre.last() == self.entries@[i - 1]);
            if self.entries[i - 1].0.same_identity(id) {
                return Some(self.entries[i - 1].1.clone());
            }
            i = i - 1;
        }
        None
    }

    fn is_pending(&self, id: &VerifyParams) -> (r: bool)
        ensures
            r == self@.pending.contains(identity_key(*id)),
    {
        let ghost k = identity_key(*id);
        let mut i: usize = self.pending.len();
        assert(self.pending@.subrange(0, i as int) =~= self.pending@);
        while i > 0
            invariant
                i <= self.pending@.len(),
                k == identity_key(*id),
                in_list(self.pending@, k) == in_list(self.pending@.subrange(0, i as int), k),
            decreases i,
        {
            let ghost pre = self.pending@.subrange(0, i as int);
            assert(pre.drop_last() =~= self.pending@.subrange(0, i - 1));
            if self.pending[i - 1].same_identity(id) {
                return true;
            }
            i = i - 1;
        }
        false
    }

    /// Looks the identity up. On a miss with no build in flight, marks it in
    /// flight and tells the caller to build; with one in flight, to wait.
    pub fn begin(&mut self, id: &VerifyParams) -> (r: Lookup)
        ensures
            (final(self)@, lookup_kind(r)) == begin_spec(old(self)@, identity_key(*id)),
    {
        match self.get(id) {
            Some(d) => Lookup::Hit(d),
            None => {
                if self.is_pending(id) {
                    Lookup::Wait
                } else {
                    let ghost before = self@;
                    self.pending.push(id.duplicate());
                    proof {
                        assert forall|k: IdentityKey| #[trigger] self@.pending.contains(k)
                            == before.pending.insert(identity_key(*id)).contains(k) by {
                            lemma_in_list_push(old(self).pending@, self.pending@.last(), k);
                            assert(old(self).pending@.push(self.pending@.last()) =~= self.pending@);
                        }
                        assert(self@.pending =~= before.pending.insert(identity_key(*id)));
                        assert(self@.digests =~= before.digests);
                    }
                    Lookup::Build
                }
            },
        }
    }

    /// Ends the build of the identity: it is no longer in flight, and a digest
    /// is stored only where the build succeeded. Hands the outcome back.
    pub fn finish(&mut self, id: &VerifyParams, outcome: Result<String, VerifyError>) -> (r: Result<String, VerifyError>)
        ensures
            final(self)@ == finish_spec(old(self)@, identity_key(*id), outcome_digest(outcome)),
            has_parent_ref(id.path@) ==> final(self)@.digests == old(self)@.digests,
            r == outcome,
    {
        let ghost k = identity_key(*id);
        let ghost old_entries = self.entries@;
        let mut kept: Vec<VerifyParams> = Vec::new();
        let mut i: usize = 0;
        while i < self.pending.len()
            invariant
                i <= self.pending@.len(),
                self.entries@ == old_entries,
                k == identity_key(*id),
                self.pending@ == old(self).pending@,
                forall|j: IdentityKey| #[trigger] in_list(kept@, j)
                    == (j != k && in_list(self.pending@.subrange(0, i as int), j)),
            decreases self.pending@.len() - i,
        {
            let ghost pre = self.pending@.subrange(0, i as int);
            assert(self.pending@.subrange(0, i + 1) =~= pre.push(self.pending@[i as int]));
            let ghost kept_before = kept@;
            if !self.pending[i].same_identity(id) {
                kept.push(self.pending[i].duplicate());
            }
            proof {
                assert forall|j: IdentityKey| #[trigger] in_list(kept@, j)
                    == (j != k && in_list(self.pending@.subrange(0, i + 1), j)) by {
                    lemma_in_list_push(pre, self.pending@[i as int], j);
                    if kept@.len() > kept_before.len() {
                        assert(kept_before.push(kept@.last()) =~= kept@);
                        lemma_in_list_push(kept_before, kept@.last(), j);
                    }
                }
            }
            i = i + 1;
        }
        assert(self.pending@.subrange(0, i as int) =~= self.pending@);
        self.pending = kept;
        let ghost mid = self@;
        assert(mid.pending =~= old(self)@.pending.remove(k));
        assert(mid.digests =~= old(self)@.digests);
        match outcome {
            Ok(d) => if contains_parent_ref(id.path.as_str()) || self.get(id).is_some() {
                Ok(d)
            } else {
                self.entries.push((id.duplicate(), d.clone()));
                proof {
                    assert(old_entries.push(self.entries@.last()) =~= self.entries@);
                    assert forall|j: IdentityKey| #[trigger] lookup_in(self.entries@, j)
                        == (if k == j { Some(d@) } else { lookup_in(old_entries, j) }) by {
                        lemma_lookup_push(old_entries, self.entries@.last(), j);
                    }
                    assert(self@.digests =~= old(self)@.digests.insert(k, d@));
                }
                Ok(d)
            },
            Err(e) => Err(e),
        }
    }
}

/// Once a build of `k` has stored its digest, asking for `k` again returns that
/// digest and changes nothing: no second build is started.
pub proof fn law_cached_digest_is_reused(m: CacheModel, k: IdentityKey, d: Seq<char>)
    requires
        !has_parent_ref(k.1),
        !m.digests.contains_key(k),
    ensures
        ({
            let stored = finish_spec(m, k, Some(d));
            begin_spec(stored, k) == (stored, LookupKind::Hit(d))
        }),
{
}

/// Finishing the build of one identity never changes what is cached, or in
/// flight, for another, however many fields the two share.
pub proof fn law_identities_are_isolated(
    m: CacheModel,
    ka: IdentityKey,
    kb: IdentityKey,
    outcome: Option<Seq<char>>,
)
    requires
        ka != kb,
    ensures
        finish_spec(m, kb, outcome).digests.contains_key(ka) == m.digests.contains_key(ka),
        finish_spec(m, kb, outcome).digests[ka] == m.digests[ka],
        finish_spec(m, kb, outcome).pending.contains(ka) == m.pending.contains(ka),
        begin_spec(finish_spec(m, kb, outcome), ka).1 == begin_spec(m, ka).1,
{
}

/// A failed build stores nothing; the next request for the identity builds
/// again, and a success then stores its digest.
pub proof fn law_failure_is_not_cached(m: CacheModel, k: IdentityKey, d: Seq<char>)
    requires
        !m.digests.contains_key(k),
        !has_parent_ref(k.1),
    ensures
        finish_spec(m, k, None).digests == m.digests,
        begin_spec(finish_spec(m, k, None), k).1 == LookupKind::Build,
        ({
            let retried = begin_spec(finish_spec(m, k, None), k).0;
            finish_spec(retried, k, Some(d)).digests == m.digests.insert(k, d)
        }),
{
}

/// A request is told to build only when the identity is neither cached nor in
/// flight, and from then on it is in flight.
pub proof fn law_build_only_when_absent(m: CacheModel, k: IdentityKey)
    ensures
        begin_spec(m, k).1 == LookupKind::Build ==> !m.digests.contains_key(k) && !m.pending.contains(k)
            && begin_spec(m, k).0.pending.contains(k),
{
}

/// While a build of `k` is in flight, every further request for `k` is told to
/// wait and leaves the cache as it was: concurrent requests start one build.
pub proof fn law_in_flight_identity_waits(m: CacheModel, k: IdentityKey)
    requires
        m.pending.contains(k),
        !m.digests.contains_key(k),
    ensures
        begin_spec(m, k) == (m, LookupKind::Wait),
{
}

/// No stored digest belongs to a sub-path that climbs out of its clone.
pub open spec fn no_traversal_digests(m: CacheModel) -> bool {
    forall|k: IdentityKey| #[trigger] m.digests.contains_key(k) ==> !has_parent_ref(k.1)
}

/// A cache that starts empty never stores a digest for a sub-path holding a
/// parent-directory step, so such a request is never answered from it.
pub proof fn law_traversal_is_never_answered(m: CacheModel, k: IdentityKey, j: IdentityKey, outcome: Option<Seq<char>>)
    requires
        no_traversal_digests(m),
    ensures
        no_traversal_digests(begin_spec(m, j).0),
        no_traversal_digests(finish_spec(m, j, outcome)),
        has_parent_ref(k.1) ==> !(begin_spec(m, k).1 is Hit),
{
}

/// A request for an identity that is neither cached nor in flight builds it
/// and gets the new digest, never the one cached for another identity, and that
/// other entry stays as it was.
pub proof fn law_fresh_identity_is_built(m: CacheModel, ka: IdentityKey, kb: IdentityKey, d: Seq<char>)
    requires
        ka != kb,
        !m.digests.contains_key(ka),
        !m.pending.contains(ka),
        !has_parent_ref(ka.1),
    ensures
        begin_spec(m, ka).1 == LookupKind::Build,
        ({
            let built = finish_spec(begin_spec(m, ka).0, ka, Some(d));
            &&& built.digests.contains_key(ka)
            &&& built.digests[ka] == d
            &&& built.digests.contains_key(kb) == m.digests.contains_key(kb)
            &&& built.digests[kb] == m.digests[kb]
        }),
{
}

/// How many of `n` successive requests for `k`, with no build finishing in
/// between, are told to build.
pub open spec fn builds_started(m: CacheModel, k: IdentityKey, n: nat) -> nat
    decreases n,
{
    if n == 0 {
        0
    } else {
        let (next, told) = begin_spec(m, k);
        (if told == LookupKind::Build { 1nat } else { 0nat }) + builds_started(next, k, (n - 1) as nat)
    }
}

proof fn lemma_no_build_while_in_flight(m: CacheModel, k: IdentityKey, n: nat)
    requires
        m.pending.contains(k),
        !m.digests.contains_key(k),
    ensures
        builds_started(m, k, n) == 0,
    decreases n,
{
    if n > 0 {
        lemma_no_build_while_in_flight(m, k, (n - 1) as nat);
    }
}

/// Once an identity's digest is stored, any number of further requests for it
/// start no build, and each is answered with that same digest.
pub proof fn law_cached_identity_never_rebuilds(m: CacheModel, k: IdentityKey, n: nat)
    requires
        m.digests.contains_key(k),
    ensures
        builds_started(m, k, n) == 0,
        begin_spec(m, k) == (m, LookupKind::Hit(m.digests[k])),
    decreases n,
{
    if n > 0 {
        law_cached_identity_never_rebuilds(m, k, (n - 1) as nat);
    }
}

/// However many requests for one identity arrive before any build of it
/// finishes, at most one of them starts a build.
pub proof fn law_at_most_one_build(m: CacheModel, k: IdentityKey, n: nat)
    ensures
        builds_started(m, k, n) <= 1,
    decreases n,
{
    if n > 0 {
        let (next, told) = begin_spec(m, k);
        if told == LookupKind::Build {
            lemma_no_build_while_in_flight(next, k, (n - 1) as nat);
        } else {
            law_at_most_one_build(m, k, (n - 1) as nat);
        }
    }
}

} // verus!

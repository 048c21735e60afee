use vstd::prelude::*;

use std::sync::Arc;

use crate::config::{key_model, BackendConfig, CacheKey, KeyModel};

verus! {

/// The cache and the handle after resolving identity `k` in cache `m`, where
/// `fresh` is the handle that would be built on a miss: a cached handle is
/// returned as it is and the cache is left alone; otherwise `fresh` is
/// stored and returned.
pub open spec fn resolved<H>(m: Map<KeyModel, H>, k: KeyModel, fresh: H) -> (Map<KeyModel, H>, H) {
    if m.contains_key(k) {
        (m, m[k])
    } else {
        (m.insert(k, fresh), fresh)
    }
}

/// A cache of backend clients keyed by configuration identity. Each client
/// is built at most once and then shared through a reference-counted handle;
/// entries are never evicted.
pub struct ClientRegistry<H> {
    entries: Vec<(CacheKey, Arc<H>)>,
    handles: Ghost<Map<KeyModel, H>>,
}

impl<H> View for ClientRegistry<H> {
    type V = Map<KeyModel, H>;

    closed spec fn view(&self) -> Map<KeyModel, H> {
        self.handles@
    }
}

impl<H> ClientRegistry<H> {
    /// The entries hold exactly the cached identities, each once, with their
    /// handles.
    pub closed spec fn wf(&self) -> bool {
        &&& forall|i: int|
            0 <= i < self.entries@.len() ==> {
                &&& #[trigger] self.handles@.contains_key(self.entries@[i].0.model())
                &&& self.handles@[self.entries@[i].0.model()] == *self.entries@[i].1
            }
        &&& forall|k: KeyModel|
            #[trigger] self.handles@.contains_key(k) ==> exists|i: int|
                0 <= i < self.entries@.len() && self.entries@[i].0.model() == k
        &&& forall|i: int, j: int|
            0 <= i < j < self.entries@.len() ==> #[trigger] self.entries@[i].0.model()
                != #[trigger] self.entries@[j].0.model()
    }

    /// An empty cache.
    pub fn new() -> (r: Self)
        ensures
            r.wf(),
            r@ == Map::<KeyModel, H>::empty(),
    {
        ClientRegistry { entries: Vec::new(), handles: Ghost(Map::empty()) }
    }

    fn find(&self, key: &CacheKey) -> (r: Option<usize>)
        requires
            self.wf(),
        ensures
            r matches Some(i) ==> i < self.entries@.len() && self.entries@[i as int].0.model()
                == key.model(),
            r is None ==> !self@.contains_key(key.model()),
    {
        let mut i: usize = 0;
        while i < self.entries.len()
            invariant
                self.wf(),
                i <= self.entries@.len(),
                forall|j: int| 0 <= j < i ==> self.entries@[j].0.model() != key.model(),
            decreases self.entries@.len() - i,
        {
            if self.entries[i].0.same_as(key) {
                return Some(i);
            }
            i += 1;
        }
        None
    }

    /// The cached handle for the identity of `config`, if any.
    pub fn get(&self, config: &BackendConfig) -> (r: Option<Arc<H>>)
        requires
            self.wf(),
        ensures
            r is None <==> !self@.contains_key(key_model(*config)),
            r matches Some(h) ==> *h == self@[key_model(*config)],
    {
        let key = config.cache_key();
        match self.find(&key) {
            Some(i) => Some(self.entries[i].1.clone()),
            None => None,
        }
    }

    /// The handle for the identity of `config`: the cached one, or else the
    /// one that `build` makes, which is then cached. `build` runs only on a
    /// miss.
    pub fn get_or_insert_with<F: FnOnce() -> H>(&mut self, config: &BackendConfig, build: F) -> (r:
        Arc<H>)
        requires
            old(self).wf(),
            !old(self)@.contains_key(key_model(*config)) ==> build.requires(()),
        ensures
            final(self).wf(),
            (final(self)@, *r) == resolved(old(self)@, key_model(*config), *r),
            old(self)@.contains_key(key_model(*config)) ==> *r == old(self)@[key_model(*config)],
            !old(self)@.contains_key(key_model(*config)) ==> build.ensures((), *r),
    {
        let key = config.cache_key();
        match self.find(&key) {
            Some(i) => self.entries[i].1.clone(),
            None => {
                let built = build();
                let ghost value = built;
                let h = Arc::new(built);
                let ghost k = key.model();
                let ghost old_entries = self.entries@;
                self.entries.push((key, h.clone()));
                let ghost updated = self.handles@.insert(k, value);
                self.handles = Ghost(updated);
                proof {
                    assert forall|q: KeyModel| #[trigger] self.handles@.contains_key(q) implies exists|
                        i: int,
                    | 0 <= i < self.entries@.len() && self.entries@[i].0.model() == q by {
                        if q == k {
                            assert(self.entries@[old_entries.len() as int].0.model() == q);
                        } else {
                            assert(old(self).handles@.contains_key(q));
                            let i = choose|i: int|
                                0 <= i < old_entries.len() && old_entries[i].0.model() == q;
                            assert(self.entries@[i] == old_entries[i]);
                        }
                    }
                }
                h
            },
        }
    }
}

/// Two resolutions with configurations of one identity give one handle: the
/// second finds what the first stored, and stores nothing.
pub proof fn law_same_identity_shares_handle<H>(
    m: Map<KeyModel, H>,
    c1: BackendConfig,
    c2: BackendConfig,
    fresh1: H,
    fresh2: H,
)
    requires
        key_model(c1) == key_model(c2),
    ensures
        ({
            let first = resolved(m, key_model(c1), fresh1);
            let second = resolved(first.0, key_model(c2), fresh2);
            second.1 == first.1 && second.0 == first.0
        }),
{
}

/// Two S3 configurations that differ in profile (neither anonymous) have
/// distinct identities: after the first is resolved, resolving the second
/// on a cache that did not hold it stores and returns its own new handle,
/// and keeps the first.
pub proof fn law_distinct_profiles_distinct_handles<H>(
    m: Map<KeyModel, H>,
    c1: BackendConfig,
    c2: BackendConfig,
    fresh1: H,
    fresh2: H,
)
    requires
        c1.kind == c2.kind,
        c1.kind == crate::config::BackendKind::S3,
        !c1.anonymous,
        !c2.anonymous,
        crate::config::opt_view(c1.profile) != crate::config::opt_view(c2.profile),
        !m.contains_key(key_model(c2)),
    ensures
        key_model(c1) != key_model(c2),
        ({
            let first = resolved(m, key_model(c1), fresh1);
            let second = resolved(first.0, key_model(c2), fresh2);
            &&& second.1 == fresh2
            &&& second.0[key_model(c1)] == first.1
        }),
{
}

} // verus!

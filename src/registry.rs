use vstd::prelude::*;

verus! {

/// The largest number of component types a registry holds.
pub const MAX_COMPONENTS: usize = 0xffff_ffff;

/// Maps component type keys to stable numeric identifiers, registering a
/// type on first use. Identifiers start at 1, in order of registration.
pub struct ComponentRegistry {
    keys: Vec<u64>,
}

impl View for ComponentRegistry {
    type V = Map<u64, u64>;

    closed spec fn view(&self) -> Map<u64, u64> {
        Map::new(|k: u64| self.keys@.contains(k), |k: u64| (self.keys@.index_of(k) + 1) as u64)
    }
}

impl ComponentRegistry {
    pub closed spec fn wf(&self) -> bool {
        &&& self.keys@.no_duplicates()
        &&& self.keys@.len() <= MAX_COMPONENTS
    }

    /// The number of registered component types.
    pub closed spec fn spec_len(&self) -> nat {
        self.keys@.len()
    }

    /// An empty registry.
    pub fn new() -> (r: ComponentRegistry)
        ensures
            r.wf(),
            r@ == Map::<u64, u64>::empty(),
            r.spec_len() == 0,
    {
        let r = ComponentRegistry { keys: Vec::new() };
        assert(r@ =~= Map::<u64, u64>::empty());
        r
    }

    /// The number of registered component types.
    pub fn len(&self) -> (r: usize)
        ensures
            r == self.spec_len(),
    {
        self.keys.len()
    }

    proof fn lemma_index_of(&self, i: int)
        requires
            self.wf(),
            0 <= i < self.keys@.len(),
        ensures
            self@.contains_key(self.keys@[i]),
            self@[self.keys@[i]] == i + 1,
    {
        let k = self.keys@[i];
        assert(self.keys@.contains(k));
        let j = self.keys@.index_of(k);
        assert(0 <= j < self.keys@.len() && self.keys@[j] == k);
    }

    /// Every identifier lies between 1 and the number of registered types.
    pub proof fn lemma_id_range(&self, k: u64)
        requires
            self.wf(),
            self@.contains_key(k),
        ensures
            1 <= self@[k] <= self.spec_len(),
    {
        let j = self.keys@.index_of(k);
        assert(0 <= j < self.keys@.len() && self.keys@[j] == k);
    }

    /// The identifier of the component type `key`, registering it first if
    /// it is new. `None` only when `key` is new and the registry is full.
    pub fn resolve_identifier(&mut self, key: u64) -> (r: Option<u64>)
        requires
            old(self).wf(),
        ensures
            final(self).wf(),
            old(self)@.contains_key(key) ==> r == Some(old(self)@[key]) && final(self)@ == old(
                self,
            )@ && final(self).spec_len() == old(self).spec_len(),
            !old(self)@.contains_key(key) && old(self).spec_len() < MAX_COMPONENTS ==> {
                &&& r matches Some(id)
                &&& final(self)@ == old(self)@.insert(key, id)
                &&& final(self).spec_len() == old(self).spec_len() + 1
                &&& forall|k: u64| #[trigger] old(self)@.contains_key(k) ==> old(self)@[k] != id
            },
            !old(self)@.contains_key(key) && old(self).spec_len() >= MAX_COMPONENTS ==> r.is_none()
                && final(self)@ == old(self)@ && final(self).spec_len() == old(self).spec_len(),
    {
        let n = self.keys.len();
        let mut i: usize = 0;
        while i < n
            invariant
                n == self.keys@.len(),
                self.wf(),
                0 <= i <= n,
                forall|j: int| 0 <= j < i ==> self.keys@[j] != key,
            decreases n - i,
        {
            if self.keys[i] == key {
                proof {
                    self.lemma_index_of(i as int);
                }
                return Some(i as u64 + 1);
            }
            i = i + 1;
        }
        if n >= MAX_COMPONENTS {
            return None;
        }
        let ghost prev = *self;
        self.keys.push(key);
        let id = n as u64 + 1;
        proof {
            assert(self.keys@ == prev.keys@.push(key));
            assert(self.keys@.no_duplicates()) by {
                assert forall|a: int, b: int|
                    0 <= a < self.keys@.len() && 0 <= b < self.keys@.len() && a != b implies self.keys@[a]
                    != self.keys@[b] by {
                    if a < n && b < n {
                        assert(prev.keys@[a] != prev.keys@[b]);
                    }
                }
            }
            assert forall|k: u64| #[trigger] prev@.contains_key(k) implies prev@[k] != id by {
                prev.lemma_id_range(k);
            }
            assert forall|k: u64| #[trigger] self@.contains_key(k) implies self@[k] == prev@.insert(
                key,
                id,
            )[k] by {
                if k == key {
                    self.lemma_index_of(n as int);
                } else {
                    let j = self.keys@.index_of(k);
                    assert(0 <= j < self.keys@.len() && self.keys@[j] == k);
                    assert(j < n);
                    prev.lemma_index_of(j);
                    self.lemma_index_of(j);
                }
            }
            assert forall|k: u64| prev@.insert(key, id).contains_key(k) implies #[trigger] self@.contains_key(k) by {
                if k != key {
                    let j = prev.keys@.index_of(k);
                    assert(0 <= j < prev.keys@.len() && prev.keys@[j] == k);
                    assert(self.keys@[j] == k);
                } else {
                    assert(self.keys@[n as int] == key);
                }
            }
            assert forall|k: u64| #[trigger] self@.contains_key(k) implies prev@.insert(key, id).contains_key(k) by {
                let j = self.keys@.index_of(k);
                assert(0 <= j < self.keys@.len() && self.keys@[j] == k);
                if j < n {
                    assert(prev.keys@[j] == k);
                }
            }
            assert(self@ =~= prev@.insert(key, id));
        }
        Some(id)
    }
}

} // verus!

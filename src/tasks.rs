use vstd::prelude::*;

verus! {

/// Relies on uuid::Uuid::new_v4: a random identifier, read as its 128-bit value.
#[verifier::external_body]
pub(crate) fn new_task_id() -> u128 {
    uuid::Uuid::new_v4().as_u128()
}

/// The identifiers of the background fetches of one class that are still
/// authoritative: a result is trusted only while its fetch is registered here.
#[derive(Clone, Debug)]
pub struct TaskRegistry {
    ids: Vec<u128>,
}

impl TaskRegistry {
    /// The registered identifiers.
    pub closed spec fn live(self) -> Set<u128> {
        self.ids@.to_set()
    }

    pub fn new() -> (r: TaskRegistry)
        ensures
            r.live() == Set::<u128>::empty(),
    {
        let r = TaskRegistry { ids: Vec::new() };
        assert(r.live() =~= Set::<u128>::empty());
        r
    }

    /// Whether `id` is registered.
    pub fn contains(&self, id: u128) -> (r: bool)
        ensures
            r == self.live().contains(id),
    {
        let mut i: usize = 0;
        while i < self.ids.len()
            invariant
                i <= self.ids@.len(),
                forall|j: int| 0 <= j < i ==> self.ids@[j] != id,
            decreases self.ids@.len() - i,
        {
            if self.ids[i] == id {
                assert(self.ids@.contains(id));
                return true;
            }
            i += 1;
        }
        false
    }

    /// Whether no fetch is registered.
    pub fn is_empty(&self) -> (r: bool)
        ensures
            r == (self.live() == Set::<u128>::empty()),
    {
        if self.ids.len() == 0 {
            assert(self.live() =~= Set::<u128>::empty());
            true
        } else {
            assert(self.live().contains(self.ids@[0]));
            false
        }
    }

    /// Registers a fetch.
    pub fn register(&mut self, id: u128)
        ensures
            final(self).live() == old(self).live().insert(id),
    {
        let ghost o = self.ids@;
        self.ids.push(id);
        proof {
            let n = self.ids@;
            assert forall|x: u128| #[trigger] n.contains(x) == (o.contains(x) || x == id) by {
                if o.contains(x) {
                    let j = choose|j: int| 0 <= j < o.len() && o[j] == x;
                    assert(n[j] == x);
                }
                if x == id {
                    assert(n[o.len() as int] == x);
                }
                if n.contains(x) && x != id {
                    let j = choose|j: int| 0 <= j < n.len() && n[j] == x;
                    assert(o[j] == x);
                }
            }
            assert(self.live() =~= old(self).live().insert(id));
        }
    }

    /// An identifier that is not registered: `candidate` when it is free,
    /// otherwise the smallest free number.
    pub fn fresh_id(&self, candidate: u128) -> (r: u128)
        ensures
            !self.live().contains(r),
            !self.live().contains(candidate) ==> r == candidate,
    {
        if !self.contains(candidate) {
            return candidate;
        }
        let n = self.ids.len();
        let mut k: usize = 0;
        while k < n
            invariant
                n == self.ids@.len(),
                k <= n,
                self.live().contains(candidate),
                forall|j: int| 0 <= j < k ==> #[trigger] self.ids@.contains(j as u128),
            decreases n - k,
        {
            if !self.contains(k as u128) {
                return k as u128;
            }
            k += 1;
        }
        if !self.contains(n as u128) {
            return n as u128;
        }
        proof {
            assert(n <= usize::MAX);
            lemma_some_small_number_free(self.ids@);
            let j = choose|j: int| 0 <= j <= self.ids@.len() && !(#[trigger] self.ids@.contains(j as u128));
            if j < n {
                assert(self.ids@.contains(j as u128));
            }
        }
        0
    }

    /// Forgets a fetch; says whether it was registered.
    pub fn remove(&mut self, id: u128) -> (r: bool)
        ensures
            r == old(self).live().contains(id),
            final(self).live() == old(self).live().remove(id),
    {
        let ghost o = self.ids@;
        let mut kept: Vec<u128> = Vec::new();
        let mut found = false;
        let mut i: usize = 0;
        while i < self.ids.len()
            invariant
                self.ids@ == o,
                i <= o.len(),
                found == o.take(i as int).contains(id),
                forall|x: u128| #[trigger] kept@.contains(x) == (o.take(i as int).contains(x) && x != id),
            decreases o.len() - i,
        {
            let x = self.ids[i];
            proof {
                let t0 = o.take(i as int);
                let t1 = o.take(i + 1);
                assert forall|y: u128| #[trigger] t1.contains(y) == (t0.contains(y) || y == x) by {
                    if t1.contains(y) {
                        let j = choose|j: int| 0 <= j < t1.len() && t1[j] == y;
                        if j < i {
                            assert(t0[j] == y);
                        }
                    }
                    if t0.contains(y) {
                        let j = choose|j: int| 0 <= j < t0.len() && t0[j] == y;
                        assert(t1[j] == y);
                    }
                    if y == x {
                        assert(t1[i as int] == y);
                    }
                }
            }
            if x == id {
                found = true;
            } else {
                let ghost k = kept@;
                kept.push(x);
                proof {
                    let n = kept@;
                    assert forall|y: u128| #[trigger] n.contains(y) == (k.contains(y) || y == x) by {
                        if n.contains(y) {
                            let j = choose|j: int| 0 <= j < n.len() && n[j] == y;
                            if j < k.len() {
                                assert(k[j] == y);
                            }
                        }
                        if k.contains(y) {
                            let j = choose|j: int| 0 <= j < k.len() && k[j] == y;
                            assert(n[j] == y);
                        }
                        if y == x {
                            assert(n[k.len() as int] == y);
                        }
                    }
                }
            }
            i += 1;
        }
        assert(o.take(o.len() as int) =~= o);
        self.ids = kept;
        assert(self.live() =~= old(self).live().remove(id));
        found
    }

    /// Forgets every registered fetch and returns their identifiers, so that
    /// the caller can abort them.
    pub fn cancel_all(&mut self) -> (r: Vec<u128>)
        ensures
            r@.to_set() == old(self).live(),
            final(self).live() == Set::<u128>::empty(),
    {
        let mut r: Vec<u128> = Vec::new();
        std::mem::swap(&mut r, &mut self.ids);
        assert(self.live() =~= Set::<u128>::empty());
        r
    }
}

/// A sequence of `n` identifiers misses some number of `0..=n`.
proof fn lemma_some_small_number_free(ids: Seq<u128>)
    requires
        ids.len() < u128::MAX,
    ensures
        exists|j: int| 0 <= j <= ids.len() && !(#[trigger] ids.contains(j as u128)),
{
    if forall|j: int| 0 <= j <= ids.len() ==> #[trigger] ids.contains(j as u128) {
        let n = ids.len() as int;
        let ints = ids.map_values(|x: u128| x as int);
        let range = vstd::set_lib::set_int_range(0, n + 1);
        assert forall|i: int| range.contains(i) implies #[trigger] ints.to_set().contains(i) by {
            assert(0 <= i <= n);
            assert(ids.contains(i as u128));
            let j = choose|j: int| 0 <= j < ids.len() && ids[j] == i as u128;
            assert(ints[j] == i);
        }
        vstd::set_lib::lemma_int_range(0, n + 1);
        vstd::seq_lib::seq_to_set_is_finite(ints);
        vstd::set_lib::lemma_len_subset(range, ints.to_set());
        ints.lemma_cardinality_of_set();
    }
}

impl Default for TaskRegistry {
    fn default() -> (r: TaskRegistry)
        ensures
            r.live() == Set::<u128>::empty(),
    {
        TaskRegistry::new()
    }
}

} // verus!

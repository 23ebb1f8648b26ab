//! Per-CPU store: one isolated value per core.
//!
//! The boot core populates the store once, before any other core is
//! released; a readiness flag gates every read.  Each core then reads
//! only its own slot.  Reading before the store is ready, or reading an
//! id the store does not hold, is a boot-ordering error the caller must
//! rule out.

use vstd::prelude::*;

use crate::smp::lemma_first_index_unique;
use crate::smp::spec_first_index;

verus! {

/// The id list with later duplicates dropped: first occurrences, in order.
pub open spec fn spec_unique_ids(s: Seq<usize>) -> Seq<usize>
    decreases s.len(),
{
    if s.len() == 0 {
        Seq::empty()
    } else {
        let rest = spec_unique_ids(s.drop_last());
        if rest.contains(s.last()) {
            rest
        } else {
            rest.push(s.last())
        }
    }
}

/// An id survives duplicate-dropping exactly when the input list holds it.
pub proof fn lemma_unique_ids_contains(s: Seq<usize>, id: usize)
    ensures
        spec_unique_ids(s).contains(id) <==> s.contains(id),
    decreases s.len(),
{
    if s.len() == 0 {
    } else {
        let prefix = s.drop_last();
        lemma_unique_ids_contains(prefix, id);
        let rest = spec_unique_ids(prefix);
        let out = spec_unique_ids(s);
        if s.contains(id) {
            let k = choose|k: int| 0 <= k < s.len() && s[k] == id;
            if k < s.len() - 1 {
                assert(prefix[k] == id);
                assert(prefix.contains(id));
                let j = choose|j: int| 0 <= j < rest.len() && rest[j] == id;
                if rest.contains(s.last()) {
                } else {
                    assert(rest.push(s.last())[j] == id);
                }
            } else {
                if rest.contains(s.last()) {
                } else {
                    let p = rest.push(s.last());
                    assert(p[p.len() - 1] == id);
                }
            }
            assert(out.contains(id));
        }
        if out.contains(id) {
            let j = choose|j: int| 0 <= j < out.len() && out[j] == id;
            if rest.contains(s.last()) {
                assert(rest.contains(id));
                let m = choose|m: int| 0 <= m < prefix.len() && prefix[m] == id;
                assert(s[m] == id);
            } else {
                if j < rest.len() {
                    assert(rest[j] == id);
                    let m = choose|m: int| 0 <= m < prefix.len() && prefix[m] == id;
                    assert(s[m] == id);
                } else {
                    assert(id == s.last());
                    assert(s[s.len() - 1] == id);
                }
            }
        }
    }
}

/// Mapping from physical core id to that core's own instance of `T`.
pub struct PerCpu<T> {
    ids: Vec<usize>,
    vals: Vec<T>,
    ready: bool,
}

impl<T> PerCpu<T> {
    /// Whether the one-time cold population has completed.
    pub closed spec fn ready(&self) -> bool {
        self.ready
    }

    /// The ids the store holds slots for, in insertion order.
    pub closed spec fn id_seq(&self) -> Seq<usize> {
        self.ids@
    }

    /// The stored values, positionally matching `id_seq`.
    pub closed spec fn val_seq(&self) -> Seq<T> {
        self.vals@
    }

    /// One value per id, and no id twice.
    pub open spec fn wf(&self) -> bool {
        &&& self.id_seq().len() == self.val_seq().len()
        &&& forall|i: int, j: int|
            0 <= i < j < self.id_seq().len() ==> self.id_seq()[i] != self.id_seq()[j]
    }

    /// Whether the store holds a slot for `id`.
    pub open spec fn contains_id(&self, id: usize) -> bool {
        self.id_seq().contains(id)
    }

    /// The value stored for `id`.
    pub open spec fn stored(&self, id: usize) -> T {
        self.val_seq()[spec_first_index(self.id_seq(), id)]
    }

    /// An empty store, not yet ready: every read is refused until the
    /// boot core has run `cpu0_init`.
    pub fn new() -> (s: Self)
        ensures
            s.wf(),
            !s.ready(),
            s.id_seq().len() == 0,
    {
        PerCpu { ids: Vec::new(), vals: Vec::new(), ready: false }
    }

    /// Whether the one-time cold population has completed.
    pub fn is_ready(&self) -> (r: bool)
        ensures
            r == self.ready(),
    {
        self.ready
    }

    /// Whether the store holds a slot for `id`.
    pub fn has_id(&self, id: usize) -> (r: bool)
        ensures
            r == self.contains_id(id),
    {
        let n = self.ids.len();
        let mut i: usize = 0;
        while i < n
            invariant
                n == self.id_seq().len(),
                i <= n,
                forall|j: int| 0 <= j < i ==> self.id_seq()[j] != id,
            decreases n - i,
        {
            if self.ids[i] == id {
                return true;
            }
            i = i + 1;
        }
        false
    }

    /// One-time cold population by the boot core: invokes `factory` once
    /// for each distinct id in `cpu_ids`, stores the produced value under
    /// that id, then sets the readiness flag.  Must run to completion
    /// before any core is released to read the store.
    pub fn cpu0_init<F: Fn() -> T>(&mut self, cpu_ids: &Vec<usize>, factory: F)
        requires
            !old(self).ready(),
            old(self).id_seq().len() == 0,
            old(self).wf(),
            call_requires(factory, ()),
        ensures
            final(self).wf(),
            final(self).ready(),
            final(self).id_seq() == spec_unique_ids(cpu_ids@),
            forall|id: usize| final(self).contains_id(id) <==> cpu_ids@.contains(id),
            forall|i: int|
                0 <= i < final(self).val_seq().len() ==> call_ensures(
                    factory,
                    (),
                    #[trigger] final(self).val_seq()[i],
                ),
    {
        let n = cpu_ids.len();
        let mut i: usize = 0;
        while i < n
            invariant
                n == cpu_ids@.len(),
                i <= n,
                self.id_seq() == spec_unique_ids(cpu_ids@.take(i as int)),
                self.id_seq().len() == self.val_seq().len(),
                !self.ready(),
                call_requires(factory, ()),
                forall|i2: int, j2: int|
                    0 <= i2 < j2 < self.id_seq().len() ==> self.id_seq()[i2] != self.id_seq()[j2],
                forall|k: int|
                    0 <= k < self.val_seq().len() ==> call_ensures(
                        factory,
                        (),
                        #[trigger] self.val_seq()[k],
                    ),
            decreases n - i,
        {
            let id = cpu_ids[i];
            proof {
                assert(cpu_ids@.take(i + 1).drop_last() =~= cpu_ids@.take(i as int));
                assert(cpu_ids@.take(i + 1).last() == cpu_ids@[i as int]);
            }
            if !self.has_id(id) {
                let v = factory();
                self.ids.push(id);
                self.vals.push(v);
            }
            i = i + 1;
        }
        proof {
            assert(cpu_ids@.take(n as int) =~= cpu_ids@);
            assert forall|id: usize| self.id_seq().contains(id) <==> cpu_ids@.contains(id) by {
                lemma_unique_ids_contains(cpu_ids@, id);
            }
        }
        self.ready = true;
    }

    /// A core's read of its own slot, valid only once the store is ready
    /// and only for an id the cold pass populated.
    pub fn get(&self, cpu_id: usize) -> (v: &T)
        requires
            self.wf(),
            self.ready(),
            self.contains_id(cpu_id),
        ensures
            *v == self.stored(cpu_id),
    {
        let n = self.ids.len();
        let mut i: usize = 0;
        while i < n
            invariant
                self.wf(),
                self.contains_id(cpu_id),
                n == self.id_seq().len(),
                i <= n,
                forall|j: int| 0 <= j < i ==> self.id_seq()[j] != cpu_id,
            decreases n - i,
        {
            if self.ids[i] == cpu_id {
                proof {
                    lemma_first_index_unique(self.id_seq(), cpu_id, i as int);
                }
                return &self.vals[i];
            }
            i = i + 1;
        }
        proof {
            let k = choose|k: int|
                0 <= k < self.id_seq().len() && self.id_seq()[k] == cpu_id;
            assert(self.id_seq()[k] != cpu_id);
        }
        &self.vals[0]
    }
}

} // verus!

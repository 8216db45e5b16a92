use vstd::prelude::*;
use crate::ids::{CallbackId, EntityId};
use crate::react::callback_lists::{CallbackLists, list_of, spec_push};

verus! {

/// The tracker after cleaning up the despawned elements `ds` in order, and the callbacks to revoke, in order.
pub open spec fn spec_cleanup(m: Map<u64, Seq<CallbackId>>, ds: Seq<EntityId>) -> (Map<u64, Seq<CallbackId>>, Seq<
    CallbackId,
>)
    decreases ds.len(),
{
    if ds.len() == 0 {
        (m, Seq::empty())
    } else {
        let (m1, r1) = spec_cleanup(m, ds.drop_last());
        (m1.remove(ds.last()), r1 + list_of(m1, ds.last()))
    }
}

/// Tracks the callbacks registered for interactive elements, so that they can be revoked when an element is
/// despawned.
pub struct InteractiveCallbackTracker {
    cache: CallbackLists,
}

impl View for InteractiveCallbackTracker {
    type V = Map<u64, Seq<CallbackId>>;

    closed spec fn view(&self) -> Map<u64, Seq<CallbackId>> {
        self.cache@
    }
}

impl InteractiveCallbackTracker {
    /// No element maps to an empty list.
    pub closed spec fn wf(&self) -> bool {
        self.cache.wf()
    }

    /// A tracker with nothing tracked.
    pub fn new() -> (res: Self)
        ensures
            res.wf(),
            res@ == Map::<u64, Seq<CallbackId>>::empty(),
    {
        InteractiveCallbackTracker { cache: CallbackLists::new() }
    }

    /// Track `callback` for the element `entity`.
    pub fn add(&mut self, entity: EntityId, callback: CallbackId)
        requires
            old(self).wf(),
        ensures
            final(self).wf(),
            final(self)@ == spec_push(old(self)@, entity, callback),
    {
        self.cache.push(entity, callback);
    }

    /// Stop tracking the element `entity` and return its callbacks (empty if it had none).
    pub fn remove(&mut self, entity: EntityId) -> (res: Vec<CallbackId>)
        requires
            old(self).wf(),
        ensures
            final(self).wf(),
            res@ == list_of(old(self)@, entity),
            final(self)@ == old(self)@.remove(entity),
    {
        self.cache.take(entity)
    }

    /// Clean up after the despawned elements `despawned`: stop tracking them and return the callbacks to revoke, in
    /// the order of the despawns.
    pub fn cleanup(&mut self, despawned: &Vec<EntityId>) -> (res: Vec<CallbackId>)
        requires
            old(self).wf(),
        ensures
            final(self).wf(),
            final(self)@ == spec_cleanup(old(self)@, despawned@).0,
            res@ == spec_cleanup(old(self)@, despawned@).1,
    {
        let ghost m0 = self@;
        let mut out: Vec<CallbackId> = Vec::new();
        let mut i: usize = 0;
        while i < despawned.len()
            invariant
                0 <= i <= despawned.len(),
                self.wf(),
                (self@, out@) == spec_cleanup(m0, despawned@.take(i as int)),
            decreases despawned.len() - i,
        {
            let entity = despawned[i];
            assert(despawned@.take(i + 1).drop_last() =~= despawned@.take(i as int));
            let mut names = self.remove(entity);
            out.append(&mut names);
            i = i + 1;
        }
        assert(despawned@.take(despawned.len() as int) =~= despawned@);
        out
    }
}

/// Cleaning up after despawned elements forgets every one of them, keeps every other element's callbacks, and
/// hands back every callback that was tracked for a despawned element.
pub proof fn lemma_cleanup_revokes_all(m: Map<u64, Seq<CallbackId>>, ds: Seq<EntityId>)
    ensures
        forall|i: int| 0 <= i < ds.len() ==> !spec_cleanup(m, ds).0.contains_key(#[trigger] ds[i]),
        forall|k: u64|
            #![trigger spec_cleanup(m, ds).0.contains_key(k)]
            !ds.contains(k) && m.contains_key(k) ==> spec_cleanup(m, ds).0.contains_key(k) && spec_cleanup(m, ds).0[k]
                == m[k],
        forall|i: int, j: int|
            0 <= i < ds.len() && m.contains_key(ds[i]) && 0 <= j < m[ds[i]].len() ==> spec_cleanup(
                m,
                ds,
            ).1.contains(#[trigger] m[ds[i]][j]),
        spec_cleanup(m, ds).0.dom().subset_of(m.dom()),
    decreases ds.len(),
{
    if ds.len() > 0 {
        let prev = ds.drop_last();
        lemma_cleanup_revokes_all(m, prev);
        assert(forall|k: u64| !prev.contains(k) && m.contains_key(k) ==> spec_cleanup(m, prev).0.contains_key(k));
        let (m1, r1) = spec_cleanup(m, prev);
        let d = ds.last();
        assert forall|k: u64| !ds.contains(k) && m.contains_key(k) implies spec_cleanup(m, ds).0.contains_key(k)
            && spec_cleanup(m, ds).0[k] == m[k] by {
            if prev.contains(k) {
                let t = choose|t: int| 0 <= t < prev.len() && prev[t] == k;
                assert(ds[t] == k);
            }
            assert(k != d);
            assert(!prev.contains(k));
            assert(spec_cleanup(m, prev).0.contains_key(k) && spec_cleanup(m, prev).0[k] == m[k]);
            assert(spec_cleanup(m, ds).0 == m1.remove(d));
        }
        assert forall|i: int, j: int|
            0 <= i < ds.len() && m.contains_key(ds[i]) && 0 <= j < m[ds[i]].len() implies spec_cleanup(
            m,
            ds,
        ).1.contains(#[trigger] m[ds[i]][j]) by {
            let res = spec_cleanup(m, ds).1;
            assert(res == r1 + list_of(m1, d));
            if i < ds.len() - 1 {
                assert(ds[i] == prev[i]);
                assert(r1.contains(m[ds[i]][j]));
                let t = choose|t: int| 0 <= t < r1.len() && r1[t] == m[ds[i]][j];
                assert(res[t] == r1[t]);
            } else {
                if m1.contains_key(d) {
                    // `d` was not despawned before, so its list is untouched
                    if prev.contains(d) {
                        let t = choose|t: int| 0 <= t < prev.len() && prev[t] == d;
                        assert(!m1.contains_key(prev[t]));
                    }
                    assert(m1[d] == m[d]);
                    assert(res[r1.len() + j] == m[d][j]);
                } else {
                    // `d` was despawned before: its callbacks were handed back then
                    if !prev.contains(d) {
                        assert(m1.contains_key(d));
                    }
                    let t = choose|t: int| 0 <= t < prev.len() && prev[t] == d;
                    assert(prev[t] == ds[t]);
                    assert(r1.contains(m[ds[t]][j]));
                    let u = choose|u: int| 0 <= u < r1.len() && r1[u] == m[ds[t]][j];
                    assert(res[u] == r1[u]);
                }
            }
        }
        assert forall|i: int| 0 <= i < ds.len() implies !spec_cleanup(m, ds).0.contains_key(#[trigger] ds[i]) by {
            if i < ds.len() - 1 {
                assert(ds[i] == prev[i]);
            }
        }
    }
}

} // verus!

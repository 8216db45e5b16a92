use vstd::prelude::*;
use std::collections::HashMap;
use crate::ids::{CallbackId, EntityId, TypeKey};
use crate::react::callback_lists::{
    list_of, remove_first, spec_push, spec_revoke, vec_remove_first, CallbackLists,
};
use crate::react::types::{
    push_reactions, reactions, EntityReactType, ReactCommand, ReactionInput, ReactorType, RevokeToken,
};

verus! {

broadcast use vstd::std_specs::hash::group_hash_axioms;

/// The reactors of one component type that react on any entity, per change kind, in registration order.
pub struct ComponentReactors {
    insertion_callbacks: Vec<CallbackId>,
    mutation_callbacks: Vec<CallbackId>,
    removal_callbacks: Vec<CallbackId>,
}

/// Abstract view of the reactors of one component type.
pub struct ComponentReactorsView {
    pub insertion: Seq<CallbackId>,
    pub mutation: Seq<CallbackId>,
    pub removal: Seq<CallbackId>,
}

impl ComponentReactorsView {
    pub open spec fn empty() -> Self {
        ComponentReactorsView { insertion: Seq::empty(), mutation: Seq::empty(), removal: Seq::empty() }
    }

    pub open spec fn list(self, rtype: EntityReactType) -> Seq<CallbackId> {
        match rtype {
            EntityReactType::Insertion => self.insertion,
            EntityReactType::Mutation => self.mutation,
            EntityReactType::Removal => self.removal,
        }
    }

    pub open spec fn with_list(self, rtype: EntityReactType, s: Seq<CallbackId>) -> Self {
        match rtype {
            EntityReactType::Insertion => ComponentReactorsView { insertion: s, ..self },
            EntityReactType::Mutation => ComponentReactorsView { mutation: s, ..self },
            EntityReactType::Removal => ComponentReactorsView { removal: s, ..self },
        }
    }

    pub open spec fn is_empty(self) -> bool {
        self.insertion.len() == 0 && self.mutation.len() == 0 && self.removal.len() == 0
    }
}

impl View for ComponentReactors {
    type V = ComponentReactorsView;

    closed spec fn view(&self) -> ComponentReactorsView {
        ComponentReactorsView {
            insertion: self.insertion_callbacks@,
            mutation: self.mutation_callbacks@,
            removal: self.removal_callbacks@,
        }
    }
}

impl ComponentReactors {
    fn new() -> (res: Self)
        ensures
            res@ == ComponentReactorsView::empty(),
    {
        ComponentReactors {
            insertion_callbacks: Vec::new(),
            mutation_callbacks: Vec::new(),
            removal_callbacks: Vec::new(),
        }
    }

    fn is_empty(&self) -> (res: bool)
        ensures
            res == self@.is_empty(),
    {
        self.insertion_callbacks.len() == 0 && self.mutation_callbacks.len() == 0
            && self.removal_callbacks.len() == 0
    }

    fn list(&self, rtype: EntityReactType) -> (res: &Vec<CallbackId>)
        ensures
            res@ == self@.list(rtype),
    {
        match rtype {
            EntityReactType::Insertion => &self.insertion_callbacks,
            EntityReactType::Mutation => &self.mutation_callbacks,
            EntityReactType::Removal => &self.removal_callbacks,
        }
    }

    fn push(&mut self, rtype: EntityReactType, cb: CallbackId)
        ensures
            final(self)@ == old(self)@.with_list(rtype, old(self)@.list(rtype).push(cb)),
    {
        match rtype {
            EntityReactType::Insertion => self.insertion_callbacks.push(cb),
            EntityReactType::Mutation => self.mutation_callbacks.push(cb),
            EntityReactType::Removal => self.removal_callbacks.push(cb),
        }
    }

    fn revoke(&mut self, rtype: EntityReactType, cb: CallbackId)
        ensures
            final(self)@ == old(self)@.with_list(rtype, remove_first(old(self)@.list(rtype), cb)),
    {
        match rtype {
            EntityReactType::Insertion => vec_remove_first(&mut self.insertion_callbacks, cb),
            EntityReactType::Mutation => vec_remove_first(&mut self.mutation_callbacks, cb),
            EntityReactType::Removal => vec_remove_first(&mut self.removal_callbacks, cb),
        }
    }
}

/// Abstract view of the react cache.
pub struct ReactCacheView {
    /// Source of callback ids: the next id to hand out.
    pub callback_counter: nat,
    /// Per-component reactors.
    pub component_reactors: Map<TypeKey, ComponentReactorsView>,
    /// Components whose removals are tracked, in the order their tracking started.
    pub tracked_removals: Seq<TypeKey>,
    /// Per-entity despawn reactors.
    pub despawn_reactors: Map<EntityId, Seq<CallbackId>>,
    /// Per-resource mutation reactors.
    pub resource_reactors: Map<TypeKey, Seq<CallbackId>>,
    /// Per-event-type data event reactors.
    pub event_reactors: Map<TypeKey, Seq<CallbackId>>,
}

/// The component reactors of `comp` (empty when absent).
pub open spec fn comp_of(m: Map<TypeKey, ComponentReactorsView>, comp: TypeKey) -> ComponentReactorsView {
    if m.contains_key(comp) {
        m[comp]
    } else {
        ComponentReactorsView::empty()
    }
}

/// The component reactors after registering `cb` for changes of kind `rtype` to `comp`.
pub open spec fn spec_comp_push(
    m: Map<TypeKey, ComponentReactorsView>,
    comp: TypeKey,
    rtype: EntityReactType,
    cb: CallbackId,
) -> Map<TypeKey, ComponentReactorsView> {
    let c = comp_of(m, comp);
    m.insert(comp, c.with_list(rtype, c.list(rtype).push(cb)))
}

/// The component reactors after revoking `cb` for changes of kind `rtype` to `comp`; the entry of `comp` is
/// dropped once it holds no reactor at all.
pub open spec fn spec_comp_revoke(
    m: Map<TypeKey, ComponentReactorsView>,
    comp: TypeKey,
    rtype: EntityReactType,
    cb: CallbackId,
) -> Map<TypeKey, ComponentReactorsView> {
    if !m.contains_key(comp) {
        m
    } else {
        let c = m[comp].with_list(rtype, remove_first(m[comp].list(rtype), cb));
        if c.is_empty() {
            m.remove(comp)
        } else {
            m.insert(comp, c)
        }
    }
}

/// Every id in `s` was handed out before `counter`.
pub open spec fn ids_below(s: Seq<CallbackId>, counter: nat) -> bool {
    forall|i: int| 0 <= i < s.len() ==> (#[trigger] s[i]) < counter
}

/// Every id in a map of lists was handed out before `counter`.
pub open spec fn map_ids_below(m: Map<u64, Seq<CallbackId>>, counter: nat) -> bool {
    forall|k: u64| #[trigger] m.contains_key(k) ==> ids_below(m[k], counter)
}

impl ReactCacheView {
    /// The cache's invariant.
    pub open spec fn wf(self) -> bool {
        &&& forall|k: TypeKey| #[trigger] self.component_reactors.contains_key(k) ==> !self.component_reactors[k].is_empty()
        &&& forall|k: TypeKey| #[trigger] self.component_reactors.contains_key(k) ==> {
            let c = self.component_reactors[k];
            ids_below(c.insertion, self.callback_counter) && ids_below(c.mutation, self.callback_counter)
                && ids_below(c.removal, self.callback_counter)
        }
        &&& self.tracked_removals.no_duplicates()
        &&& map_ids_below(self.despawn_reactors, self.callback_counter)
        &&& map_ids_below(self.resource_reactors, self.callback_counter)
    }
}

/// Cache of the reactors that do not live on entities.
pub struct ReactCache {
    callback_counter: u64,
    component_reactors: HashMap<TypeKey, ComponentReactors>,
    tracked_removals: Vec<TypeKey>,
    despawn_reactors: CallbackLists,
    resource_reactors: CallbackLists,
    event_reactors: CallbackLists,
}

impl View for ReactCache {
    type V = ReactCacheView;

    closed spec fn view(&self) -> ReactCacheView {
        ReactCacheView {
            callback_counter: self.callback_counter as nat,
            component_reactors: self.component_reactors@.map_values(|c: ComponentReactors| c@),
            tracked_removals: self.tracked_removals@,
            despawn_reactors: self.despawn_reactors@,
            resource_reactors: self.resource_reactors@,
            event_reactors: self.event_reactors@,
        }
    }
}

impl ReactCache {
    /// The cache's invariant, including that the stored lists are never empty.
    pub closed spec fn wf(&self) -> bool {
        &&& self@.wf()
        &&& self.despawn_reactors.wf()
        &&& self.resource_reactors.wf()
        &&& self.event_reactors.wf()
    }

    /// An empty cache.
    pub fn new() -> (res: Self)
        ensures
            res.wf(),
            res@.callback_counter == 0,
            res@.component_reactors == Map::<TypeKey, ComponentReactorsView>::empty(),
            res@.tracked_removals == Seq::<TypeKey>::empty(),
            res@.despawn_reactors == Map::<EntityId, Seq<CallbackId>>::empty(),
            res@.resource_reactors == Map::<TypeKey, Seq<CallbackId>>::empty(),
            res@.event_reactors == Map::<TypeKey, Seq<CallbackId>>::empty(),
    {
        let res = ReactCache {
            callback_counter: 0,
            component_reactors: HashMap::new(),
            tracked_removals: Vec::new(),
            despawn_reactors: CallbackLists::new(),
            resource_reactors: CallbackLists::new(),
            event_reactors: CallbackLists::new(),
        };
        assert(res@.component_reactors =~= Map::<TypeKey, ComponentReactorsView>::empty());
        res
    }

    /// The next callback id to hand out.
    pub fn callback_counter(&self) -> (res: u64)
        ensures
            res == self@.callback_counter,
    {
        self.callback_counter
    }

    /// Hand out a fresh callback id.
    pub fn next_callback_id(&mut self) -> (id: CallbackId)
        requires
            old(self).wf(),
            old(self)@.callback_counter < u64::MAX,
        ensures
            final(self).wf(),
            id == old(self)@.callback_counter,
            final(self)@ == (ReactCacheView { callback_counter: old(self)@.callback_counter + 1, ..old(self)@ }),
    {
        let counter = self.callback_counter;
        self.callback_counter = self.callback_counter + 1;
        proof {
            let v = self@;
            assert forall|k: TypeKey| #[trigger] v.component_reactors.contains_key(k) implies {
                let c = v.component_reactors[k];
                ids_below(c.insertion, v.callback_counter) && ids_below(c.mutation, v.callback_counter)
                    && ids_below(c.removal, v.callback_counter)
            } by {
                assert(old(self)@.component_reactors.contains_key(k));
            }
            assert forall|k: u64| #[trigger] v.despawn_reactors.contains_key(k) implies ids_below(
                v.despawn_reactors[k],
                v.callback_counter,
            ) by {
                assert(ids_below(old(self)@.despawn_reactors[k], old(self)@.callback_counter));
            }
            assert forall|k: u64| #[trigger] v.resource_reactors.contains_key(k) implies ids_below(
                v.resource_reactors[k],
                v.callback_counter,
            ) by {
                assert(ids_below(old(self)@.resource_reactors[k], old(self)@.callback_counter));
            }
        }
        assert(self@ =~= (ReactCacheView { callback_counter: old(self)@.callback_counter + 1, ..old(self)@ }));
        counter
    }

    /// Start tracking removals of `comp` if they are not tracked yet.
    pub fn track_removals(&mut self, comp: TypeKey)
        requires
            old(self).wf(),
        ensures
            final(self).wf(),
            final(self)@ == (ReactCacheView {
                tracked_removals: if old(self)@.tracked_removals.contains(comp) {
                    old(self)@.tracked_removals
                } else {
                    old(self)@.tracked_removals.push(comp)
                },
                ..old(self)@
            }),
    {
        let mut i: usize = 0;
        while i < self.tracked_removals.len()
            invariant
                0 <= i <= self.tracked_removals.len(),
                *self == *old(self),
                self.wf(),
                forall|j: int| 0 <= j < i ==> self.tracked_removals@[j] != comp,
            decreases self.tracked_removals.len() - i,
        {
            if self.tracked_removals[i] == comp {
                assert(self.tracked_removals@[i as int] == comp);
                return;
            }
            i = i + 1;
        }
        self.tracked_removals.push(comp);
        proof {
            let s = self.tracked_removals@;
            assert forall|a: int, b: int| 0 <= a < s.len() && 0 <= b < s.len() && a != b implies s[a] != s[b] by {
                assert(old(self)@.tracked_removals.no_duplicates());
            }
        }
        assert(self@ =~= (ReactCacheView { tracked_removals: old(self)@.tracked_removals.push(comp), ..old(self)@ }));
    }
}


/// Every element of `remove_first(s, x)` is an element of `s`.
pub proof fn lemma_remove_first_subset(s: Seq<CallbackId>, x: CallbackId)
    ensures
        remove_first(s, x).len() <= s.len(),
        forall|i: int| 0 <= i < remove_first(s, x).len() ==> s.contains(#[trigger] remove_first(s, x)[i]),
    decreases s.len(),
{
    if s.len() > 0 && s[0] != x {
        lemma_remove_first_subset(s.drop_first(), x);
        let r = remove_first(s, x);
        assert forall|i: int| 0 <= i < r.len() implies s.contains(#[trigger] r[i]) by {
            if i == 0 {
                assert(s[0] == r[0]);
            } else {
                assert(r[i] == remove_first(s.drop_first(), x)[i - 1]);
                assert(s.drop_first().contains(r[i]));
                let k = choose|k: int| 0 <= k < s.drop_first().len() && s.drop_first()[k] == r[i];
                assert(s[k + 1] == r[i]);
            }
        }
    } else if s.len() > 0 {
        let r = remove_first(s, x);
        assert forall|i: int| 0 <= i < r.len() implies s.contains(#[trigger] r[i]) by {
            assert(s[i + 1] == r[i]);
        }
    }
}

proof fn lemma_ids_below_remove_first(s: Seq<CallbackId>, x: CallbackId, c: nat)
    requires
        ids_below(s, c),
    ensures
        ids_below(remove_first(s, x), c),
{
    lemma_remove_first_subset(s, x);
    let r = remove_first(s, x);
    assert forall|i: int| 0 <= i < r.len() implies (#[trigger] r[i]) < c by {
        assert(s.contains(r[i]));
    }
}

proof fn lemma_map_ids_push(m: Map<u64, Seq<CallbackId>>, k: u64, cb: CallbackId, c: nat)
    requires
        map_ids_below(m, c),
        cb < c,
    ensures
        map_ids_below(spec_push(m, k, cb), c),
{
    let m2 = spec_push(m, k, cb);
    assert forall|j: u64| #[trigger] m2.contains_key(j) implies ids_below(m2[j], c) by {
        if j == k {
            let l = list_of(m, k).push(cb);
            assert forall|i: int| 0 <= i < l.len() implies (#[trigger] l[i]) < c by {
                if i < l.len() - 1 {
                    assert(l[i] == list_of(m, k)[i]);
                }
            }
        }
    }
}

proof fn lemma_map_ids_revoke(m: Map<u64, Seq<CallbackId>>, k: u64, cb: CallbackId, c: nat)
    requires
        map_ids_below(m, c),
    ensures
        map_ids_below(spec_revoke(m, k, cb), c),
{
    if m.contains_key(k) {
        lemma_ids_below_remove_first(m[k], cb, c);
    }
}

proof fn lemma_map_ids_remove(m: Map<u64, Seq<CallbackId>>, k: u64, c: nat)
    requires
        map_ids_below(m, c),
    ensures
        map_ids_below(m.remove(k), c),
{
}

impl ReactCache {
    fn register_component_reactor(&mut self, rtype: EntityReactType, comp: TypeKey) -> (id: CallbackId)
        requires
            old(self).wf(),
            old(self)@.callback_counter < u64::MAX,
        ensures
            final(self).wf(),
            id == old(self)@.callback_counter,
            final(self)@ == (ReactCacheView {
                callback_counter: old(self)@.callback_counter + 1,
                component_reactors: spec_comp_push(old(self)@.component_reactors, comp, rtype, id),
                ..old(self)@
            }),
    {
        let id = self.next_callback_id();
        let ghost mid = self@;
        let mut c = match self.component_reactors.remove(&comp) {
            Some(c) => c,
            None => ComponentReactors::new(),
        };
        assert(c@ == comp_of(mid.component_reactors, comp));
        c.push(rtype, id);
        self.component_reactors.insert(comp, c);
        proof {
            let v = self@;
            assert(v.component_reactors =~= spec_comp_push(mid.component_reactors, comp, rtype, id));
            assert forall|k: TypeKey| #[trigger] v.component_reactors.contains_key(k) implies {
                let cr = v.component_reactors[k];
                ids_below(cr.insertion, v.callback_counter) && ids_below(cr.mutation, v.callback_counter)
                    && ids_below(cr.removal, v.callback_counter)
            } by {
                let cr = v.component_reactors[k];
                if k == comp {
                    let old_c = comp_of(mid.component_reactors, comp);
                    let l = old_c.list(rtype).push(id);
                    assert forall|i: int| 0 <= i < l.len() implies (#[trigger] l[i]) < v.callback_counter by {
                        if i < l.len() - 1 {
                            assert(l[i] == old_c.list(rtype)[i]);
                        }
                    }
                }
            }
            assert forall|k: TypeKey| #[trigger] v.component_reactors.contains_key(k) implies !v.component_reactors[k].is_empty() by {
                if k == comp {
                    let old_c = comp_of(mid.component_reactors, comp);
                    assert(old_c.list(rtype).push(id).len() > 0);
                }
            }
        }
        assert(self@ =~= (ReactCacheView {
            callback_counter: old(self)@.callback_counter + 1,
            component_reactors: spec_comp_push(old(self)@.component_reactors, comp, rtype, id),
            ..old(self)@
        }));
        id
    }

    /// Register a reactor to insertions of component `comp` on any entity; it gets a fresh callback id.
    pub fn register_insertion_reactor(&mut self, comp: TypeKey) -> (token: RevokeToken)
        requires
            old(self).wf(),
            old(self)@.callback_counter < u64::MAX,
        ensures
            final(self).wf(),
            token == (RevokeToken {
                reactor_type: ReactorType::ComponentInsertion(comp),
                callback_id: old(self)@.callback_counter as u64,
            }),
            final(self)@ == (ReactCacheView {
                callback_counter: old(self)@.callback_counter + 1,
                component_reactors: spec_comp_push(
                    old(self)@.component_reactors,
                    comp,
                    EntityReactType::Insertion,
                    token.callback_id,
                ),
                ..old(self)@
            }),
    {
        let id = self.register_component_reactor(EntityReactType::Insertion, comp);
        RevokeToken { reactor_type: ReactorType::ComponentInsertion(comp), callback_id: id }
    }

    /// Register a reactor to mutations of component `comp` on any entity; it gets a fresh callback id.
    pub fn register_mutation_reactor(&mut self, comp: TypeKey) -> (token: RevokeToken)
        requires
            old(self).wf(),
            old(self)@.callback_counter < u64::MAX,
        ensures
            final(self).wf(),
            token == (RevokeToken {
                reactor_type: ReactorType::ComponentMutation(comp),
                callback_id: old(self)@.callback_counter as u64,
            }),
            final(self)@ == (ReactCacheView {
                callback_counter: old(self)@.callback_counter + 1,
                component_reactors: spec_comp_push(
                    old(self)@.component_reactors,
                    comp,
                    EntityReactType::Mutation,
                    token.callback_id,
                ),
                ..old(self)@
            }),
    {
        let id = self.register_component_reactor(EntityReactType::Mutation, comp);
        RevokeToken { reactor_type: ReactorType::ComponentMutation(comp), callback_id: id }
    }

    /// Register a reactor to removals of component `comp` from any entity; it gets a fresh callback id.
    pub fn register_removal_reactor(&mut self, comp: TypeKey) -> (token: RevokeToken)
        requires
            old(self).wf(),
            old(self)@.callback_counter < u64::MAX,
        ensures
            final(self).wf(),
            token == (RevokeToken {
                reactor_type: ReactorType::ComponentRemoval(comp),
                callback_id: old(self)@.callback_counter as u64,
            }),
            final(self)@ == (ReactCacheView {
                callback_counter: old(self)@.callback_counter + 1,
                component_reactors: spec_comp_push(
                    old(self)@.component_reactors,
                    comp,
                    EntityReactType::Removal,
                    token.callback_id,
                ),
                ..old(self)@
            }),
    {
        let id = self.register_component_reactor(EntityReactType::Removal, comp);
        RevokeToken { reactor_type: ReactorType::ComponentRemoval(comp), callback_id: id }
    }

    /// Register a reactor to the despawn of `entity`; it gets a fresh callback id.
    pub fn register_despawn_reactor(&mut self, entity: EntityId) -> (token: RevokeToken)
        requires
            old(self).wf(),
            old(self)@.callback_counter < u64::MAX,
        ensures
            final(self).wf(),
            token == (RevokeToken {
                reactor_type: ReactorType::Despawn(entity),
                callback_id: old(self)@.callback_counter as u64,
            }),
            final(self)@ == (ReactCacheView {
                callback_counter: old(self)@.callback_counter + 1,
                despawn_reactors: spec_push(old(self)@.despawn_reactors, entity, token.callback_id),
                ..old(self)@
            }),
    {
        let id = self.next_callback_id();
        self.despawn_reactors.push(entity, id);
        proof {
            lemma_map_ids_push(old(self)@.despawn_reactors, entity, id, self@.callback_counter);
        }
        assert(self@ =~= (ReactCacheView {
            callback_counter: old(self)@.callback_counter + 1,
            despawn_reactors: spec_push(old(self)@.despawn_reactors, entity, id),
            ..old(self)@
        }));
        RevokeToken { reactor_type: ReactorType::Despawn(entity), callback_id: id }
    }

    /// Register a reactor to mutations of resource `res`; it gets a fresh callback id.
    pub fn register_resource_mutation_reactor(&mut self, res: TypeKey) -> (token: RevokeToken)
        requires
            old(self).wf(),
            old(self)@.callback_counter < u64::MAX,
        ensures
            final(self).wf(),
            token == (RevokeToken {
                reactor_type: ReactorType::ResourceMutation(res),
                callback_id: old(self)@.callback_counter as u64,
            }),
            final(self)@ == (ReactCacheView {
                callback_counter: old(self)@.callback_counter + 1,
                resource_reactors: spec_push(old(self)@.resource_reactors, res, token.callback_id),
                ..old(self)@
            }),
    {
        let id = self.next_callback_id();
        self.resource_reactors.push(res, id);
        proof {
            lemma_map_ids_push(old(self)@.resource_reactors, res, id, self@.callback_counter);
        }
        assert(self@ =~= (ReactCacheView {
            callback_counter: old(self)@.callback_counter + 1,
            resource_reactors: spec_push(old(self)@.resource_reactors, res, id),
            ..old(self)@
        }));
        RevokeToken { reactor_type: ReactorType::ResourceMutation(res), callback_id: id }
    }

    /// Register the data event reactor `callback` for events of type `event_type` (after the others).
    pub fn register_event_reactor(&mut self, event_type: TypeKey, callback: CallbackId)
        requires
            old(self).wf(),
        ensures
            final(self).wf(),
            final(self)@ == (ReactCacheView {
                event_reactors: spec_push(old(self)@.event_reactors, event_type, callback),
                ..old(self)@
            }),
    {
        self.event_reactors.push(event_type, callback);
        assert(self@ =~= (ReactCacheView {
            event_reactors: spec_push(old(self)@.event_reactors, event_type, callback),
            ..old(self)@
        }));
    }

    /// Revoke the first registration of `callback` among the reactors to changes of kind `rtype` to component
    /// `comp`; the component's entry is dropped once it holds no reactor.
    pub fn revoke_component_reactor(&mut self, rtype: EntityReactType, comp: TypeKey, callback: CallbackId)
        requires
            old(self).wf(),
        ensures
            final(self).wf(),
            final(self)@ == (ReactCacheView {
                component_reactors: spec_comp_revoke(old(self)@.component_reactors, comp, rtype, callback),
                ..old(self)@
            }),
    {
        let ghost v0 = self@;
        match self.component_reactors.remove(&comp) {
            Some(mut c) => {
                c.revoke(rtype, callback);
                if !c.is_empty() {
                    self.component_reactors.insert(comp, c);
                }
                proof {
                    let v = self@;
                    assert(v.component_reactors =~= spec_comp_revoke(v0.component_reactors, comp, rtype, callback));
                    assert forall|k: TypeKey| #[trigger] v.component_reactors.contains_key(k) implies {
                        let cr = v.component_reactors[k];
                        ids_below(cr.insertion, v.callback_counter) && ids_below(cr.mutation, v.callback_counter)
                            && ids_below(cr.removal, v.callback_counter)
                    } by {
                        if k == comp {
                            let oc = v0.component_reactors[comp];
                            assert(ids_below(oc.list(rtype), v0.callback_counter));
                            lemma_ids_below_remove_first(oc.list(rtype), callback, v0.callback_counter);
                        } else {
                            assert(v0.component_reactors.contains_key(k));
                        }
                    }
                    assert forall|k: TypeKey| #[trigger] v.component_reactors.contains_key(k) implies !v.component_reactors[k].is_empty() by {
                        if k != comp {
                            assert(v0.component_reactors.contains_key(k));
                        }
                    }
                }
            },
            None => {
                assert(self@.component_reactors =~= v0.component_reactors);
            },
        }
        assert(self@ =~= (ReactCacheView {
            component_reactors: spec_comp_revoke(old(self)@.component_reactors, comp, rtype, callback),
            ..old(self)@
        }));
    }

    /// Revoke the first registration of `callback` among the despawn reactors of `entity`.
    pub fn revoke_despawn_reactor(&mut self, entity: EntityId, callback: CallbackId)
        requires
            old(self).wf(),
        ensures
            final(self).wf(),
            final(self)@ == (ReactCacheView {
                despawn_reactors: spec_revoke(old(self)@.despawn_reactors, entity, callback),
                ..old(self)@
            }),
    {
        self.despawn_reactors.revoke(entity, callback);
        proof {
            lemma_map_ids_revoke(old(self)@.despawn_reactors, entity, callback, self@.callback_counter);
        }
        assert(self@ =~= (ReactCacheView {
            despawn_reactors: spec_revoke(old(self)@.despawn_reactors, entity, callback),
            ..old(self)@
        }));
    }

    /// Revoke the first registration of `callback` among the mutation reactors of resource `res`.
    pub fn revoke_resource_mutation_reactor(&mut self, res: TypeKey, callback: CallbackId)
        requires
            old(self).wf(),
        ensures
            final(self).wf(),
            final(self)@ == (ReactCacheView {
                resource_reactors: spec_revoke(old(self)@.resource_reactors, res, callback),
                ..old(self)@
            }),
    {
        self.resource_reactors.revoke(res, callback);
        proof {
            lemma_map_ids_revoke(old(self)@.resource_reactors, res, callback, self@.callback_counter);
        }
        assert(self@ =~= (ReactCacheView {
            resource_reactors: spec_revoke(old(self)@.resource_reactors, res, callback),
            ..old(self)@
        }));
    }

    /// Revoke the first registration of `callback` among the reactors to data events of type `event_type`.
    pub fn revoke_event_reactor(&mut self, event_type: TypeKey, callback: CallbackId)
        requires
            old(self).wf(),
        ensures
            final(self).wf(),
            final(self)@ == (ReactCacheView {
                event_reactors: spec_revoke(old(self)@.event_reactors, event_type, callback),
                ..old(self)@
            }),
    {
        self.event_reactors.revoke(event_type, callback);
        assert(self@ =~= (ReactCacheView {
            event_reactors: spec_revoke(old(self)@.event_reactors, event_type, callback),
            ..old(self)@
        }));
    }
}


/// A removed component instance as seen when removals are checked.
#[derive(Debug)]
pub struct RemovedEntity {
    /// The entity the component was removed from.
    pub entity: EntityId,
    /// Whether the entity still exists.
    pub exists: bool,
    /// The entity's own reactors to removals of the component, in registration order.
    pub entity_callbacks: Vec<CallbackId>,
}

/// The removals of one tracked component since the last check.
#[derive(Debug)]
pub struct ComponentRemovals {
    pub component: TypeKey,
    pub removed: Vec<RemovedEntity>,
}

/// Spec-level removed entity.
pub struct RemovedEntityView {
    pub entity: EntityId,
    pub exists: bool,
    pub entity_callbacks: Seq<CallbackId>,
}

impl View for RemovedEntity {
    type V = RemovedEntityView;

    open spec fn view(&self) -> RemovedEntityView {
        RemovedEntityView { entity: self.entity, exists: self.exists, entity_callbacks: self.entity_callbacks@ }
    }
}

/// Reactions to the removal of a component from one entity: none if the entity no longer exists; else the
/// entity's own removal reactors (no input), then the component's removal reactors (with the entity).
pub open spec fn spec_removal_reactions(comp_cbs: Seq<CallbackId>, r: RemovedEntityView) -> Seq<ReactCommand> {
    if !r.exists {
        Seq::empty()
    } else {
        reactions(r.entity_callbacks, ReactionInput::Unit) + reactions(comp_cbs, ReactionInput::Entity(r.entity))
    }
}

impl View for ComponentRemovals {
    type V = (TypeKey, Seq<RemovedEntityView>);

    open spec fn view(&self) -> (TypeKey, Seq<RemovedEntityView>) {
        (self.component, self.removed@.map_values(|r: RemovedEntity| r@))
    }
}

/// Reactions to the removals of all tracked components, component by component in tracking order.
pub open spec fn spec_all_removals_reactions(
    m: Map<TypeKey, ComponentReactorsView>,
    cs: Seq<(TypeKey, Seq<RemovedEntityView>)>,
) -> Seq<ReactCommand>
    decreases cs.len(),
{
    if cs.len() == 0 {
        Seq::empty()
    } else {
        spec_all_removals_reactions(m, cs.drop_last()) + spec_removals_reactions(
            comp_of(m, cs.last().0).removal,
            cs.last().1,
        )
    }
}

/// Reactions to a list of removals of one component, in order.
pub open spec fn spec_removals_reactions(comp_cbs: Seq<CallbackId>, rs: Seq<RemovedEntityView>) -> Seq<ReactCommand>
    decreases rs.len(),
{
    if rs.len() == 0 {
        Seq::empty()
    } else {
        spec_removals_reactions(comp_cbs, rs.drop_last()) + spec_removal_reactions(comp_cbs, rs.last())
    }
}

/// The despawn reactors after reporting the despawns of a list of entities: their lists are dropped.
pub open spec fn spec_despawn_remaining(m: Map<EntityId, Seq<CallbackId>>, es: Seq<EntityId>) -> Map<
    EntityId,
    Seq<CallbackId>,
>
    decreases es.len(),
{
    if es.len() == 0 {
        m
    } else {
        spec_despawn_remaining(m, es.drop_last()).remove(es.last())
    }
}

/// Reactions to the despawns of a list of entities, in report order, given the despawn reactors before: each
/// entity's reactors run once (they are dropped at its first report).
pub open spec fn spec_despawn_reactions(m: Map<EntityId, Seq<CallbackId>>, es: Seq<EntityId>) -> Seq<ReactCommand>
    decreases es.len(),
{
    if es.len() == 0 {
        Seq::empty()
    } else {
        spec_despawn_reactions(m, es.drop_last()) + reactions(
            list_of(spec_despawn_remaining(m, es.drop_last()), es.last()),
            ReactionInput::Unit,
        )
    }
}

impl ReactCache {
    /// The component reactors of `comp` to changes of kind `rtype`, in registration order.
    pub fn component_callbacks(&self, rtype: EntityReactType, comp: TypeKey) -> (res: Vec<CallbackId>)
        ensures
            res@ == comp_of(self@.component_reactors, comp).list(rtype),
    {
        match self.component_reactors.get(&comp) {
            Some(c) => c.list(rtype).clone(),
            None => Vec::new(),
        }
    }

    /// Queue the reactions to inserting component `comp` on `entity`: first the entity's own insertion reactors
    /// (looked up when the queue is applied), then the component's insertion reactors with the entity, in
    /// registration order.
    pub fn react_to_insertion(&self, comp: TypeKey, entity: EntityId, out: &mut Vec<ReactCommand>)
        ensures
            final(out)@ == old(out)@ + seq![ReactCommand::ReactToEntityEvent {
                rtype: EntityReactType::Insertion,
                entity: entity,
                component: comp,
            }] + reactions(
                comp_of(self@.component_reactors, comp).insertion,
                ReactionInput::Entity(entity),
            ),
    {
        out.push(ReactCommand::ReactToEntityEvent { rtype: EntityReactType::Insertion, entity, component: comp });
        let cbs = self.component_callbacks(EntityReactType::Insertion, comp);
        push_reactions(&cbs, ReactionInput::Entity(entity), out);
    }

    /// Queue the reactions to mutating component `comp` on `entity` (as for insertions, with mutation reactors).
    pub fn react_to_mutation(&self, comp: TypeKey, entity: EntityId, out: &mut Vec<ReactCommand>)
        ensures
            final(out)@ == old(out)@ + seq![ReactCommand::ReactToEntityEvent {
                rtype: EntityReactType::Mutation,
                entity: entity,
                component: comp,
            }] + reactions(
                comp_of(self@.component_reactors, comp).mutation,
                ReactionInput::Entity(entity),
            ),
    {
        out.push(ReactCommand::ReactToEntityEvent { rtype: EntityReactType::Mutation, entity, component: comp });
        let cbs = self.component_callbacks(EntityReactType::Mutation, comp);
        push_reactions(&cbs, ReactionInput::Entity(entity), out);
    }

    /// Queue the reactions to mutating resource `res`: its mutation reactors, in registration order.
    pub fn react_to_resource_mutation(&self, res: TypeKey, out: &mut Vec<ReactCommand>)
        ensures
            final(out)@ == old(out)@ + reactions(list_of(self@.resource_reactors, res), ReactionInput::Unit),
    {
        let cbs = self.resource_reactors.get(res);
        push_reactions(&cbs, ReactionInput::Unit, out);
    }

    /// Queue the reactions to a data event of type `event_type` (payload handle `event`): its event reactors, in
    /// registration order, each with the event.
    pub fn react_to_data_event(&self, event_type: TypeKey, event: u64, out: &mut Vec<ReactCommand>)
        ensures
            final(out)@ == old(out)@ + reactions(list_of(self@.event_reactors, event_type), ReactionInput::Event(event)),
    {
        let cbs = self.event_reactors.get(event_type);
        push_reactions(&cbs, ReactionInput::Event(event), out);
    }

    /// Queue the reactions to the reported despawns of `despawned` (in report order): each entity's despawn
    /// reactors, in registration order; they are dropped, so they react once. Returns the number queued.
    pub fn react_to_despawns(&mut self, despawned: &Vec<EntityId>, out: &mut Vec<ReactCommand>) -> (count: usize)
        requires
            old(self).wf(),
        ensures
            final(self).wf(),
            final(out)@ == old(out)@ + spec_despawn_reactions(old(self)@.despawn_reactors, despawned@),
            count == spec_despawn_reactions(old(self)@.despawn_reactors, despawned@).len(),
            final(self)@ == (ReactCacheView {
                despawn_reactors: spec_despawn_remaining(old(self)@.despawn_reactors, despawned@),
                ..old(self)@
            }),
    {
        let mut count: usize = 0;
        let mut i: usize = 0;
        while i < despawned.len()
            invariant
                0 <= i <= despawned.len(),
                self.wf(),
                self@ == (ReactCacheView { despawn_reactors: self@.despawn_reactors, ..old(self)@ }),
                self@.despawn_reactors == spec_despawn_remaining(old(self)@.despawn_reactors, despawned@.take(i as int)),
                out@ == old(out)@ + spec_despawn_reactions(old(self)@.despawn_reactors, despawned@.take(i as int)),
                count == spec_despawn_reactions(old(self)@.despawn_reactors, despawned@.take(i as int)).len(),
            decreases despawned.len() - i,
        {
            let e = despawned[i];
            let ghost m = self@.despawn_reactors;
            let ghost prev = self@;
            let cbs = self.despawn_reactors.take(e);
            assert(self@.component_reactors == prev.component_reactors);
            assert(self@.resource_reactors == prev.resource_reactors);
            assert(self@.tracked_removals == prev.tracked_removals);
            assert(self@.callback_counter == prev.callback_counter);
            proof {
                lemma_map_ids_remove(m, e, self@.callback_counter);
                assert(despawned@.take(i + 1).drop_last() =~= despawned@.take(i as int));
                assert(despawned@.take(i + 1).last() == e);
            }
            push_reactions(&cbs, ReactionInput::Unit, out);
            // the queue length, which bounds the count, fits in a usize
            let _ = out.len();
            count = count + cbs.len();
            i = i + 1;
            assert(self@ =~= (ReactCacheView { despawn_reactors: self@.despawn_reactors, ..old(self)@ }));
        }
        proof {
            assert(despawned@.take(despawned.len() as int) =~= despawned@);
        }
        assert(self@ =~= (ReactCacheView {
            despawn_reactors: spec_despawn_remaining(old(self)@.despawn_reactors, despawned@),
            ..old(self)@
        }));
        count
    }
}


impl ReactCache {
    /// The components whose removals are tracked, in tracking order.
    pub fn tracked_removals(&self) -> (res: &Vec<TypeKey>)
        ensures
            res@ == self@.tracked_removals,
    {
        &self.tracked_removals
    }

    fn react_to_component_removals(&self, comp: TypeKey, removed: &Vec<RemovedEntity>, out: &mut Vec<ReactCommand>) -> (count: usize)
        ensures
            final(out)@ == old(out)@ + spec_removals_reactions(
                comp_of(self@.component_reactors, comp).removal,
                removed@.map_values(|r: RemovedEntity| r@),
            ),
            count == spec_removals_reactions(
                comp_of(self@.component_reactors, comp).removal,
                removed@.map_values(|r: RemovedEntity| r@),
            ).len(),
    {
        let comp_cbs = self.component_callbacks(EntityReactType::Removal, comp);
        let ghost rs = removed@.map_values(|r: RemovedEntity| r@);
        let mut count: usize = 0;
        let mut i: usize = 0;
        while i < removed.len()
            invariant
                0 <= i <= removed.len(),
                rs == removed@.map_values(|r: RemovedEntity| r@),
                comp_cbs@ == comp_of(self@.component_reactors, comp).removal,
                out@ == old(out)@ + spec_removals_reactions(comp_cbs@, rs.take(i as int)),
                count == spec_removals_reactions(comp_cbs@, rs.take(i as int)).len(),
            decreases removed.len() - i,
        {
            let r = &removed[i];
            proof {
                assert(rs.take(i + 1).drop_last() =~= rs.take(i as int));
                assert(rs.take(i + 1).last() == r@);
            }
            let ghost before = out@;
            if r.exists {
                push_reactions(&r.entity_callbacks, ReactionInput::Unit, out);
                push_reactions(&comp_cbs, ReactionInput::Entity(r.entity), out);
                // the queue length, which bounds the count, fits in a usize
                let _ = out.len();
                count = count + r.entity_callbacks.len() + comp_cbs.len();
                assert(out@ =~= before + spec_removal_reactions(comp_cbs@, r@));
            } else {
                assert(out@ =~= before + spec_removal_reactions(comp_cbs@, r@));
            }
            i = i + 1;
        }
        assert(rs.take(removed.len() as int) =~= rs);
        count
    }

    /// Queue the reactions to component removals: for each tracked component in tracking order (`removals` holds
    /// one entry per tracked component, in that order), for each removal in order, if the entity still exists,
    /// the entity's own removal reactors, then the component's removal reactors with the entity.
    /// Returns the number of reactions queued.
    pub fn react_to_removals(&self, removals: &Vec<ComponentRemovals>, out: &mut Vec<ReactCommand>) -> (count: usize)
        requires
            removals@.len() == self@.tracked_removals.len(),
            forall|i: int| 0 <= i < removals@.len() ==> (#[trigger] removals@[i]).component == self@.tracked_removals[i],
        ensures
            final(out)@ == old(out)@ + spec_all_removals_reactions(
                self@.component_reactors,
                removals@.map_values(|c: ComponentRemovals| c@),
            ),
            count == spec_all_removals_reactions(
                self@.component_reactors,
                removals@.map_values(|c: ComponentRemovals| c@),
            ).len(),
    {
        let ghost cs = removals@.map_values(|c: ComponentRemovals| c@);
        let mut count: usize = 0;
        let mut i: usize = 0;
        while i < removals.len()
            invariant
                0 <= i <= removals.len(),
                cs == removals@.map_values(|c: ComponentRemovals| c@),
                out@ == old(out)@ + spec_all_removals_reactions(self@.component_reactors, cs.take(i as int)),
                count == spec_all_removals_reactions(self@.component_reactors, cs.take(i as int)).len(),
            decreases removals.len() - i,
        {
            let c = &removals[i];
            proof {
                assert(cs.take(i + 1).drop_last() =~= cs.take(i as int));
                assert(cs.take(i + 1).last() == c@);
            }
            let n = self.react_to_component_removals(c.component, &c.removed, out);
            // the queue length, which bounds the count, fits in a usize
            let _ = out.len();
            count = count + n;
            i = i + 1;
        }
        assert(cs.take(removals.len() as int) =~= cs);
        count
    }

    /// Revoke the reactor of a token. Reactors on entities are revoked when the command queue is applied: the
    /// revoke command is queued. Component, despawn and resource reactors are revoked at once.
    pub fn revoke(&mut self, token: RevokeToken, out: &mut Vec<ReactCommand>)
        requires
            old(self).wf(),
        ensures
            final(self).wf(),
            final(self)@ == spec_revoke_cache(old(self)@, token),
            final(out)@ == old(out)@ + spec_revoke_commands(token),
    {
        let id = token.callback_id;
        match token.reactor_type {
            ReactorType::EntityInsertion(entity, comp) => {
                out.push(ReactCommand::RevokeEntityReactor { rtype: EntityReactType::Insertion, entity, component: comp, callback: id });
            },
            ReactorType::EntityMutation(entity, comp) => {
                out.push(ReactCommand::RevokeEntityReactor { rtype: EntityReactType::Mutation, entity, component: comp, callback: id });
            },
            ReactorType::EntityRemoval(entity, comp) => {
                out.push(ReactCommand::RevokeEntityReactor { rtype: EntityReactType::Removal, entity, component: comp, callback: id });
            },
            ReactorType::ComponentInsertion(comp) => {
                self.revoke_component_reactor(EntityReactType::Insertion, comp, id);
                assert(out@ =~= old(out)@ + spec_revoke_commands(token));
            },
            ReactorType::ComponentMutation(comp) => {
                self.revoke_component_reactor(EntityReactType::Mutation, comp, id);
                assert(out@ =~= old(out)@ + spec_revoke_commands(token));
            },
            ReactorType::ComponentRemoval(comp) => {
                self.revoke_component_reactor(EntityReactType::Removal, comp, id);
                assert(out@ =~= old(out)@ + spec_revoke_commands(token));
            },
            ReactorType::Despawn(entity) => {
                self.revoke_despawn_reactor(entity, id);
                assert(out@ =~= old(out)@ + spec_revoke_commands(token));
            },
            ReactorType::ResourceMutation(res) => {
                self.revoke_resource_mutation_reactor(res, id);
                assert(out@ =~= old(out)@ + spec_revoke_commands(token));
            },
        }
    }
}

/// The cache after revoking a token (tokens of entity reactors leave the cache unchanged).
pub open spec fn spec_revoke_cache(v: ReactCacheView, token: RevokeToken) -> ReactCacheView {
    let id = token.callback_id;
    match token.reactor_type {
        ReactorType::ComponentInsertion(comp) => ReactCacheView {
            component_reactors: spec_comp_revoke(v.component_reactors, comp, EntityReactType::Insertion, id),
            ..v
        },
        ReactorType::ComponentMutation(comp) => ReactCacheView {
            component_reactors: spec_comp_revoke(v.component_reactors, comp, EntityReactType::Mutation, id),
            ..v
        },
        ReactorType::ComponentRemoval(comp) => ReactCacheView {
            component_reactors: spec_comp_revoke(v.component_reactors, comp, EntityReactType::Removal, id),
            ..v
        },
        ReactorType::Despawn(entity) => ReactCacheView {
            despawn_reactors: spec_revoke(v.despawn_reactors, entity, id),
            ..v
        },
        ReactorType::ResourceMutation(res) => ReactCacheView {
            resource_reactors: spec_revoke(v.resource_reactors, res, id),
            ..v
        },
        _ => v,
    }
}

/// The commands queued by revoking a token: a deferred revoke for entity reactors, nothing otherwise.
pub open spec fn spec_revoke_commands(token: RevokeToken) -> Seq<ReactCommand> {
    let id = token.callback_id;
    match token.reactor_type {
        ReactorType::EntityInsertion(entity, comp) => seq![ReactCommand::RevokeEntityReactor {
            rtype: EntityReactType::Insertion,
            entity: entity,
            component: comp,
            callback: id,
        }],
        ReactorType::EntityMutation(entity, comp) => seq![ReactCommand::RevokeEntityReactor {
            rtype: EntityReactType::Mutation,
            entity: entity,
            component: comp,
            callback: id,
        }],
        ReactorType::EntityRemoval(entity, comp) => seq![ReactCommand::RevokeEntityReactor {
            rtype: EntityReactType::Removal,
            entity: entity,
            component: comp,
            callback: id,
        }],
        _ => Seq::empty(),
    }
}

} // verus!

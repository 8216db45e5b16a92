use vstd::prelude::*;
use crate::ids::{CallbackId, TypeKey};
use crate::react::callback_lists::{list_of, remove_first, spec_push, spec_revoke, CallbackLists};
use crate::react::types::{push_reactions, reactions, EntityReactType, ReactCommand, ReactionInput};

verus! {

/// The reactors registered on one entity: per change kind, per component type, callbacks in registration order.
pub struct EntityReactors {
    insertion_callbacks: CallbackLists,
    mutation_callbacks: CallbackLists,
    removal_callbacks: CallbackLists,
}

/// Abstract view of an entity's reactors.
pub struct EntityReactorsView {
    pub insertion: Map<TypeKey, Seq<CallbackId>>,
    pub mutation: Map<TypeKey, Seq<CallbackId>>,
    pub removal: Map<TypeKey, Seq<CallbackId>>,
}

impl EntityReactorsView {
    /// The lists for a change kind.
    pub open spec fn lists(self, rtype: EntityReactType) -> Map<TypeKey, Seq<CallbackId>> {
        match rtype {
            EntityReactType::Insertion => self.insertion,
            EntityReactType::Mutation => self.mutation,
            EntityReactType::Removal => self.removal,
        }
    }

    /// The view with the lists of a change kind replaced.
    pub open spec fn with_lists(self, rtype: EntityReactType, m: Map<TypeKey, Seq<CallbackId>>) -> Self {
        match rtype {
            EntityReactType::Insertion => EntityReactorsView { insertion: m, ..self },
            EntityReactType::Mutation => EntityReactorsView { mutation: m, ..self },
            EntityReactType::Removal => EntityReactorsView { removal: m, ..self },
        }
    }

    /// No reactors at all.
    pub open spec fn is_empty(self) -> bool {
        self.insertion.dom() =~= Set::empty() && self.mutation.dom() =~= Set::empty() && self.removal.dom()
            =~= Set::empty()
    }

    /// The view after registering `cb` for changes of kind `rtype` to component `comp`.
    pub open spec fn add(self, rtype: EntityReactType, comp: TypeKey, cb: CallbackId) -> Self {
        self.with_lists(rtype, spec_push(self.lists(rtype), comp, cb))
    }

    /// The view after revoking `cb` for changes of kind `rtype` to component `comp`.
    pub open spec fn revoke(self, rtype: EntityReactType, comp: TypeKey, cb: CallbackId) -> Self {
        self.with_lists(rtype, spec_revoke(self.lists(rtype), comp, cb))
    }

    /// Whether revoking empties the component's list.
    pub open spec fn revoke_empties_list(self, rtype: EntityReactType, comp: TypeKey, cb: CallbackId) -> bool {
        self.lists(rtype).contains_key(comp) && remove_first(self.lists(rtype)[comp], cb).len() == 0
    }
}

impl View for EntityReactors {
    type V = EntityReactorsView;

    closed spec fn view(&self) -> EntityReactorsView {
        EntityReactorsView {
            insertion: self.insertion_callbacks@,
            mutation: self.mutation_callbacks@,
            removal: self.removal_callbacks@,
        }
    }
}

impl EntityReactors {
    /// Every stored list is non-empty.
    pub closed spec fn wf(&self) -> bool {
        self.insertion_callbacks.wf() && self.mutation_callbacks.wf() && self.removal_callbacks.wf()
    }

    /// No reactors.
    pub fn new() -> (res: Self)
        ensures
            res.wf(),
            res@.is_empty(),
            res@ == Self::new_view(),
    {
        EntityReactors {
            insertion_callbacks: CallbackLists::new(),
            mutation_callbacks: CallbackLists::new(),
            removal_callbacks: CallbackLists::new(),
        }
    }

    /// Whether there are no reactors at all.
    pub fn is_empty(&self) -> (res: bool)
        ensures
            res == self@.is_empty(),
    {
        self.insertion_callbacks.is_empty() && self.mutation_callbacks.is_empty() && self.removal_callbacks.is_empty()
    }

    /// Register `cb` (after the others) for changes of kind `rtype` to component `comp`.
    pub fn add_callback(&mut self, rtype: EntityReactType, comp: TypeKey, cb: CallbackId)
        requires
            old(self).wf(),
        ensures
            final(self).wf(),
            final(self)@ == old(self)@.add(rtype, comp, cb),
    {
        match rtype {
            EntityReactType::Insertion => self.insertion_callbacks.push(comp, cb),
            EntityReactType::Mutation => self.mutation_callbacks.push(comp, cb),
            EntityReactType::Removal => self.removal_callbacks.push(comp, cb),
        }
    }

    /// Revoke the first registration of `cb` for changes of kind `rtype` to component `comp`.
    /// Returns whether the entity should lose its reactors: the component's list was emptied and no reactor is left.
    pub fn revoke(&mut self, rtype: EntityReactType, comp: TypeKey, cb: CallbackId) -> (remove_reactors: bool)
        requires
            old(self).wf(),
        ensures
            final(self).wf(),
            final(self)@ == old(self)@.revoke(rtype, comp, cb),
            remove_reactors == (old(self)@.revoke_empties_list(rtype, comp, cb) && final(self)@.is_empty()),
    {
        let emptied = match rtype {
            EntityReactType::Insertion => {
                let had = self.insertion_callbacks.get(comp).len() > 0;
                self.insertion_callbacks.revoke(comp, cb);
                had && self.insertion_callbacks.get(comp).len() == 0
            },
            EntityReactType::Mutation => {
                let had = self.mutation_callbacks.get(comp).len() > 0;
                self.mutation_callbacks.revoke(comp, cb);
                had && self.mutation_callbacks.get(comp).len() == 0
            },
            EntityReactType::Removal => {
                let had = self.removal_callbacks.get(comp).len() > 0;
                self.removal_callbacks.revoke(comp, cb);
                had && self.removal_callbacks.get(comp).len() == 0
            },
        };
        emptied && self.is_empty()
    }

    /// The callbacks registered for changes of kind `rtype` to component `comp`, in registration order.
    pub fn callbacks(&self, rtype: EntityReactType, comp: TypeKey) -> (res: Vec<CallbackId>)
        ensures
            res@ == list_of(self@.lists(rtype), comp),
    {
        match rtype {
            EntityReactType::Insertion => self.insertion_callbacks.get(comp),
            EntityReactType::Mutation => self.mutation_callbacks.get(comp),
            EntityReactType::Removal => self.removal_callbacks.get(comp),
        }
    }

    /// Queue the reactions of this entity to a change of kind `rtype` to component `comp`: one per registered
    /// callback, in registration order, without input. Returns the number of reactions queued.
    pub fn react_to_entity_event(&self, rtype: EntityReactType, comp: TypeKey, out: &mut Vec<ReactCommand>) -> (count: usize)
        ensures
            final(out)@ == old(out)@ + reactions(list_of(self@.lists(rtype), comp), ReactionInput::Unit),
            count == list_of(self@.lists(rtype), comp).len(),
    {
        let cbs = self.callbacks(rtype, comp);
        push_reactions(&cbs, ReactionInput::Unit, out);
        cbs.len()
    }
}

/// Register an entity reactor: add it to the entity's reactors, or create them if the entity has none and still
/// exists. Returns the reactors to store on the entity (`None`: the entity no longer exists, nothing to store).
pub fn register_entity_reactor(
    existing: Option<EntityReactors>,
    entity_exists: bool,
    rtype: EntityReactType,
    comp: TypeKey,
    cb: CallbackId,
) -> (res: Option<EntityReactors>)
    requires
        existing matches Some(r) ==> r.wf(),
    ensures
        match existing {
            Some(r) => res matches Some(n) && n.wf() && n@ == r@.add(rtype, comp, cb),
            None => if entity_exists {
                res matches Some(n) && n.wf() && n@ == EntityReactors::new_view().add(rtype, comp, cb)
            } else {
                res is None
            },
        },
{
    match existing {
        Some(mut r) => {
            r.add_callback(rtype, comp, cb);
            Some(r)
        },
        None => {
            if !entity_exists {
                return None;
            }
            let mut r = EntityReactors::new();
            r.add_callback(rtype, comp, cb);
            Some(r)
        },
    }
}

impl EntityReactors {
    /// The view of an entity without reactors.
    pub open spec fn new_view() -> EntityReactorsView {
        EntityReactorsView {
            insertion: Map::empty(),
            mutation: Map::empty(),
            removal: Map::empty(),
        }
    }
}

} // verus!

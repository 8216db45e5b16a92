use vstd::prelude::*;
use std::sync::Arc;
use crate::ids::{EntityId, TypeKey};
use crate::react::cache::comp_of;
use crate::react::callback_lists::list_of;
use crate::react::commands::ReactCommands;
use crate::react::types::{reactions, EntityReactType, ReactCommand, ReactionInput};

verus! {

/// Component wrapper that enables reacting to component mutations. It remembers the entity it was inserted on;
/// moving it to another entity by hand breaks the reactions (insert `take()`n contents through `ReactCommands`).
pub struct React<C> {
    entity: EntityId,
    component: C,
}

impl<C> React<C> {
    pub closed spec fn entity(&self) -> EntityId {
        self.entity
    }

    pub closed spec fn value(&self) -> C {
        self.component
    }

    /// Wrap a component inserted on `entity`.
    pub fn new(entity: EntityId, component: C) -> (res: Self)
        ensures
            res.entity() == entity,
            res.value() == component,
    {
        React { entity, component }
    }

    /// Read the component.
    pub fn get(&self) -> (res: &C)
        ensures
            *res == self.value(),
    {
        &self.component
    }

    /// Mutably access the component and queue the mutation reactions (when there is a cache); `component_type` is
    /// the key of this wrapper's component type.
    pub fn get_mut<'a>(&'a mut self, rcommands: &mut ReactCommands, component_type: TypeKey) -> (res: &'a mut C)
        ensures
            *res == old(self).value(),
            final(self).entity() == old(self).entity(),
            final(self).value() == *final(res),
            final(rcommands).cache == old(rcommands).cache,
            final(rcommands).queue@ == old(rcommands).queue@ + (if old(rcommands).cache is Some {
                seq![ReactCommand::ReactToEntityEvent {
                    rtype: EntityReactType::Mutation,
                    entity: old(self).entity(),
                    component: component_type,
                }] + reactions(
                    comp_of(old(rcommands).cache_view().component_reactors, component_type).mutation,
                    ReactionInput::Entity(old(self).entity()),
                )
            } else {
                Seq::empty()
            }),
    {
        rcommands.react_to_mutation(self.entity, component_type);
        &mut self.component
    }

    /// Mutably access the component without triggering reactions.
    pub fn get_mut_noreact<'a>(&'a mut self) -> (res: &'a mut C)
        ensures
            *res == old(self).value(),
            final(self).entity() == old(self).entity(),
            final(self).value() == *final(res),
    {
        &mut self.component
    }

    /// Unwrap the component.
    pub fn take(self) -> (res: C)
        ensures
            res == self.value(),
    {
        self.component
    }
}

/// Resource wrapper that enables reacting to resource mutations.
pub struct ReactRes<R> {
    resource: R,
}

impl<R> ReactRes<R> {
    pub closed spec fn value(&self) -> R {
        self.resource
    }

    /// New react resource.
    pub fn new(resource: R) -> (res: Self)
        ensures
            res.value() == resource,
    {
        ReactRes { resource }
    }

    /// Read the resource.
    pub fn get(&self) -> (res: &R)
        ensures
            *res == self.value(),
    {
        &self.resource
    }

    /// Mutably access the resource and queue the mutation reactions (when there is a cache; unlike
    /// `trigger_resource_mutation`, this does not require one); `resource_type` is the key of this wrapper's type.
    pub fn get_mut<'a>(&'a mut self, rcommands: &mut ReactCommands, resource_type: TypeKey) -> (res: &'a mut R)
        ensures
            *res == old(self).value(),
            final(self).value() == *final(res),
            final(rcommands).cache == old(rcommands).cache,
            final(rcommands).queue@ == old(rcommands).queue@ + (if old(rcommands).cache is Some {
                reactions(list_of(old(rcommands).cache_view().resource_reactors, resource_type), ReactionInput::Unit)
            } else {
                Seq::empty()
            }),
    {
        rcommands.react_to_resource_mutation(resource_type);
        &mut self.resource
    }

    /// Mutably access the resource without triggering reactions.
    pub fn get_mut_noreact<'a>(&'a mut self) -> (res: &'a mut R)
        ensures
            *res == old(self).value(),
            final(self).value() == *final(res),
    {
        &mut self.resource
    }

    /// Unwrap the resource.
    pub fn take(self) -> (res: R)
        ensures
            res == self.value(),
    {
        self.resource
    }
}

/// Data sent to event reactors; it can only be accessed immutably and is shared by all reactors of the event.
pub struct ReactEvent<E> {
    data: Arc<E>,
}

impl<E> ReactEvent<E> {
    pub closed spec fn value(&self) -> E {
        *self.data
    }

    /// Wrap event data.
    pub fn new(data: E) -> (res: Self)
        ensures
            res.value() == data,
    {
        ReactEvent { data: Arc::new(data) }
    }

    /// Read the event data.
    pub fn get(&self) -> (res: &E)
        ensures
            *res == self.value(),
    {
        &self.data
    }

    /// Another handle on the same event data.
    pub fn clone(&self) -> (res: Self)
        ensures
            res.value() == self.value(),
    {
        ReactEvent { data: Arc::clone(&self.data) }
    }
}

} // verus!

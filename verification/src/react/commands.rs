use vstd::prelude::*;
use crate::ids::{EntityId, TypeKey};
use crate::react::cache::{
    comp_of, spec_comp_push, spec_revoke_cache, spec_revoke_commands, ReactCache, ReactCacheView,
};
use crate::react::callback_lists::{list_of, spec_push};
use crate::react::types::{
    reactions, EntityReactType, EventRevokeToken, ReactCommand, ReactionInput, ReactorType, RevokeToken,
};

verus! {

/// Drives reactivity: registers and revokes reactors and queues reactions as deferred react commands.
///
/// Without a react cache (no react plugin): registering or revoking a reactor is not supported, reactions are not
/// triggered, and sending a data event does nothing. Reactors of the same kind react in the order they were added,
/// and commands are queued in the order the methods were called.
pub struct ReactCommands {
    /// The react cache, present when the react plugin is.
    pub cache: Option<ReactCache>,
    /// Deferred commands, in order.
    pub queue: Vec<ReactCommand>,
}

impl ReactCommands {
    /// The cache is present and well formed and can hand out another callback id.
    pub open spec fn ready(&self) -> bool {
        &&& self.cache matches Some(c)
        &&& c.wf()
        &&& c@.callback_counter < u64::MAX
    }

    /// The cache's view (meaningful when present).
    pub open spec fn cache_view(&self) -> ReactCacheView {
        self.cache->0@
    }

    /// Commands over a cache (or none), with an empty queue.
    pub fn new(cache: Option<ReactCache>) -> (res: Self)
        ensures
            res.cache == cache,
            res.queue@ == Seq::<ReactCommand>::empty(),
    {
        ReactCommands { cache, queue: Vec::new() }
    }

    /// Insert a react component of type `component` on `entity`.
    /// - Returns whether the component is to be inserted: not if the entity does not exist.
    /// - With a cache, queues the insertion reactions (applied when the queue is applied).
    pub fn insert(&mut self, entity: EntityId, entity_exists: bool, component: TypeKey) -> (inserted: bool)
        ensures
            inserted == entity_exists,
            final(self).cache == old(self).cache,
            final(self).queue@ == old(self).queue@ + (if entity_exists && old(self).cache is Some {
                seq![ReactCommand::ReactToEntityEvent {
                    rtype: EntityReactType::Insertion,
                    entity: entity,
                    component: component,
                }] + reactions(
                    comp_of(old(self).cache_view().component_reactors, component).insertion,
                    ReactionInput::Entity(entity),
                )
            } else {
                Seq::empty()
            }),
    {
        if !entity_exists {
            assert(self.queue@ =~= old(self).queue@ + Seq::<ReactCommand>::empty());
            return false;
        }
        match &self.cache {
            Some(cache) => cache.react_to_insertion(component, entity, &mut self.queue),
            None => {
                assert(self.queue@ =~= old(self).queue@ + Seq::<ReactCommand>::empty());
            },
        }
        true
    }

    /// Queue the reactions to a mutation of the react component of type `component` on `entity` (when there is a
    /// cache).
    pub fn react_to_mutation(&mut self, entity: EntityId, component: TypeKey)
        ensures
            final(self).cache == old(self).cache,
            final(self).queue@ == old(self).queue@ + (if old(self).cache is Some {
                seq![ReactCommand::ReactToEntityEvent {
                    rtype: EntityReactType::Mutation,
                    entity: entity,
                    component: component,
                }] + reactions(
                    comp_of(old(self).cache_view().component_reactors, component).mutation,
                    ReactionInput::Entity(entity),
                )
            } else {
                Seq::empty()
            }),
    {
        match &self.cache {
            Some(cache) => cache.react_to_mutation(component, entity, &mut self.queue),
            None => {
                assert(self.queue@ =~= old(self).queue@ + Seq::<ReactCommand>::empty());
            },
        }
    }

    /// Queue the reactions to a mutation of the react resource of type `res` (when there is a cache).
    pub fn react_to_resource_mutation(&mut self, res: TypeKey)
        ensures
            final(self).cache == old(self).cache,
            final(self).queue@ == old(self).queue@ + (if old(self).cache is Some {
                reactions(list_of(old(self).cache_view().resource_reactors, res), ReactionInput::Unit)
            } else {
                Seq::empty()
            }),
    {
        match &self.cache {
            Some(cache) => cache.react_to_resource_mutation(res, &mut self.queue),
            None => {
                assert(self.queue@ =~= old(self).queue@ + Seq::<ReactCommand>::empty());
            },
        }
    }

    /// Send a data event of type `event_type` (payload handle `event`): the reactions are decided when the queue is
    /// applied, with the event reactors registered then. Nothing without a cache.
    pub fn send(&mut self, event_type: TypeKey, event: u64)
        ensures
            final(self).cache == old(self).cache,
            final(self).queue@ == old(self).queue@ + (if old(self).cache is Some {
                seq![ReactCommand::ReactToDataEvent { event_type: event_type, event: event }]
            } else {
                Seq::empty()
            }),
    {
        if self.cache.is_none() {
            assert(self.queue@ =~= old(self).queue@ + Seq::<ReactCommand>::empty());
            return;
        }
        self.queue.push(ReactCommand::ReactToDataEvent { event_type, event });
    }

    /// Trigger the mutation reactions of resource `res` (useful to initialize state after registering a reactor).
    pub fn trigger_resource_mutation(&mut self, res: TypeKey)
        requires
            old(self).cache is Some,
        ensures
            final(self).cache == old(self).cache,
            final(self).queue@ == old(self).queue@ + reactions(
                list_of(old(self).cache_view().resource_reactors, res),
                ReactionInput::Unit,
            ),
    {
        self.react_to_resource_mutation(res);
    }

    /// Revoke a reactor. Entity reactors are revoked when the queue is applied; component, despawn and resource
    /// reactors are revoked at once.
    pub fn revoke(&mut self, token: RevokeToken)
        requires
            old(self).cache matches Some(c) && c.wf(),
        ensures
            final(self).cache matches Some(c) && c.wf() && c@ == spec_revoke_cache(old(self).cache_view(), token),
            final(self).queue@ == old(self).queue@ + spec_revoke_commands(token),
    {
        let mut cache = self.cache.take().unwrap();
        cache.revoke(token, &mut self.queue);
        self.cache = Some(cache);
    }

    /// Revoke an event reactor when the queue is applied.
    pub fn revoke_event_reactor(&mut self, token: EventRevokeToken)
        ensures
            final(self).cache == old(self).cache,
            final(self).queue@ == old(self).queue@.push(
                ReactCommand::RevokeEventReactor { event_type: token.event_type, callback: token.callback_id },
            ),
    {
        self.queue.push(ReactCommand::RevokeEventReactor { event_type: token.event_type, callback: token.callback_id });
    }

    /// React when a react component of type `component` is inserted on any entity. Registered at once; the
    /// reactor takes the entity and is identified by the token's callback id.
    pub fn on_insertion(&mut self, component: TypeKey) -> (token: RevokeToken)
        requires
            old(self).ready(),
        ensures
            final(self).cache matches Some(c) && c.wf(),
            final(self).queue == old(self).queue,
            token == (RevokeToken {
                reactor_type: ReactorType::ComponentInsertion(component),
                callback_id: old(self).cache_view().callback_counter as u64,
            }),
            final(self).cache_view() == (ReactCacheView {
                callback_counter: old(self).cache_view().callback_counter + 1,
                component_reactors: spec_comp_push(
                    old(self).cache_view().component_reactors,
                    component,
                    EntityReactType::Insertion,
                    token.callback_id,
                ),
                ..old(self).cache_view()
            }),
    {
        let mut cache = self.cache.take().unwrap();
        let token = cache.register_insertion_reactor(component);
        self.cache = Some(cache);
        token
    }

    /// React when a react component of type `component` is mutated on any entity. Registered at once; the
    /// reactor takes the entity.
    pub fn on_mutation(&mut self, component: TypeKey) -> (token: RevokeToken)
        requires
            old(self).ready(),
        ensures
            final(self).cache matches Some(c) && c.wf(),
            final(self).queue == old(self).queue,
            token == (RevokeToken {
                reactor_type: ReactorType::ComponentMutation(component),
                callback_id: old(self).cache_view().callback_counter as u64,
            }),
            final(self).cache_view() == (ReactCacheView {
                callback_counter: old(self).cache_view().callback_counter + 1,
                component_reactors: spec_comp_push(
                    old(self).cache_view().component_reactors,
                    component,
                    EntityReactType::Mutation,
                    token.callback_id,
                ),
                ..old(self).cache_view()
            }),
    {
        let mut cache = self.cache.take().unwrap();
        let token = cache.register_mutation_reactor(component);
        self.cache = Some(cache);
        token
    }

    /// React when a component of type `component` is removed from any entity. Removals of the component become
    /// tracked; registered at once; the reactor takes the entity.
    pub fn on_removal(&mut self, component: TypeKey) -> (token: RevokeToken)
        requires
            old(self).ready(),
        ensures
            final(self).cache matches Some(c) && c.wf(),
            final(self).queue == old(self).queue,
            token == (RevokeToken {
                reactor_type: ReactorType::ComponentRemoval(component),
                callback_id: old(self).cache_view().callback_counter as u64,
            }),
            final(self).cache_view() == (ReactCacheView {
                callback_counter: old(self).cache_view().callback_counter + 1,
                component_reactors: spec_comp_push(
                    old(self).cache_view().component_reactors,
                    component,
                    EntityReactType::Removal,
                    token.callback_id,
                ),
                tracked_removals: if old(self).cache_view().tracked_removals.contains(component) {
                    old(self).cache_view().tracked_removals
                } else {
                    old(self).cache_view().tracked_removals.push(component)
                },
                ..old(self).cache_view()
            }),
    {
        let mut cache = self.cache.take().unwrap();
        cache.track_removals(component);
        let token = cache.register_removal_reactor(component);
        self.cache = Some(cache);
        token
    }

    fn on_entity(&mut self, rtype: EntityReactType, entity: EntityId, component: TypeKey) -> (id: u64)
        requires
            old(self).ready(),
        ensures
            final(self).cache matches Some(c) && c.wf(),
            id == old(self).cache_view().callback_counter,
            final(self).cache_view() == (ReactCacheView {
                callback_counter: old(self).cache_view().callback_counter + 1,
                ..old(self).cache_view()
            }),
            final(self).queue@ == old(self).queue@.push(
                ReactCommand::RegisterEntityReactor { rtype: rtype, entity: entity, component: component, callback: id },
            ),
    {
        let mut cache = self.cache.take().unwrap();
        let id = cache.next_callback_id();
        self.cache = Some(cache);
        self.queue.push(ReactCommand::RegisterEntityReactor { rtype, entity, component, callback: id });
        id
    }

    /// React when a react component of type `component` is inserted on `entity`. Registered when the queue is
    /// applied (nothing if the entity no longer exists then).
    pub fn on_entity_insertion(&mut self, entity: EntityId, component: TypeKey) -> (token: RevokeToken)
        requires
            old(self).ready(),
        ensures
            final(self).cache matches Some(c) && c.wf(),
            token == (RevokeToken {
                reactor_type: ReactorType::EntityInsertion(entity, component),
                callback_id: old(self).cache_view().callback_counter as u64,
            }),
            final(self).cache_view() == (ReactCacheView {
                callback_counter: old(self).cache_view().callback_counter + 1,
                ..old(self).cache_view()
            }),
            final(self).queue@ == old(self).queue@.push(
                ReactCommand::RegisterEntityReactor {
                    rtype: EntityReactType::Insertion,
                    entity: entity,
                    component: component,
                    callback: token.callback_id,
                },
            ),
    {
        let id = self.on_entity(EntityReactType::Insertion, entity, component);
        RevokeToken { reactor_type: ReactorType::EntityInsertion(entity, component), callback_id: id }
    }

    /// React when a react component of type `component` is mutated on `entity`. Registered when the queue is
    /// applied (nothing if the entity no longer exists then).
    pub fn on_entity_mutation(&mut self, entity: EntityId, component: TypeKey) -> (token: RevokeToken)
        requires
            old(self).ready(),
        ensures
            final(self).cache matches Some(c) && c.wf(),
            token == (RevokeToken {
                reactor_type: ReactorType::EntityMutation(entity, component),
                callback_id: old(self).cache_view().callback_counter as u64,
            }),
            final(self).cache_view() == (ReactCacheView {
                callback_counter: old(self).cache_view().callback_counter + 1,
                ..old(self).cache_view()
            }),
            final(self).queue@ == old(self).queue@.push(
                ReactCommand::RegisterEntityReactor {
                    rtype: EntityReactType::Mutation,
                    entity: entity,
                    component: component,
                    callback: token.callback_id,
                },
            ),
    {
        let id = self.on_entity(EntityReactType::Mutation, entity, component);
        RevokeToken { reactor_type: ReactorType::EntityMutation(entity, component), callback_id: id }
    }

    /// React when a component of type `component` is removed from `entity`. Removals of the component become
    /// tracked at once; the reactor is registered when the queue is applied.
    pub fn on_entity_removal(&mut self, entity: EntityId, component: TypeKey) -> (token: RevokeToken)
        requires
            old(self).ready(),
        ensures
            final(self).cache matches Some(c) && c.wf(),
            token == (RevokeToken {
                reactor_type: ReactorType::EntityRemoval(entity, component),
                callback_id: old(self).cache_view().callback_counter as u64,
            }),
            final(self).cache_view() == (ReactCacheView {
                callback_counter: old(self).cache_view().callback_counter + 1,
                tracked_removals: if old(self).cache_view().tracked_removals.contains(component) {
                    old(self).cache_view().tracked_removals
                } else {
                    old(self).cache_view().tracked_removals.push(component)
                },
                ..old(self).cache_view()
            }),
            final(self).queue@ == old(self).queue@.push(
                ReactCommand::RegisterEntityReactor {
                    rtype: EntityReactType::Removal,
                    entity: entity,
                    component: component,
                    callback: token.callback_id,
                },
            ),
    {
        let mut cache = self.cache.take().unwrap();
        cache.track_removals(component);
        self.cache = Some(cache);
        let id = self.on_entity(EntityReactType::Removal, entity, component);
        RevokeToken { reactor_type: ReactorType::EntityRemoval(entity, component), callback_id: id }
    }

    /// React once when `entity` is despawned. Registered at once. Returns `None` (and does nothing) if the entity
    /// does not exist; otherwise the entity's despawn is tracked when the queue is applied.
    pub fn on_despawn(&mut self, entity: EntityId, entity_exists: bool) -> (token: Option<RevokeToken>)
        requires
            old(self).ready(),
        ensures
            final(self).cache matches Some(c) && c.wf(),
            !entity_exists ==> token is None && final(self).cache == old(self).cache && final(self).queue
                == old(self).queue,
            entity_exists ==> {
                &&& token == Some(RevokeToken {
                    reactor_type: ReactorType::Despawn(entity),
                    callback_id: old(self).cache_view().callback_counter as u64,
                })
                &&& final(self).cache_view() == (ReactCacheView {
                    callback_counter: old(self).cache_view().callback_counter + 1,
                    despawn_reactors: spec_push(
                        old(self).cache_view().despawn_reactors,
                        entity,
                        old(self).cache_view().callback_counter as u64,
                    ),
                    ..old(self).cache_view()
                })
                &&& final(self).queue@ == old(self).queue@.push(ReactCommand::AddDespawnTracker { entity: entity })
            },
    {
        if !entity_exists {
            return None;
        }
        self.queue.push(ReactCommand::AddDespawnTracker { entity });
        let mut cache = self.cache.take().unwrap();
        let token = cache.register_despawn_reactor(entity);
        self.cache = Some(cache);
        Some(token)
    }

    /// React when the react resource of type `res` is mutated. Registered at once.
    pub fn on_resource_mutation(&mut self, res: TypeKey) -> (token: RevokeToken)
        requires
            old(self).ready(),
        ensures
            final(self).cache matches Some(c) && c.wf(),
            final(self).queue == old(self).queue,
            token == (RevokeToken {
                reactor_type: ReactorType::ResourceMutation(res),
                callback_id: old(self).cache_view().callback_counter as u64,
            }),
            final(self).cache_view() == (ReactCacheView {
                callback_counter: old(self).cache_view().callback_counter + 1,
                resource_reactors: spec_push(old(self).cache_view().resource_reactors, res, token.callback_id),
                ..old(self).cache_view()
            }),
    {
        let mut cache = self.cache.take().unwrap();
        let token = cache.register_resource_mutation_reactor(res);
        self.cache = Some(cache);
        token
    }

    /// React when a data event of type `event_type` is sent. Registered when the queue is applied; reactions only
    /// occur for events sent through `send`.
    pub fn on_event(&mut self, event_type: TypeKey) -> (token: EventRevokeToken)
        requires
            old(self).ready(),
        ensures
            final(self).cache matches Some(c) && c.wf(),
            token == (EventRevokeToken {
                event_type: event_type,
                callback_id: old(self).cache_view().callback_counter as u64,
            }),
            final(self).cache_view() == (ReactCacheView {
                callback_counter: old(self).cache_view().callback_counter + 1,
                ..old(self).cache_view()
            }),
            final(self).queue@ == old(self).queue@.push(
                ReactCommand::RegisterEventReactor { event_type: event_type, callback: token.callback_id },
            ),
    {
        let mut cache = self.cache.take().unwrap();
        let id = cache.next_callback_id();
        self.cache = Some(cache);
        self.queue.push(ReactCommand::RegisterEventReactor { event_type, callback: id });
        EventRevokeToken { event_type, callback_id: id }
    }
}

} // verus!

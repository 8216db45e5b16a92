use vstd::prelude::*;
use crate::ids::{CallbackId, EntityId, TypeKey};

verus! {

/// The kind of change an entity or component reactor reacts to.
#[derive(Debug, Copy, Clone, PartialEq, Eq, Structural)]
pub enum EntityReactType {
    Insertion,
    Mutation,
    Removal,
}

/// What a revoke token revokes.
#[derive(Debug, Copy, Clone, PartialEq, Eq, Structural)]
pub enum ReactorType {
    EntityInsertion(EntityId, TypeKey),
    EntityMutation(EntityId, TypeKey),
    EntityRemoval(EntityId, TypeKey),
    ComponentInsertion(TypeKey),
    ComponentMutation(TypeKey),
    ComponentRemoval(TypeKey),
    Despawn(EntityId),
    ResourceMutation(TypeKey),
}

/// Token for revoking reactors (event reactors use [`EventRevokeToken`]).
#[derive(Debug, Copy, Clone, PartialEq, Eq, Structural)]
pub struct RevokeToken {
    pub reactor_type: ReactorType,
    pub callback_id: CallbackId,
}

/// Token for revoking event reactors of the event type `event_type`.
#[derive(Debug, Copy, Clone, PartialEq, Eq, Structural)]
pub struct EventRevokeToken {
    pub event_type: TypeKey,
    pub callback_id: CallbackId,
}

/// The input a reactor callback is run with.
#[derive(Debug, Copy, Clone, PartialEq, Eq, Structural)]
pub enum ReactionInput {
    /// No input.
    Unit,
    /// The entity the change happened on.
    Entity(EntityId),
    /// A sent data event: the handle of its payload, held by the sender's side.
    Event(u64),
}

/// A deferred react command, applied in order when the command queue is applied.
#[derive(Debug, Copy, Clone, PartialEq, Eq, Structural)]
pub enum ReactCommand {
    /// Run a reactor callback, then apply its deferred commands, then react to all removals and despawns.
    Reaction { callback: CallbackId, input: ReactionInput },
    /// React to a change of a component on a specific entity, with the entity's own reactors at that time.
    ReactToEntityEvent { rtype: EntityReactType, entity: EntityId, component: TypeKey },
    /// React to a data event, with the event reactors registered at that time.
    ReactToDataEvent { event_type: TypeKey, event: u64 },
    /// Register a reactor on a specific entity (nothing if the entity no longer exists).
    RegisterEntityReactor { rtype: EntityReactType, entity: EntityId, component: TypeKey, callback: CallbackId },
    /// Revoke a reactor on a specific entity.
    RevokeEntityReactor { rtype: EntityReactType, entity: EntityId, component: TypeKey, callback: CallbackId },
    /// Register an event reactor.
    RegisterEventReactor { event_type: TypeKey, callback: CallbackId },
    /// Revoke an event reactor.
    RevokeEventReactor { event_type: TypeKey, callback: CallbackId },
    /// Track the despawn of an entity (if it no longer exists, its despawn is reported at once).
    AddDespawnTracker { entity: EntityId },
}

/// Reactions that run each callback of `cbs`, in order, with `input`.
pub open spec fn reactions(cbs: Seq<CallbackId>, input: ReactionInput) -> Seq<ReactCommand> {
    cbs.map_values(|cb: CallbackId| ReactCommand::Reaction { callback: cb, input: input })
}

/// Push a reaction for each callback of `cbs`, in order, with `input`.
pub fn push_reactions(cbs: &Vec<CallbackId>, input: ReactionInput, out: &mut Vec<ReactCommand>)
    ensures
        final(out)@ == old(out)@ + reactions(cbs@, input),
{
    let mut i: usize = 0;
    while i < cbs.len()
        invariant
            0 <= i <= cbs.len(),
            out@ =~= old(out)@ + reactions(cbs@.take(i as int), input),
        decreases cbs.len() - i,
    {
        out.push(ReactCommand::Reaction { callback: cbs[i], input });
        i = i + 1;
        assert(reactions(cbs@.take(i as int), input) =~= reactions(cbs@.take(i - 1), input).push(
            ReactCommand::Reaction { callback: cbs@[i - 1], input: input },
        ));
    }
    assert(cbs@.take(cbs.len() as int) =~= cbs@);
}

} // verus!

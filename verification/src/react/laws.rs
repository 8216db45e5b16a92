use vstd::prelude::*;
use crate::ids::{CallbackId, EntityId, TypeKey};
use crate::react::cache::{
    comp_of, ids_below, spec_comp_push, spec_comp_revoke, spec_despawn_reactions, spec_despawn_remaining,
    spec_revoke_cache, ComponentReactorsView, ReactCacheView,
};
use crate::react::callback_lists::{
    lemma_remove_first_absent, lemma_remove_first_pushed, list_of, no_empty_lists, remove_first, spec_push, spec_revoke,
};
use crate::react::entity_reactors::EntityReactorsView;
use crate::react::cache::{spec_removal_reactions, spec_revoke_commands, RemovedEntityView};
use crate::react::types::{reactions, EntityReactType, ReactCommand, ReactionInput, ReactorType, RevokeToken};

verus! {

/// An id below the counter of a list is not the counter.
proof fn lemma_counter_not_in(s: Seq<CallbackId>, c: nat)
    requires
        ids_below(s, c),
    ensures
        !s.contains(c as CallbackId) || c > u64::MAX,
{
    if c <= u64::MAX && s.contains(c as CallbackId) {
        let k = choose|k: int| 0 <= k < s.len() && s[k] == c as CallbackId;
        assert(s[k] < c);
    }
}

/// Revoking a list registration pushed onto a list without it gives the map back.
proof fn lemma_revoke_after_push(m: Map<u64, Seq<CallbackId>>, k: u64, cb: CallbackId)
    requires
        no_empty_lists(m),
        !list_of(m, k).contains(cb),
    ensures
        spec_revoke(spec_push(m, k, cb), k, cb) == m,
{
    lemma_remove_first_pushed(list_of(m, k), cb);
    if m.contains_key(k) {
        assert(spec_revoke(spec_push(m, k, cb), k, cb) =~= m);
    } else {
        assert(spec_revoke(spec_push(m, k, cb), k, cb) =~= m);
    }
}

/// A fresh callback id (the counter) is registered nowhere in a well-formed cache.
pub proof fn lemma_fresh_id(v: ReactCacheView, k: u64)
    requires
        v.wf(),
        v.callback_counter <= u64::MAX,
    ensures
        !list_of(v.despawn_reactors, k).contains(v.callback_counter as CallbackId),
        !list_of(v.resource_reactors, k).contains(v.callback_counter as CallbackId),
        !comp_of(v.component_reactors, k).insertion.contains(v.callback_counter as CallbackId),
        !comp_of(v.component_reactors, k).mutation.contains(v.callback_counter as CallbackId),
        !comp_of(v.component_reactors, k).removal.contains(v.callback_counter as CallbackId),
{
    if v.despawn_reactors.contains_key(k) {
        lemma_counter_not_in(v.despawn_reactors[k], v.callback_counter);
    }
    if v.resource_reactors.contains_key(k) {
        lemma_counter_not_in(v.resource_reactors[k], v.callback_counter);
    }
    if v.component_reactors.contains_key(k) {
        let c = v.component_reactors[k];
        lemma_counter_not_in(c.insertion, v.callback_counter);
        lemma_counter_not_in(c.mutation, v.callback_counter);
        lemma_counter_not_in(c.removal, v.callback_counter);
    }
}

/// Revoking the token of a component reactor right after registering it gives the component reactors back.
pub proof fn lemma_revoke_undoes_component_registration(v: ReactCacheView, rtype: EntityReactType, comp: TypeKey)
    requires
        v.wf(),
        v.callback_counter < u64::MAX,
    ensures
        ({
            let id = v.callback_counter as CallbackId;
            let token = RevokeToken {
                reactor_type: match rtype {
                    EntityReactType::Insertion => ReactorType::ComponentInsertion(comp),
                    EntityReactType::Mutation => ReactorType::ComponentMutation(comp),
                    EntityReactType::Removal => ReactorType::ComponentRemoval(comp),
                },
                callback_id: id,
            };
            let registered = ReactCacheView {
                callback_counter: v.callback_counter + 1,
                component_reactors: spec_comp_push(v.component_reactors, comp, rtype, id),
                ..v
            };
            spec_revoke_cache(registered, token) == (ReactCacheView { callback_counter: v.callback_counter + 1, ..v })
        }),
{
    let id = v.callback_counter as CallbackId;
    lemma_fresh_id(v, comp);
    let c = comp_of(v.component_reactors, comp);
    lemma_remove_first_pushed(c.list(rtype), id);
    let pushed = spec_comp_push(v.component_reactors, comp, rtype, id);
    let revoked = spec_comp_revoke(pushed, comp, rtype, id);
    let c2 = pushed[comp].with_list(rtype, remove_first(pushed[comp].list(rtype), id));
    assert(c2 == c);
    if v.component_reactors.contains_key(comp) {
        assert(revoked =~= v.component_reactors);
    } else {
        assert(c2.is_empty());
        assert(revoked =~= v.component_reactors);
    }
}

/// Revoking the token of a despawn reactor right after registering it gives the despawn reactors back.
pub proof fn lemma_revoke_undoes_despawn_registration(v: ReactCacheView, entity: EntityId)
    requires
        v.wf(),
        no_empty_lists(v.despawn_reactors),
        v.callback_counter < u64::MAX,
    ensures
        ({
            let id = v.callback_counter as CallbackId;
            let registered = ReactCacheView {
                callback_counter: v.callback_counter + 1,
                despawn_reactors: spec_push(v.despawn_reactors, entity, id),
                ..v
            };
            spec_revoke_cache(registered, RevokeToken { reactor_type: ReactorType::Despawn(entity), callback_id: id })
                == (ReactCacheView { callback_counter: v.callback_counter + 1, ..v })
        }),
{
    lemma_fresh_id(v, entity);
    lemma_revoke_after_push(v.despawn_reactors, entity, v.callback_counter as CallbackId);
}

/// Revoking the token of a resource mutation reactor right after registering it gives the resource reactors
/// back.
pub proof fn lemma_revoke_undoes_resource_registration(v: ReactCacheView, res: TypeKey)
    requires
        v.wf(),
        no_empty_lists(v.resource_reactors),
        v.callback_counter < u64::MAX,
    ensures
        ({
            let id = v.callback_counter as CallbackId;
            let registered = ReactCacheView {
                callback_counter: v.callback_counter + 1,
                resource_reactors: spec_push(v.resource_reactors, res, id),
                ..v
            };
            spec_revoke_cache(
                registered,
                RevokeToken { reactor_type: ReactorType::ResourceMutation(res), callback_id: id },
            ) == (ReactCacheView { callback_counter: v.callback_counter + 1, ..v })
        }),
{
    lemma_fresh_id(v, res);
    lemma_revoke_after_push(v.resource_reactors, res, v.callback_counter as CallbackId);
}

/// Revoking an event reactor right after registering it (with a callback not yet registered for the event type)
/// gives the event reactors back.
pub proof fn lemma_revoke_undoes_event_registration(m: Map<TypeKey, Seq<CallbackId>>, event_type: TypeKey, cb: CallbackId)
    requires
        no_empty_lists(m),
        !list_of(m, event_type).contains(cb),
    ensures
        spec_revoke(spec_push(m, event_type, cb), event_type, cb) == m,
{
    lemma_revoke_after_push(m, event_type, cb);
}

/// Revoking an entity reactor right after adding it (with a callback not yet registered there) gives the entity's
/// reactors back.
pub proof fn lemma_revoke_undoes_entity_registration(
    v: EntityReactorsView,
    rtype: EntityReactType,
    comp: TypeKey,
    cb: CallbackId,
)
    requires
        no_empty_lists(v.lists(rtype)),
        !list_of(v.lists(rtype), comp).contains(cb),
    ensures
        v.add(rtype, comp, cb).revoke(rtype, comp, cb) == v,
{
    lemma_revoke_after_push(v.lists(rtype), comp, cb);
    assert(v.add(rtype, comp, cb).lists(rtype) == spec_push(v.lists(rtype), comp, cb));
}

/// Reactors react in the order they were added: registering appends the new reactor after the existing ones,
/// and leaves the other change kinds of the component alone.
pub proof fn lemma_registration_order(
    m: Map<TypeKey, ComponentReactorsView>,
    comp: TypeKey,
    rtype: EntityReactType,
    other: EntityReactType,
    cb: CallbackId,
)
    requires
        other != rtype,
    ensures
        comp_of(spec_comp_push(m, comp, rtype, cb), comp).list(rtype) == comp_of(m, comp).list(rtype).push(cb),
        comp_of(spec_comp_push(m, comp, rtype, cb), comp).list(other) == comp_of(m, comp).list(other),
{
}

/// A despawn reactor reacts once: a second despawn report of the same entity queues nothing more, and the entity
/// keeps no despawn reactors.
pub proof fn lemma_despawn_reacts_once(m: Map<EntityId, Seq<CallbackId>>, e: EntityId)
    ensures
        spec_despawn_reactions(m, seq![e, e]) == reactions(list_of(m, e), ReactionInput::Unit),
        !spec_despawn_remaining(m, seq![e, e]).contains_key(e),
{
    let s0 = Seq::<EntityId>::empty();
    let s1 = seq![e];
    let s2 = seq![e, e];
    assert(s2.drop_last() =~= s1);
    assert(s1.drop_last() =~= s0);
    assert(s1.last() == e);
    assert(s2.last() == e);
    assert(spec_despawn_remaining(m, s0) == m);
    assert(spec_despawn_reactions(m, s0) == Seq::<crate::react::types::ReactCommand>::empty());
    assert(spec_despawn_remaining(m, s1) == m.remove(e));
    assert(spec_despawn_reactions(m, s1) =~= reactions(list_of(m, e), ReactionInput::Unit));
    assert(list_of(m.remove(e), e) =~= Seq::<CallbackId>::empty());
    assert(reactions(Seq::<CallbackId>::empty(), ReactionInput::Unit) =~= Seq::empty());
    assert(spec_despawn_reactions(m, s2) =~= spec_despawn_reactions(m, s1));
    assert(spec_despawn_remaining(m, s2) == m.remove(e).remove(e));
}

/// The token of a component reactor of kind `rtype` for `comp` with callback `id`.
pub open spec fn component_token(rtype: EntityReactType, comp: TypeKey, id: CallbackId) -> RevokeToken {
    RevokeToken {
        reactor_type: match rtype {
            EntityReactType::Insertion => ReactorType::ComponentInsertion(comp),
            EntityReactType::Mutation => ReactorType::ComponentMutation(comp),
            EntityReactType::Removal => ReactorType::ComponentRemoval(comp),
        },
        callback_id: id,
    }
}

/// A component reactor reacts to the changes it was registered for, after the reactors registered before it,
/// until it is revoked; once revoked, it no longer reacts.
pub proof fn lemma_registered_reactor_reacts_until_revoked(
    v: ReactCacheView,
    rtype: EntityReactType,
    comp: TypeKey,
    e: EntityId,
)
    requires
        v.wf(),
        v.callback_counter < u64::MAX,
    ensures
        ({
            let id = v.callback_counter as CallbackId;
            let registered = ReactCacheView {
                callback_counter: v.callback_counter + 1,
                component_reactors: spec_comp_push(v.component_reactors, comp, rtype, id),
                ..v
            };
            let revoked = spec_revoke_cache(registered, component_token(rtype, comp, id));
            let reaction = ReactCommand::Reaction { callback: id, input: ReactionInput::Entity(e) };
            &&& reactions(comp_of(registered.component_reactors, comp).list(rtype), ReactionInput::Entity(e))
                == reactions(comp_of(v.component_reactors, comp).list(rtype), ReactionInput::Entity(e)).push(
                reaction,
            )
            &&& !reactions(comp_of(revoked.component_reactors, comp).list(rtype), ReactionInput::Entity(e)).contains(
                reaction,
            )
        }),
{
    let id = v.callback_counter as CallbackId;
    let input = ReactionInput::Entity(e);
    let reaction = ReactCommand::Reaction { callback: id, input: input };
    let before = comp_of(v.component_reactors, comp).list(rtype);
    assert(reactions(before.push(id), input) =~= reactions(before, input).push(reaction));
    lemma_revoke_undoes_component_registration(v, rtype, comp);
    assert(component_token(rtype, comp, id) == (RevokeToken {
        reactor_type: match rtype {
            EntityReactType::Insertion => ReactorType::ComponentInsertion(comp),
            EntityReactType::Mutation => ReactorType::ComponentMutation(comp),
            EntityReactType::Removal => ReactorType::ComponentRemoval(comp),
        },
        callback_id: id,
    }));
    lemma_fresh_id(v, comp);
    if reactions(before, input).contains(reaction) {
        let k = choose|k: int| 0 <= k < reactions(before, input).len() && reactions(before, input)[k] == reaction;
        assert(before[k] == id);
        assert(before.contains(id));
    }
}

/// `x` occurs at most once in `s` (a callback is registered once).
pub open spec fn at_most_once(s: Seq<CallbackId>, x: CallbackId) -> bool {
    forall|i: int, j: int| 0 <= i < s.len() && 0 <= j < s.len() && s[i] == x && s[j] == x ==> i == j
}

proof fn lemma_remove_first_once(s: Seq<CallbackId>, x: CallbackId)
    requires
        at_most_once(s, x),
    ensures
        !remove_first(s, x).contains(x),
        forall|y: CallbackId| y != x ==> (remove_first(s, x).contains(y) <==> s.contains(y)),
        remove_first(remove_first(s, x), x) == remove_first(s, x),
    decreases s.len(),
{
    if s.len() > 0 {
        let t = s.drop_first();
        assert(at_most_once(t, x)) by {
            assert forall|i: int, j: int| 0 <= i < t.len() && 0 <= j < t.len() && t[i] == x && t[j] == x implies i
                == j by {
                assert(s[i + 1] == x && s[j + 1] == x);
            }
        }
        lemma_remove_first_once(t, x);
        if s[0] == x {
            assert(!t.contains(x)) by {
                if t.contains(x) {
                    let k = choose|k: int| 0 <= k < t.len() && t[k] == x;
                    assert(s[k + 1] == x && s[0] == x);
                }
            }
            lemma_remove_first_absent(t, x);
            assert forall|y: CallbackId| y != x implies (t.contains(y) <==> s.contains(y)) by {
                if s.contains(y) {
                    let k = choose|k: int| 0 <= k < s.len() && s[k] == y;
                    assert(k > 0);
                    assert(t[k - 1] == y);
                }
                if t.contains(y) {
                    let k = choose|k: int| 0 <= k < t.len() && t[k] == y;
                    assert(s[k + 1] == y);
                }
            }
        } else {
            let r = remove_first(t, x);
            assert(remove_first(s, x) == seq![s[0]] + r);
            assert(!(seq![s[0]] + r).contains(x)) by {
                if (seq![s[0]] + r).contains(x) {
                    let k = choose|k: int| 0 <= k < (seq![s[0]] + r).len() && (seq![s[0]] + r)[k] == x;
                    if k > 0 {
                        assert(r[k - 1] == x);
                    }
                }
            }
            assert forall|y: CallbackId| y != x implies ((seq![s[0]] + r).contains(y) <==> s.contains(y)) by {
                if s.contains(y) {
                    let k = choose|k: int| 0 <= k < s.len() && s[k] == y;
                    if k == 0 {
                        assert((seq![s[0]] + r)[0] == y);
                    } else {
                        assert(t[k - 1] == y);
                        assert(t.contains(y));
                        assert(r.contains(y));
                        let m = choose|m: int| 0 <= m < r.len() && r[m] == y;
                        assert((seq![s[0]] + r)[m + 1] == y);
                    }
                }
                if (seq![s[0]] + r).contains(y) {
                    let k = choose|k: int| 0 <= k < (seq![s[0]] + r).len() && (seq![s[0]] + r)[k] == y;
                    if k == 0 {
                        assert(s[0] == y);
                    } else {
                        assert(r[k - 1] == y);
                        assert(r.contains(y));
                        assert(t.contains(y));
                        let m = choose|m: int| 0 <= m < t.len() && t[m] == y;
                        assert(s[m + 1] == y);
                    }
                }
            }
            assert((seq![s[0]] + r)[0] == s[0]);
            assert((seq![s[0]] + r).drop_first() =~= r);
        }
    }
}

/// Revoking in a map of lists: the key's list loses the callback; the same revoke again changes nothing.
proof fn lemma_map_revoke_once(m: Map<u64, Seq<CallbackId>>, k: u64, cb: CallbackId)
    requires
        at_most_once(list_of(m, k), cb),
    ensures
        list_of(spec_revoke(m, k, cb), k) == remove_first(list_of(m, k), cb),
        spec_revoke(spec_revoke(m, k, cb), k, cb) == spec_revoke(m, k, cb),
        forall|j: u64| j != k ==> list_of(spec_revoke(m, k, cb), j) == list_of(m, j),
{
    lemma_remove_first_once(list_of(m, k), cb);
    let r = spec_revoke(m, k, cb);
    if m.contains_key(k) {
        if remove_first(m[k], cb).len() == 0 {
            assert(list_of(r, k) =~= remove_first(list_of(m, k), cb));
        } else {
            assert(spec_revoke(r, k, cb) =~= r);
        }
    }
    assert forall|j: u64| j != k implies list_of(spec_revoke(m, k, cb), j) == list_of(m, j) by {
    }
}

/// The reactors of the kind and key a token revokes (none for entity reactors, which live on their entity).
pub open spec fn token_list(v: ReactCacheView, t: RevokeToken) -> Seq<CallbackId> {
    match t.reactor_type {
        ReactorType::ComponentInsertion(comp) => comp_of(v.component_reactors, comp).insertion,
        ReactorType::ComponentMutation(comp) => comp_of(v.component_reactors, comp).mutation,
        ReactorType::ComponentRemoval(comp) => comp_of(v.component_reactors, comp).removal,
        ReactorType::Despawn(entity) => list_of(v.despawn_reactors, entity),
        ReactorType::ResourceMutation(res) => list_of(v.resource_reactors, res),
        _ => Seq::empty(),
    }
}

proof fn lemma_comp_revoke_once(m: Map<TypeKey, ComponentReactorsView>, comp: TypeKey, rtype: EntityReactType, cb: CallbackId)
    requires
        at_most_once(comp_of(m, comp).list(rtype), cb),
    ensures
        comp_of(spec_comp_revoke(m, comp, rtype, cb), comp).list(rtype) == remove_first(comp_of(m, comp).list(rtype), cb),
        spec_comp_revoke(spec_comp_revoke(m, comp, rtype, cb), comp, rtype, cb) == spec_comp_revoke(m, comp, rtype, cb),
{
    lemma_remove_first_once(comp_of(m, comp).list(rtype), cb);
    let r = spec_comp_revoke(m, comp, rtype, cb);
    if m.contains_key(comp) {
        let c = m[comp].with_list(rtype, remove_first(m[comp].list(rtype), cb));
        assert(c.list(rtype) == remove_first(m[comp].list(rtype), cb));
        if c.is_empty() {
            assert(comp_of(r, comp).list(rtype) =~= remove_first(comp_of(m, comp).list(rtype), cb));
        } else {
            let c2 = c.with_list(rtype, remove_first(c.list(rtype), cb));
            assert(c2 == c);
            assert(spec_comp_revoke(r, comp, rtype, cb) =~= r);
        }
    }
}

/// Revoking a reactor whose callback is registered once for its trigger: afterwards that reactor is gone, every
/// other reactor of the trigger is still there, and revoking the same token again changes nothing. Entity
/// reactors are revoked through the queued command, on the entity's own reactors (see
/// `lemma_entity_revoke_law`); the cache is left alone.
pub proof fn lemma_revoke_law(v: ReactCacheView, t: RevokeToken)
    requires
        at_most_once(token_list(v, t), t.callback_id),
    ensures
        ({
            let w = spec_revoke_cache(v, t);
            &&& !token_list(w, t).contains(t.callback_id)
            &&& forall|y: CallbackId| y != t.callback_id ==> (token_list(w, t).contains(y) <==> token_list(
                v,
                t,
            ).contains(y))
            &&& spec_revoke_cache(w, t) == w
            &&& spec_revoke_commands(t).len() > 0 ==> w == v
        }),
{
    let id = t.callback_id;
    lemma_remove_first_once(token_list(v, t), id);
    match t.reactor_type {
        ReactorType::ComponentInsertion(comp) => lemma_comp_revoke_once(v.component_reactors, comp, EntityReactType::Insertion, id),
        ReactorType::ComponentMutation(comp) => lemma_comp_revoke_once(v.component_reactors, comp, EntityReactType::Mutation, id),
        ReactorType::ComponentRemoval(comp) => lemma_comp_revoke_once(v.component_reactors, comp, EntityReactType::Removal, id),
        ReactorType::Despawn(entity) => lemma_map_revoke_once(v.despawn_reactors, entity, id),
        ReactorType::ResourceMutation(res) => lemma_map_revoke_once(v.resource_reactors, res, id),
        _ => {},
    }
}

/// Revoking an entity reactor registered once: the entity's reactor is gone, its other reactors for the same
/// change stay, revoking again changes nothing, and an entity without reactors for the component is left alone.
pub proof fn lemma_entity_revoke_law(v: EntityReactorsView, rtype: EntityReactType, comp: TypeKey, cb: CallbackId)
    requires
        at_most_once(list_of(v.lists(rtype), comp), cb),
    ensures
        ({
            let w = v.revoke(rtype, comp, cb);
            &&& !list_of(w.lists(rtype), comp).contains(cb)
            &&& forall|y: CallbackId| y != cb ==> (list_of(w.lists(rtype), comp).contains(y) <==> list_of(
                v.lists(rtype),
                comp,
            ).contains(y))
            &&& w.revoke(rtype, comp, cb) == w
            &&& !v.lists(rtype).contains_key(comp) ==> w == v
        }),
{
    lemma_remove_first_once(list_of(v.lists(rtype), comp), cb);
    lemma_map_revoke_once(v.lists(rtype), comp, cb);
    let w = v.revoke(rtype, comp, cb);
    assert(w.lists(rtype) == spec_revoke(v.lists(rtype), comp, cb));
    assert(w.revoke(rtype, comp, cb).lists(rtype) == spec_revoke(w.lists(rtype), comp, cb));
    assert(w.revoke(rtype, comp, cb) =~= w) by {
        match rtype {
            EntityReactType::Insertion => {},
            EntityReactType::Mutation => {},
            EntityReactType::Removal => {},
        }
    }
    if !v.lists(rtype).contains_key(comp) {
        match rtype {
            EntityReactType::Insertion => assert(w =~= v),
            EntityReactType::Mutation => assert(w =~= v),
            EntityReactType::Removal => assert(w =~= v),
        }
    }
}

/// Revoking an event reactor registered once: it is gone, the other reactors of the event type stay, and
/// revoking it again changes nothing.
pub proof fn lemma_event_revoke_law(m: Map<TypeKey, Seq<CallbackId>>, event_type: TypeKey, cb: CallbackId)
    requires
        at_most_once(list_of(m, event_type), cb),
    ensures
        !list_of(spec_revoke(m, event_type, cb), event_type).contains(cb),
        forall|y: CallbackId| y != cb ==> (list_of(spec_revoke(m, event_type, cb), event_type).contains(y)
            <==> list_of(m, event_type).contains(y)),
        spec_revoke(spec_revoke(m, event_type, cb), event_type, cb) == spec_revoke(m, event_type, cb),
{
    lemma_remove_first_once(list_of(m, event_type), cb);
    lemma_map_revoke_once(m, event_type, cb);
}

/// A component removed from an entity that no longer exists causes no reaction; removed from an existing entity,
/// it runs the entity's own removal reactors (without input), then every removal reactor of the component with the
/// entity, each once and in registration order.
pub proof fn lemma_removal_reactions(comp_cbs: Seq<CallbackId>, r: RemovedEntityView)
    ensures
        (!r.exists) ==> spec_removal_reactions(comp_cbs, r).len() == 0,
        (r.exists) ==> spec_removal_reactions(comp_cbs, r).len() == r.entity_callbacks.len() + comp_cbs.len(),
        (r.exists) ==> (forall|i: int|
            0 <= i < r.entity_callbacks.len() ==> #[trigger] spec_removal_reactions(comp_cbs, r)[i] == (
            ReactCommand::Reaction { callback: r.entity_callbacks[i], input: ReactionInput::Unit })),
        (r.exists) ==> (forall|i: int|
            0 <= i < comp_cbs.len() ==> #[trigger] spec_removal_reactions(comp_cbs, r)[r.entity_callbacks.len() + i]
                == (ReactCommand::Reaction { callback: comp_cbs[i], input: ReactionInput::Entity(r.entity) })),
{
}

/// Every despawn reactor of an entity reported despawned runs: for a list of despawn reports, each reactor that
/// the first report of an entity finds is queued, with no input.
pub proof fn lemma_despawn_runs_reactors(m: Map<EntityId, Seq<CallbackId>>, es: Seq<EntityId>, e: EntityId)
    requires
        !es.contains(e),
    ensures
        forall|i: int| 0 <= i < list_of(m, e).len() ==> #[trigger] spec_despawn_reactions(m, es.push(e)).contains(
            (ReactCommand::Reaction { callback: list_of(m, e)[i], input: ReactionInput::Unit }),
        ),
        !spec_despawn_remaining(m, es.push(e)).contains_key(e),
{
    let prev = spec_despawn_reactions(m, es);
    assert(es.push(e).drop_last() =~= es);
    lemma_despawn_remaining_keeps(m, es, e);
    let new = reactions(list_of(m, e), ReactionInput::Unit);
    assert forall|i: int| 0 <= i < list_of(m, e).len() implies #[trigger] spec_despawn_reactions(m, es.push(e)).contains(
        ReactCommand::Reaction { callback: list_of(m, e)[i], input: ReactionInput::Unit },
    ) by {
        assert((prev + new)[prev.len() + i] == new[i]);
    }
}

proof fn lemma_despawn_remaining_keeps(m: Map<EntityId, Seq<CallbackId>>, es: Seq<EntityId>, e: EntityId)
    requires
        !es.contains(e),
    ensures
        list_of(spec_despawn_remaining(m, es), e) == list_of(m, e),
    decreases es.len(),
{
    if es.len() > 0 {
        assert(!es.drop_last().contains(e)) by {
            if es.drop_last().contains(e) {
                let k = choose|k: int| 0 <= k < es.drop_last().len() && es.drop_last()[k] == e;
                assert(es[k] == e);
            }
        }
        lemma_despawn_remaining_keeps(m, es.drop_last(), e);
        assert(es[es.len() - 1] != e);
    }
}

} // verus!

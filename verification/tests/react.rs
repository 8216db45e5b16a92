use bevy_kot::react::cache::{ComponentRemovals, ReactCache, RemovedEntity};
use bevy_kot::react::commands::ReactCommands;
use bevy_kot::react::entity_reactors::{register_entity_reactor, EntityReactors};
use bevy_kot::react::types::{
    EntityReactType, EventRevokeToken, ReactCommand, ReactionInput, ReactorType, RevokeToken,
};
use bevy_kot::react::tree::{ReactStep, ReactionTree};
use bevy_kot::react::wrappers::{React, ReactEvent, ReactRes};
use std::collections::{HashMap, HashSet};

const TEST_COMPONENT: u64 = 1;
const TEST_RES: u64 = 2;
const USIZE_EVENT: u64 = 3;

/// What a test reactor does when it runs.
#[derive(Clone, Copy, Debug)]
enum Behavior {
    /// Copy the component of this entity to the recorder.
    RecordComponentOf(u64),
    /// Copy the component of the input entity to the recorder.
    RecordComponentOfInput,
    /// Set the recorder to `usize::MAX`.
    Infinitize,
    /// Halve the recorder.
    Div2,
    /// Copy the resource to the recorder.
    RecordResource,
    /// Copy the event data to the recorder.
    RecordEvent,
    /// Copy the component of this entity to the resource (a reacting mutation).
    PassComponentToRes(u64),
    /// Double the resource without reacting.
    DoubleResNoReact,
}

/// A small stand-in for an ECS world that applies the library's react commands.
struct World {
    rc: ReactCommands,
    alive: HashSet<u64>,
    next_entity: u64,
    comps: HashMap<u64, React<usize>>,
    reactors: HashMap<u64, EntityReactors>,
    despawn_tracked: HashSet<u64>,
    removed: Vec<u64>,
    despawned: Vec<u64>,
    res: ReactRes<usize>,
    recorder: usize,
    behaviors: HashMap<u64, Behavior>,
    events: HashMap<u64, ReactEvent<usize>>,
    next_event: u64,
    tree: ReactionTree,
}

impl World {
    fn new(with_plugin: bool) -> Self {
        World {
            rc: ReactCommands::new(if with_plugin { Some(ReactCache::new()) } else { None }),
            alive: HashSet::new(),
            next_entity: 1,
            comps: HashMap::new(),
            reactors: HashMap::new(),
            despawn_tracked: HashSet::new(),
            removed: Vec::new(),
            despawned: Vec::new(),
            res: ReactRes::new(0),
            recorder: 0,
            behaviors: HashMap::new(),
            events: HashMap::new(),
            next_event: 1,
            tree: ReactionTree::new(),
        }
    }

    fn spawn(&mut self) -> u64 {
        let e = self.next_entity;
        self.next_entity += 1;
        self.alive.insert(e);
        e
    }

    fn despawn(&mut self, e: u64) -> bool {
        if !self.alive.remove(&e) {
            return false;
        }
        if self.comps.remove(&e).is_some() {
            self.removed.push(e);
        }
        self.reactors.remove(&e);
        if self.despawn_tracked.remove(&e) {
            self.despawned.push(e);
        }
        true
    }

    fn run(&mut self, callback: u64, input: ReactionInput) {
        let behavior = *self.behaviors.get(&callback).expect("unknown callback");
        match behavior {
            Behavior::RecordComponentOf(e) => self.recorder = *self.comps[&e].get(),
            Behavior::RecordComponentOfInput => match input {
                ReactionInput::Entity(e) => self.recorder = *self.comps[&e].get(),
                _ => panic!("expected an entity"),
            },
            Behavior::Infinitize => self.recorder = usize::MAX,
            Behavior::Div2 => self.recorder /= 2,
            Behavior::RecordResource => self.recorder = *self.res.get(),
            Behavior::RecordEvent => match input {
                ReactionInput::Event(h) => self.recorder = *self.events[&h].get(),
                _ => panic!("expected an event"),
            },
            Behavior::PassComponentToRes(e) => {
                let v = *self.comps[&e].get();
                *self.res.get_mut(&mut self.rc, TEST_RES) = v;
            },
            Behavior::DoubleResNoReact => *self.res.get_mut_noreact() *= 2,
        }
    }

    /// Move the commands queued through the react commands into the reaction tree.
    fn flush(&mut self) {
        let cmds = std::mem::take(&mut self.rc.queue);
        if !cmds.is_empty() {
            self.tree.enqueue(cmds);
        }
    }

    /// Run the reaction tree until nothing is left: each reaction's own commands, and the reactions to removals
    /// and despawns after it, run before what was queued before it.
    fn apply(&mut self) {
        loop {
            self.flush();
            match self.tree.step() {
                ReactStep::Idle => return,
                ReactStep::Run { callback, input } => self.run(callback, input),
                ReactStep::Apply(cmd) => self.apply_command(cmd),
                ReactStep::Finished => {
                    let (removals, _) = self.removal_reactions();
                    if !removals.is_empty() {
                        self.tree.begin_level(removals);
                    } else {
                        let (despawns, _) = self.despawn_reactions();
                        if !despawns.is_empty() {
                            self.tree.begin_level(despawns);
                        }
                    }
                },
            }
        }
    }

    fn apply_command(&mut self, cmd: ReactCommand) {
        match cmd {
            ReactCommand::Reaction { callback, input } => self.run(callback, input),
            ReactCommand::ReactToEntityEvent { rtype, entity, component } => {
                let mut front = Vec::new();
                if let Some(r) = self.reactors.get(&entity) {
                    r.react_to_entity_event(rtype, component, &mut front);
                }
                self.tree.begin_level(front);
            },
            ReactCommand::ReactToDataEvent { event_type, event } => {
                let mut front = Vec::new();
                if let Some(cache) = &self.rc.cache {
                    cache.react_to_data_event(event_type, event, &mut front);
                }
                self.tree.begin_level(front);
            },
            ReactCommand::RegisterEntityReactor { rtype, entity, component, callback } => {
                let existing = self.reactors.remove(&entity);
                let exists = self.alive.contains(&entity);
                if let Some(n) = register_entity_reactor(existing, exists, rtype, component, callback) {
                    self.reactors.insert(entity, n);
                }
            },
            ReactCommand::RevokeEntityReactor { rtype, entity, component, callback } => {
                if let Some(mut r) = self.reactors.remove(&entity) {
                    if !r.revoke(rtype, component, callback) {
                        self.reactors.insert(entity, r);
                    }
                }
            },
            ReactCommand::RegisterEventReactor { event_type, callback } => {
                self.rc.cache.as_mut().unwrap().register_event_reactor(event_type, callback);
            },
            ReactCommand::RevokeEventReactor { event_type, callback } => {
                self.rc.cache.as_mut().unwrap().revoke_event_reactor(event_type, callback);
            },
            ReactCommand::AddDespawnTracker { entity } => {
                if self.alive.contains(&entity) {
                    self.despawn_tracked.insert(entity);
                } else {
                    self.despawned.push(entity);
                }
            },
        }
    }

    fn removal_reactions(&mut self) -> (Vec<ReactCommand>, usize) {
        let removed = std::mem::take(&mut self.removed);
        let Some(cache) = &self.rc.cache else { return (Vec::new(), 0); };
        let mut removals = Vec::new();
        for comp in cache.tracked_removals().iter() {
            let list = if *comp == TEST_COMPONENT { removed.clone() } else { Vec::new() };
            let removed = list
                .iter()
                .map(|e| RemovedEntity {
                    entity: *e,
                    exists: self.alive.contains(e),
                    entity_callbacks: match self.reactors.get(e) {
                        Some(r) => r.callbacks(EntityReactType::Removal, *comp),
                        None => Vec::new(),
                    },
                })
                .collect();
            removals.push(ComponentRemovals { component: *comp, removed });
        }
        let mut queue = Vec::new();
        let count = cache.react_to_removals(&removals, &mut queue);
        (queue, count)
    }

    fn despawn_reactions(&mut self) -> (Vec<ReactCommand>, usize) {
        let despawned = std::mem::take(&mut self.despawned);
        let mut queue = Vec::new();
        let count = match self.rc.cache.as_mut() {
            Some(cache) => cache.react_to_despawns(&despawned, &mut queue),
            None => 0,
        };
        (queue, count)
    }

    fn react_to_removals(&mut self) -> usize {
        let (queue, count) = self.removal_reactions();
        self.tree.begin_level(queue);
        self.apply();
        count
    }

    fn react_to_despawns(&mut self) -> usize {
        let (queue, count) = self.despawn_reactions();
        self.tree.begin_level(queue);
        self.apply();
        count
    }

    fn react_to_all_removals_and_despawns(&mut self) {
        if self.rc.cache.is_none() {
            return;
        }
        while self.react_to_removals() > 0 || self.react_to_despawns() > 0 {}
    }

    // --- system-like operations (each applies its commands afterwards) ---

    fn insert(&mut self, entity: u64, value: usize) {
        let exists = self.alive.contains(&entity);
        if self.rc.insert(entity, exists, TEST_COMPONENT) {
            self.comps.insert(entity, React::new(entity, value));
        }
        self.apply();
    }

    fn update(&mut self, entity: u64, value: usize) {
        *self.comps.get_mut(&entity).unwrap().get_mut(&mut self.rc, TEST_COMPONENT) = value;
        self.apply();
    }

    fn remove(&mut self, entity: u64) {
        if self.comps.remove(&entity).is_some() {
            self.removed.push(entity);
        }
        self.apply();
    }

    fn update_res(&mut self, value: usize) {
        *self.res.get_mut(&mut self.rc, TEST_RES) = value;
        self.apply();
    }

    fn send(&mut self, data: usize) {
        let h = self.next_event;
        self.next_event += 1;
        self.events.insert(h, ReactEvent::new(data));
        self.rc.send(USIZE_EVENT, h);
        self.apply();
    }

    fn with_behavior(&mut self, token: RevokeToken, behavior: Behavior) -> RevokeToken {
        self.behaviors.insert(token.callback_id, behavior);
        self.apply();
        token
    }

    fn on_entity_insertion(&mut self, entity: u64, behavior: Behavior) -> RevokeToken {
        let t = self.rc.on_entity_insertion(entity, TEST_COMPONENT);
        self.with_behavior(t, behavior)
    }

    fn on_entity_mutation(&mut self, entity: u64, behavior: Behavior) -> RevokeToken {
        let t = self.rc.on_entity_mutation(entity, TEST_COMPONENT);
        self.with_behavior(t, behavior)
    }

    fn on_entity_removal(&mut self, entity: u64, behavior: Behavior) -> RevokeToken {
        let t = self.rc.on_entity_removal(entity, TEST_COMPONENT);
        self.with_behavior(t, behavior)
    }

    fn on_insertion(&mut self, behavior: Behavior) -> RevokeToken {
        let t = self.rc.on_insertion(TEST_COMPONENT);
        self.with_behavior(t, behavior)
    }

    fn on_mutation(&mut self, behavior: Behavior) -> RevokeToken {
        let t = self.rc.on_mutation(TEST_COMPONENT);
        self.with_behavior(t, behavior)
    }

    fn on_removal(&mut self, behavior: Behavior) -> RevokeToken {
        let t = self.rc.on_removal(TEST_COMPONENT);
        self.with_behavior(t, behavior)
    }

    fn on_despawn(&mut self, entity: u64, behavior: Behavior) -> RevokeToken {
        let exists = self.alive.contains(&entity);
        let t = self.rc.on_despawn(entity, exists).unwrap();
        self.with_behavior(t, behavior)
    }

    fn on_resource_mutation(&mut self, behavior: Behavior) -> RevokeToken {
        let t = self.rc.on_resource_mutation(TEST_RES);
        self.with_behavior(t, behavior)
    }

    fn on_event(&mut self, behavior: Behavior) -> EventRevokeToken {
        let t = self.rc.on_event(USIZE_EVENT);
        self.behaviors.insert(t.callback_id, behavior);
        self.apply();
        t
    }

    fn revoke(&mut self, token: RevokeToken) {
        self.rc.revoke(token);
        self.apply();
    }

    fn revoke_event_reactor(&mut self, token: EventRevokeToken) {
        self.rc.revoke_event_reactor(token);
        self.apply();
    }
}

#[test]
fn react_basic() {
    let mut world = World::new(true);
    let test_entity = world.spawn();
    world.insert(test_entity, 0);
    world.on_entity_mutation(test_entity, Behavior::RecordComponentOf(test_entity));
    world.update(test_entity, 10);
    assert_eq!(world.recorder, 10);
}

#[test]
fn react_res() {
    let mut world = World::new(true);
    world.on_resource_mutation(Behavior::DoubleResNoReact);
    world.update_res(100);
    assert_eq!(*world.res.get(), 200);
}

#[test]
fn react_entity_insertion() {
    let mut world = World::new(true);
    let test_entity_a = world.spawn();
    let test_entity_b = world.spawn();

    world.on_entity_insertion(test_entity_a, Behavior::RecordComponentOf(test_entity_a));
    assert_eq!(world.recorder, 0);

    world.insert(test_entity_a, 1);
    assert_eq!(world.recorder, 1);

    world.insert(test_entity_a, 2);
    assert_eq!(world.recorder, 2);

    world.insert(test_entity_b, 3);
    assert_eq!(world.recorder, 2);
}

#[test]
fn react_component_insertion() {
    let mut world = World::new(true);
    let test_entity_a = world.spawn();
    let test_entity_b = world.spawn();

    world.on_insertion(Behavior::RecordComponentOfInput);
    assert_eq!(world.recorder, 0);

    world.insert(test_entity_a, 1);
    assert_eq!(world.recorder, 1);

    world.insert(test_entity_b, 2);
    assert_eq!(world.recorder, 2);

    world.insert(test_entity_a, 3);
    assert_eq!(world.recorder, 3);

    world.insert(test_entity_a, 4);
    assert_eq!(world.recorder, 4);
}

#[test]
fn react_entity_muation() {
    let mut world = World::new(true);
    let test_entity_a = world.spawn();
    let test_entity_b = world.spawn();

    world.on_entity_mutation(test_entity_a, Behavior::RecordComponentOf(test_entity_a));
    assert_eq!(world.recorder, 0);

    world.insert(test_entity_a, 5);
    assert_eq!(world.recorder, 0);

    world.update(test_entity_a, 10);
    assert_eq!(world.recorder, 10);

    world.update(test_entity_a, 1);
    assert_eq!(world.recorder, 1);

    world.insert(test_entity_b, 100);
    assert_eq!(world.recorder, 1);

    world.update(test_entity_b, 200);
    assert_eq!(world.recorder, 1);
}

#[test]
fn react_component_mutation() {
    let mut world = World::new(true);
    let test_entity_a = world.spawn();
    let test_entity_b = world.spawn();

    world.on_mutation(Behavior::RecordComponentOfInput);
    assert_eq!(world.recorder, 0);

    world.insert(test_entity_a, 1);
    assert_eq!(world.recorder, 0);

    world.insert(test_entity_b, 2);
    assert_eq!(world.recorder, 0);

    world.update(test_entity_a, 3);
    assert_eq!(world.recorder, 3);

    world.update(test_entity_b, 4);
    assert_eq!(world.recorder, 4);
}

#[test]
fn react_entity_removal() {
    let mut world = World::new(true);
    let test_entity_a = world.spawn();
    let test_entity_b = world.spawn();

    world.on_entity_removal(test_entity_a, Behavior::Infinitize);
    assert_eq!(world.recorder, 0);

    world.insert(test_entity_a, 1);
    assert_eq!(world.recorder, 0);

    world.insert(test_entity_b, 2);
    assert_eq!(world.recorder, 0);

    world.remove(test_entity_a);
    assert_eq!(world.recorder, 0);
    world.react_to_all_removals_and_despawns();
    assert_eq!(world.recorder, usize::MAX);

    world.recorder = 0;
    world.remove(test_entity_a);
    assert_eq!(world.recorder, 0);

    world.remove(test_entity_b);
    assert_eq!(world.recorder, 0);
}

#[test]
fn react_component_removal() {
    let mut world = World::new(true);
    let test_entity_a = world.spawn();
    let test_entity_b = world.spawn();

    world.on_removal(Behavior::Infinitize);
    assert_eq!(world.recorder, 0);

    world.insert(test_entity_a, 1);
    assert_eq!(world.recorder, 0);

    world.insert(test_entity_b, 2);
    assert_eq!(world.recorder, 0);

    world.remove(test_entity_a);
    assert_eq!(world.recorder, 0);
    assert_eq!(world.react_to_removals(), 1);
    assert_eq!(world.recorder, usize::MAX);

    world.recorder = 0;
    world.remove(test_entity_a);
    assert_eq!(world.recorder, 0);

    world.remove(test_entity_b);
    assert_eq!(world.recorder, 0);
    assert_eq!(world.react_to_removals(), 1);
    assert_eq!(world.recorder, usize::MAX);
}

#[test]
fn react_entity_despawn() {
    let mut world = World::new(true);
    let test_entity_a = world.spawn();
    let test_entity_b = world.spawn();

    world.on_despawn(test_entity_a, Behavior::Infinitize);
    assert_eq!(world.recorder, 0);

    world.insert(test_entity_a, 1);
    assert_eq!(world.recorder, 0);

    world.insert(test_entity_b, 2);
    assert_eq!(world.recorder, 0);

    assert_eq!(world.react_to_despawns(), 0);
    assert_eq!(world.recorder, 0);

    assert!(world.despawn(test_entity_a));
    assert_eq!(world.recorder, 0);
    assert_eq!(world.react_to_despawns(), 1);
    assert_eq!(world.recorder, usize::MAX);

    world.recorder = 0;
    assert!(world.despawn(test_entity_b));
    assert_eq!(world.recorder, 0);
}

#[test]
fn react_entity_despawn_multiple_reactors() {
    let mut world = World::new(true);
    let test_entity_a = world.spawn();
    let test_entity_b = world.spawn();

    world.on_despawn(test_entity_a, Behavior::Infinitize);
    assert_eq!(world.recorder, 0);

    world.on_despawn(test_entity_a, Behavior::Div2);
    assert_eq!(world.recorder, 0);

    world.insert(test_entity_a, 1);
    assert_eq!(world.recorder, 0);

    world.insert(test_entity_b, 2);
    assert_eq!(world.recorder, 0);

    assert_eq!(world.react_to_despawns(), 0);
    assert_eq!(world.recorder, 0);

    assert!(world.despawn(test_entity_a));
    assert_eq!(world.recorder, 0);
    assert_eq!(world.react_to_despawns(), 2);
    assert_eq!(world.recorder, usize::MAX / 2);

    world.recorder = 0;
    assert!(world.despawn(test_entity_b));
    assert_eq!(world.recorder, 0);
}

#[test]
fn react_resource_mutation() {
    let mut world = World::new(true);

    world.on_resource_mutation(Behavior::RecordResource);
    assert_eq!(world.recorder, 0);

    world.update_res(100);
    assert_eq!(world.recorder, 100);

    world.update_res(1);
    assert_eq!(world.recorder, 1);
}

#[test]
fn react_data_event() {
    let mut world = World::new(true);

    world.on_event(Behavior::RecordEvent);
    assert_eq!(world.recorder, 0);

    world.send(222);
    assert_eq!(world.recorder, 222);

    world.send(1);
    assert_eq!(world.recorder, 1);
}

#[test]
fn react_mutation_chain() {
    let mut world = World::new(true);
    let test_entity_a = world.spawn();
    let test_entity_b = world.spawn();

    world.on_entity_mutation(test_entity_a, Behavior::PassComponentToRes(test_entity_a));
    world.on_resource_mutation(Behavior::RecordResource);
    assert_eq!(world.recorder, 0);

    world.insert(test_entity_a, 1);
    assert_eq!(world.recorder, 0);

    world.insert(test_entity_b, 2);
    assert_eq!(world.recorder, 0);

    world.update(test_entity_a, 3);
    assert_eq!(world.recorder, 3);

    world.update(test_entity_b, 4);
    assert_eq!(world.recorder, 3);
}

#[test]
fn react_pieces_without_plugin() {
    let mut world = World::new(true);
    let test_entity = world.spawn();

    world.insert(test_entity, 1);
    world.update(test_entity, 10);
    world.remove(test_entity);
    world.react_to_all_removals_and_despawns();

    assert!(world.despawn(test_entity));
    world.react_to_all_removals_and_despawns();

    world.update_res(100);
}

#[test]
fn revoke_entity_mutation_reactor() {
    let mut world = World::new(true);
    let test_entity = world.spawn();

    let token = world.on_entity_mutation(test_entity, Behavior::RecordComponentOf(test_entity));
    assert_eq!(world.recorder, 0);

    world.insert(test_entity, 5);
    assert_eq!(world.recorder, 0);

    world.update(test_entity, 10);
    assert_eq!(world.recorder, 10);

    world.revoke(token);

    world.update(test_entity, 1);
    assert_eq!(world.recorder, 10);
}

#[test]
fn revoke_component_mutation_reactor() {
    let mut world = World::new(true);
    let test_entity = world.spawn();

    let token = world.on_mutation(Behavior::RecordComponentOfInput);
    assert_eq!(world.recorder, 0);

    world.insert(test_entity, 5);
    assert_eq!(world.recorder, 0);

    world.update(test_entity, 10);
    assert_eq!(world.recorder, 10);

    world.revoke(token);

    world.update(test_entity, 1);
    assert_eq!(world.recorder, 10);
}

#[test]
fn revoke_data_event_reactor() {
    let mut world = World::new(true);

    let revoke_token = world.on_event(Behavior::RecordEvent);
    assert_eq!(world.recorder, 0);

    world.send(222);
    assert_eq!(world.recorder, 222);

    world.revoke_event_reactor(revoke_token);

    world.send(1);
    assert_eq!(world.recorder, 222);
}

// ---- further scenarios ----

#[test]
fn reactions_without_plugin_do_nothing() {
    let mut world = World::new(false);
    let e = world.spawn();
    world.insert(e, 3);
    assert_eq!(*world.comps[&e].get(), 3);
    world.update(e, 4);
    world.update_res(7);
    world.send(9);
    assert!(world.rc.queue.is_empty());
    assert_eq!(*world.res.get(), 7);
    assert_eq!(world.recorder, 0);
}

#[test]
fn insert_on_missing_entity_is_refused() {
    let mut rc = ReactCommands::new(Some(ReactCache::new()));
    assert!(!rc.insert(42, false, TEST_COMPONENT));
    assert!(rc.queue.is_empty());
    assert!(rc.insert(42, true, TEST_COMPONENT));
    assert_eq!(
        rc.queue,
        vec![ReactCommand::ReactToEntityEvent { rtype: EntityReactType::Insertion, entity: 42, component: TEST_COMPONENT }]
    );
}

#[test]
fn callback_ids_are_handed_out_in_order() {
    let mut rc = ReactCommands::new(Some(ReactCache::new()));
    let a = rc.on_insertion(TEST_COMPONENT);
    let b = rc.on_mutation(TEST_COMPONENT);
    let c = rc.on_event(USIZE_EVENT);
    assert_eq!(a, RevokeToken { reactor_type: ReactorType::ComponentInsertion(TEST_COMPONENT), callback_id: 0 });
    assert_eq!(b, RevokeToken { reactor_type: ReactorType::ComponentMutation(TEST_COMPONENT), callback_id: 1 });
    assert_eq!(c, EventRevokeToken { event_type: USIZE_EVENT, callback_id: 2 });
    assert_eq!(rc.queue, vec![ReactCommand::RegisterEventReactor { event_type: USIZE_EVENT, callback: 2 }]);
}

#[test]
fn on_despawn_of_missing_entity_is_none() {
    let mut rc = ReactCommands::new(Some(ReactCache::new()));
    assert_eq!(rc.on_despawn(5, false), None);
    assert!(rc.queue.is_empty());
    let t = rc.on_despawn(5, true).unwrap();
    assert_eq!(t, RevokeToken { reactor_type: ReactorType::Despawn(5), callback_id: 0 });
    assert_eq!(rc.queue, vec![ReactCommand::AddDespawnTracker { entity: 5 }]);
}

#[test]
fn despawn_reactors_react_once() {
    let mut cache = ReactCache::new();
    let t1 = cache.register_despawn_reactor(7);
    let t2 = cache.register_despawn_reactor(7);
    let mut out = Vec::new();
    assert_eq!(cache.react_to_despawns(&vec![7, 8, 7], &mut out), 2);
    assert_eq!(
        out,
        vec![
            ReactCommand::Reaction { callback: t1.callback_id, input: ReactionInput::Unit },
            ReactCommand::Reaction { callback: t2.callback_id, input: ReactionInput::Unit },
        ]
    );
    let mut again = Vec::new();
    assert_eq!(cache.react_to_despawns(&vec![7], &mut again), 0);
    assert!(again.is_empty());
}

#[test]
fn revoking_a_component_reactor_stops_its_reactions() {
    let mut cache = ReactCache::new();
    let t = cache.register_insertion_reactor(TEST_COMPONENT);
    let mut out = Vec::new();
    cache.react_to_insertion(TEST_COMPONENT, 3, &mut out);
    assert_eq!(out.len(), 2);
    assert_eq!(out[1], ReactCommand::Reaction { callback: t.callback_id, input: ReactionInput::Entity(3) });
    let mut revoked = Vec::new();
    cache.revoke(t, &mut revoked);
    assert!(revoked.is_empty());
    let mut after = Vec::new();
    cache.react_to_insertion(TEST_COMPONENT, 3, &mut after);
    assert_eq!(
        after,
        vec![ReactCommand::ReactToEntityEvent { rtype: EntityReactType::Insertion, entity: 3, component: TEST_COMPONENT }]
    );
}

#[test]
fn revoking_an_entity_reactor_is_deferred() {
    let mut cache = ReactCache::new();
    let mut out = Vec::new();
    let token = RevokeToken { reactor_type: ReactorType::EntityMutation(4, TEST_COMPONENT), callback_id: 11 };
    cache.revoke(token, &mut out);
    assert_eq!(
        out,
        vec![ReactCommand::RevokeEntityReactor {
            rtype: EntityReactType::Mutation,
            entity: 4,
            component: TEST_COMPONENT,
            callback: 11,
        }]
    );
}

#[test]
fn removals_of_despawned_entities_are_ignored() {
    let mut cache = ReactCache::new();
    cache.track_removals(TEST_COMPONENT);
    let t = cache.register_removal_reactor(TEST_COMPONENT);
    let removals = vec![ComponentRemovals {
        component: TEST_COMPONENT,
        removed: vec![
            RemovedEntity { entity: 1, exists: false, entity_callbacks: vec![99] },
            RemovedEntity { entity: 2, exists: true, entity_callbacks: vec![98] },
        ],
    }];
    let mut out = Vec::new();
    assert_eq!(cache.react_to_removals(&removals, &mut out), 2);
    assert_eq!(
        out,
        vec![
            ReactCommand::Reaction { callback: 98, input: ReactionInput::Unit },
            ReactCommand::Reaction { callback: t.callback_id, input: ReactionInput::Entity(2) },
        ]
    );
}

#[test]
fn entity_reactors_keep_registration_order() {
    let r = register_entity_reactor(None, true, EntityReactType::Insertion, TEST_COMPONENT, 5).unwrap();
    let r = register_entity_reactor(Some(r), true, EntityReactType::Insertion, TEST_COMPONENT, 6).unwrap();
    assert_eq!(r.callbacks(EntityReactType::Insertion, TEST_COMPONENT), vec![5, 6]);
    assert!(register_entity_reactor(None, false, EntityReactType::Insertion, TEST_COMPONENT, 5).is_none());
    let mut r = r;
    assert!(!r.revoke(EntityReactType::Insertion, TEST_COMPONENT, 5));
    assert!(r.revoke(EntityReactType::Insertion, TEST_COMPONENT, 6));
    assert!(r.is_empty());
}

#[test]
fn reaction_tree_runs_depth_first() {
    let r = |cb: u64| ReactCommand::Reaction { callback: cb, input: ReactionInput::Unit };
    let run = |cb: u64| ReactStep::Run { callback: cb, input: ReactionInput::Unit };
    let mut tree = ReactionTree::new();
    assert_eq!(tree.step(), ReactStep::Idle);
    tree.enqueue(vec![r(1), r(2)]);
    assert_eq!(tree.step(), run(1));
    // reaction 1 queues reaction 3 and a registration
    tree.enqueue(vec![r(3), ReactCommand::AddDespawnTracker { entity: 9 }]);
    assert_eq!(tree.step(), run(3));
    assert_eq!(tree.step(), ReactStep::Finished);
    assert_eq!(tree.step(), ReactStep::Apply(ReactCommand::AddDespawnTracker { entity: 9 }));
    assert_eq!(tree.step(), ReactStep::Finished);
    assert_eq!(tree.step(), run(2));
    assert_eq!(tree.step(), ReactStep::Finished);
    assert_eq!(tree.step(), ReactStep::Idle);
    tree.begin_level(vec![r(4)]);
    assert_eq!(tree.step(), run(4));
}

#[test]
fn revoked_reactor_never_runs_and_revoke_twice_is_harmless() {
    let mut cache = ReactCache::new();
    let t1 = cache.register_despawn_reactor(7);
    let t2 = cache.register_despawn_reactor(7);
    let mut out = Vec::new();
    cache.revoke(t1, &mut out);
    cache.revoke(t1, &mut out);
    assert!(out.is_empty());
    let mut reactions = Vec::new();
    assert_eq!(cache.react_to_despawns(&vec![7], &mut reactions), 1);
    assert_eq!(reactions, vec![ReactCommand::Reaction { callback: t2.callback_id, input: ReactionInput::Unit }]);
    // revoking the reactor of an entity without reactors changes nothing
    let mut none = EntityReactors::new();
    assert!(!none.revoke(EntityReactType::Mutation, TEST_COMPONENT, 3));
    assert!(none.is_empty());
}

# bevy_kot

Reactive ECS helpers and interactive UI element logic for bevy, with the core logic verified by Verus.

Layout:

- `src/` — the verified library.
  - `react/` — the react framework: reactor registration and revocation (`ReactCache`, `ReactCommands`),
    per-entity reactors, deferred react commands, react wrappers (`React`, `ReactRes`, `ReactEvent`),
    react events, and the laws that relate registration, revocation and reactions.
  - `interaction/` — interactive elements: the builder and its configuration checks, the element state machine
    (actions and responders as transitions with effects), the per-tick interaction pipeline, and the tracker of
    element callbacks.
  - `style_stack.rs`, `style_laws.rs` — a stack of style frames and its laws.
  - `fps_tracker.rs`, `tree_node_meta.rs`, `line_position.rs` — small utilities.
  - `channel.rs`, `io_channel.rs`, `auto_despawn.rs` — channels over `crossbeam` and `async-channel`.
- `tests/` — tests of the library, run with the real channel crates.
- `app/` — bevy glue: resources, components, plugins and systems that apply the library's commands and effects
  to a bevy world.

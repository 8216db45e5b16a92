use vstd::prelude::*;

verus! {

/// Handle of an entity of the ECS world (its bits).
pub type EntityId = u64;

/// Key that stands for a Rust type (a component, resource or event type), assigned by the code that owns the types.
pub type TypeKey = u64;

/// Handle of a callback system, assigned by the code that owns the systems.
pub type CallbackId = u64;

/// Handle of a UI widget (a node of a UI tree), assigned by the UI backend.
pub type WidgetId = u64;

} // verus!

//! Verified core of a toolkit for reactive ECS programming and interactive UI elements.

pub mod ids;
pub mod line_position;
pub mod interaction;
pub mod react;
pub mod fps_tracker;
pub mod style_stack;
pub mod style_laws;
pub mod tree_node_meta;
pub mod channel;
pub mod io_channel;
pub mod auto_despawn;

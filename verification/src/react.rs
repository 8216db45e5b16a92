pub mod callback_lists;
pub mod types;
pub mod entity_reactors;
pub mod cache;
pub mod commands;
pub mod wrappers;
pub mod events;
pub mod tree;
pub mod laws;

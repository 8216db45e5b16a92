pub mod builder;
pub mod settings;
pub mod builder_laws;
pub mod element;
pub mod element_laws;
pub mod pipeline;
pub mod callback_tracker;

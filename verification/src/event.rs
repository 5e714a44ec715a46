//! The event object and its collaborator contracts.
pub mod composed_path;
pub mod custom_event;
pub mod event;
pub mod event_init;
pub mod event_target;
pub mod event_traits;

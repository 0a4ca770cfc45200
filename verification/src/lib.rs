pub mod event_emitter;
pub mod mouse;

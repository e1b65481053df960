//! Live-stream notifier: classify a streams-endpoint response as live or
//! offline, and drive the poll loop's state machine that sends a chat
//! notification exactly once per offline-to-live transition.

pub mod poll;
pub mod status;

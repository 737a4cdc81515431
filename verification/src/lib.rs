//! A host for native plugins, reduced to its decisions.
//!
//! The manager keeps the registry of plugin instances and the single current
//! plugin, and drives every lifecycle and UI operation as a conversation with
//! its host: an operation hands out one [`protocol::HostCall`] at a time, the
//! host performs it against the plugin and answers with a
//! [`protocol::HostAnswer`], and the manager decides what comes next. Native
//! resources never enter this crate; the host keeps them, keyed by plugin id.
//!
//! [`manager::PluginManager`] is the executable manager. [`model`] is the
//! state machine that it computes, over mathematical values. What holds of
//! that machine is proved in [`guarantees`] (every state is one in which
//! registry and current plugin agree), [`lifecycle`] (mounting, disposing,
//! connecting and cleaning up, from request to outcome), [`exchange`]
//! (messages and the UI bridge) and [`residency`] (the manager calls into
//! loaded plugins only, and leaves nothing loaded behind).

pub mod callbacks;
pub mod exchange;
pub mod guarantees;
pub mod instance;
pub mod lifecycle;
pub mod manager;
pub mod metadata;
pub mod model;
pub mod payload;
pub mod phase;
pub mod protocol;
pub mod residency;
pub mod text;

//! A host-guest command bridge: it decodes serialized commands issued by a
//! sandboxed plugin, enforces capability gates, and translates each command
//! into the host's internal vocabulary of actions and instructions, while
//! keeping the plugin's subscription state and timers across calls.

pub mod action;
pub mod channel;
pub mod codec;
pub mod data;
pub mod dispatch;
pub mod subscriptions;

//! Interactive note-taking directory manager, verified core.
//!
//! The library holds the decision logic of the manager: resolving one
//! subject/topic hierarchy level against a parent directory, planning the
//! instantiation of a template set into a freshly created topic (placeholder
//! substitution in entry names), validating the configuration, and building
//! the launch invocation. All filesystem access and user interaction is
//! driven from outside: the library maps states and events to successor
//! states and actions, and the surrounding program performs the actions.

pub mod instantiate;
pub mod level;
pub mod rename;
pub mod session;
pub mod token;

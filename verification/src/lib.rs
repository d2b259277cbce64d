//! Event-sensing and live-configuration core of a desktop shell.
//!
//! The crate models the two responsibilities of the shell's core: routing
//! window events (deduplicated, rate limited and cleared of self-generated
//! noise) to the shell's modules, and keeping a versioned, hot-reloadable
//! snapshot of the whole configuration/resource graph.  Everything here is
//! plain data and decisions; the operating-system hook, the filesystem and
//! the notification channel live outside and hand values in.

pub mod debounce;
pub mod domain;
pub mod hook;
pub mod idmap;
pub mod paths;
pub mod store;
pub mod vd;
pub mod winevent;

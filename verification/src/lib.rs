//! State-synchronization core for a tray-based script launcher.
//!
//! A single UI thread owns a tray icon with a dynamic menu of script files
//! and tracks at most one running script. Background work (a filesystem
//! watcher and per-run execution threads) reaches the UI thread only through
//! an event bridge. This crate holds the verified model of that core: the
//! menu synchronizer, the session controller, the selection dispatcher and
//! the bridge queue. The host process performs the actual operating-system
//! work (directory listing, thread spawning, liveness probes, forced
//! termination, modal prompts) and feeds the observed facts into these
//! functions.

pub mod bridge;
pub mod dispatch;
pub mod menu;
pub mod session;

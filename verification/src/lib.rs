//! Core of an interactive terminal directory browser.
//!
//! The verified core covers the concurrent directory-state synchronization
//! subsystem of the browser: immutable directory snapshots whose entries are
//! sorted with directories first (enumeration order kept within each group),
//! a shared browser state written by a background poller and read by the
//! render/input loop, a per-directory navigation history that restores the
//! cursor when a directory is revisited, and the cursor/scroll rules of the
//! view. Terminal drawing, filesystem reads and the icon table live outside
//! the library and hand it plain values.

pub mod entry;
pub mod history;
pub mod navigate;
pub mod paths;
pub mod snapshot;
pub mod view_state;
pub mod watcher;

//! Monitor arrangement and configuration-state engine for a
//! compositor-managed multi-monitor session: the monitor data model, the
//! layout fitter, profile capture and merge, the compositor IPC protocol,
//! static configuration generation, and the undo history over it all.

pub mod genconfig;
pub mod ipc;
pub mod layout;
pub mod monitor;
pub mod numtext;
pub mod profile;
pub mod settings;
pub mod state;

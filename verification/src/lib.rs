//! What a co-op mod decides: which features run and what each does in a frame, how two players find each
//! other and keep their link, what the overlay shows, what goes to the log, and where the game's code is
//! patched.
//!
//! Nothing here reads or writes the outside world. A function takes what was read as plain values, its
//! contract says what is to be done, and the caller does it: lines to log, toasts to show, bytes to write.
//! Numbers with a fraction arrive as text, as bit patterns or in whole units.

pub mod actionq;
pub mod app;
pub mod bridge;
pub mod clipboard;
pub mod config;
pub mod coop;
pub mod crashdump;
pub mod debug_layout;
pub mod debug_panel;
pub mod diag;
pub mod driver;
pub mod dx12;
pub mod features;
pub mod forward;
pub mod guard;
pub mod guide_log;
pub mod harness;
pub mod hook;
pub mod input;
pub mod launcher;
pub mod levels;
pub mod logbuf;
pub mod logger;
pub mod mods;
pub mod nameplates;
pub mod notify;
pub mod overlay;
pub mod patch;
pub mod playstate;
pub mod proxy;
pub mod report;
pub mod session;
pub mod steam;
pub mod text;
pub mod transport;
pub mod util;
pub mod xinput;

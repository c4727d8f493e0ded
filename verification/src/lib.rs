//! Supervision logic for local `zcashd` and `zainod` daemons.
//!
//! The crate decides. A caller spawns the daemon, reads its log, sleeps, waits
//! and kills, and asks this crate after every step what to do next. The one
//! thing that the crate does on the machine itself is to look for a free port
//! where none is fixed: [`port::pick_unused_port`] asks `portpicker`, which
//! binds sockets to try ports out.

pub mod command;
pub mod daemon;
pub mod decimal;
pub mod error;
pub mod monitor;
pub mod outcome;
pub mod path;
pub mod port;
pub mod stop;
pub mod text;
pub mod trace;
pub mod zainod;
pub mod zcashd;

pub use zainod::Zainod;
pub use zcashd::Zcashd;

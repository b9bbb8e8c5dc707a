//! Tamper detection and emergency lockdown for a host that keeps its data on
//! an encrypted volume.

pub mod coordinator;
pub mod guard;
pub mod host;
pub mod lockdown;
pub mod mode;
pub mod text;
pub mod trap;
pub mod volume;
pub mod watch;

//! Container-engine concerns: mount-spec parsing, persistence naming and
//! modes, and construction of the engine command lines.

pub mod engine;
pub mod mounts;
pub mod persist;

pub use engine::{CommandSpec, CommandSpecView};
pub use persist::PersistMode;

//! Layered configuration resolution and container-engine command construction
//! for the `dungeon` development-container wrapper.

pub mod cli;
pub mod config;
pub mod container;
pub mod error;
pub mod laws;
pub mod strutil;

use vstd::prelude::*;

verus! {

/// Container engine binary that commands are built for.
#[derive(Debug, Clone, Copy, PartialEq, Eq, Structural)]
pub enum Engine {
    Podman,
    Docker,
}

impl Engine {
    /// The program name used to invoke the engine.
    pub fn program(self) -> (r: &'static str)
        ensures
            self == Engine::Podman ==> r@ == "podman"@,
            self == Engine::Docker ==> r@ == "docker"@,
    {
        match self {
            Engine::Podman => "podman",
            Engine::Docker => "docker",
        }
    }
}

} // verus!

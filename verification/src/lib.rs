//! Provisioning logic for a desktop application's external runtime
//! dependencies: a networking mesh client, a media-streaming toolkit and a
//! messaging-library binding.
//!
//! The crate holds the decision logic of the bootstrap orchestrator — which
//! command to try next, which bundled artifact to install, what the aggregated
//! report says — as verified functions. Running external programs, reading
//! directories and writing files is left to the thin shell around the library,
//! which feeds the outcomes back in as plain values.

pub mod clock;
pub mod media;
pub mod mesh;
pub mod messaging;
pub mod netboot;
pub mod offline;
pub mod outcome;
pub mod paths;
pub mod strategy;
pub mod textscan;
pub mod timefmt;

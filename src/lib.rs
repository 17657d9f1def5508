//! Builds fleets of a cargo workspace into WebAssembly, prepares them for the optimizer,
//! and plans battles between two built fleets. Paths are byte strings; running the
//! toolchain, the optimizer, the simulator and the viewer is left to the caller.
pub mod battle;
pub mod fleet_build;
pub mod naming;
pub mod path;
pub mod profile;

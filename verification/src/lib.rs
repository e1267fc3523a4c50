//! A verified model of a single-window GPU renderer's lifecycle: the surface
//! configuration it maintains, the way it reacts to window events, and the
//! fixed per-frame protocol it records for the GPU backend to execute.

/// The presentation capabilities of a surface and its mutable configuration.
pub mod config;
/// The per-frame rendering protocol, recorded as a plan of steps.
pub mod frame;
/// The event-driven lifecycle: state, events, and the actions they demand.
pub mod lifecycle;

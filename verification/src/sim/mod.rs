//! Scripted ride demo: the phases of one run.

pub mod phase;

pub use phase::DemoPhase;

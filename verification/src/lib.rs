//! Promise-artifact resolution for a build tool's analysis phase.
//!
//! During analysis, a rule may invoke an anonymous sub-target whose build
//! artifacts are not known synchronously.  The caller receives a placeholder
//! handle that is filled exactly once, after the producing sub-target's own
//! analysis completes.  This crate provides the registry that records such
//! placeholders, the single-assignment handle, the attribute form that
//! carries a promise across target boundaries, and the resolution protocol
//! that binds each handle to its final artifact while validating any
//! asserted short path.

pub mod analysis;
pub mod artifact;
pub mod attr;
pub mod errors;
pub mod invocation_paths;
pub mod location;
pub mod registry;
pub mod resolve;
pub mod short_path;
pub mod subtargets;
pub mod text;

//! Management commands: reading, replacing and testing the per-TEE
//! policy artifacts.

use vstd::prelude::*;
use crate::{TEEs, PolicyEngine};

pub mod opa;

verus! {

/// The artifact kinds a TEE owns.  `NONE` marks an unset selection.
#[derive(Clone, Copy, Debug, PartialEq, Eq, Structural)]
pub enum Files {
    Policy,
    Reference,
    NONE,
}

/// A request to replace one artifact's content.
pub struct PolicyEngineSetFile {
    pub engine: PolicyEngine,
    pub tee: TEEs,
    pub file: Files,
    pub content: String,
}

/// A request to read one artifact's content.
pub struct PolicyEngineGetFile {
    pub engine: PolicyEngine,
    pub tee: TEEs,
    pub file: Files,
}

/// A request to evaluate a policy against explicit reference data and
/// input, without touching the store.
pub struct OpaTest {
    pub policycontent: String,
    pub referencecontent: String,
    pub inputcontent: String,
}

} // verus!

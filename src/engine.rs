//! What the node remembers of an execution engine.
use vstd::prelude::*;
use crate::primitives::Hash256;

verus! {

/// The remembered state of an engine.
#[derive(Copy, Clone, PartialEq, Debug, Eq, Default, Structural)]
pub enum EngineState {
    Synced,
    #[default]
    Offline,
    Syncing,
    AuthFailed,
}

impl EngineState {
    pub fn is_synced(&self) -> (r: bool)
        ensures
            r == (*self == EngineState::Synced),
    {
        *self == EngineState::Synced
    }
}

/// The heads the engine was last told of.
#[derive(Copy, Clone, PartialEq, Debug, Eq)]
pub struct ForkChoiceState {
    pub head_block_hash: Hash256,
    pub safe_block_hash: Hash256,
    pub finalized_block_hash: Hash256,
}

#[derive(Clone, Debug, PartialEq, Eq)]
pub enum EngineError {
    Offline,
    Api { error: String },
    BuilderApi { error: String },
    Auth,
}

} // verus!

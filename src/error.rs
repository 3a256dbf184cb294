use vstd::prelude::*;

verus! {

/// The classes of failure of the engine.
#[derive(Clone, Copy, Debug, PartialEq, Eq, Structural)]
pub enum EngineError {
    /// An access outside the bounds of a linear memory, or an invalid pointer.
    MemoryAccess,
    /// Guest execution aborted: an explicit abort, an illegal instruction, exhausted gas.
    Trap,
    /// A missing export, cache entry, storage key or module instance.
    NotFound,
    /// A memory would grow past its maximum size.
    Capacity,
    /// An external function failed or answered with a malformed result.
    Dispatch,
}

impl EngineError {
    /// A short description of the error.
    pub fn describe(&self) -> (r: &'static str) {
        match self {
            EngineError::MemoryAccess => "memory access out of bounds",
            EngineError::Trap => "guest execution trapped",
            EngineError::NotFound => "not found",
            EngineError::Capacity => "memory capacity exceeded",
            EngineError::Dispatch => "external function failed",
        }
    }
}

} // verus!

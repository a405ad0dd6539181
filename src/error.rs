use vstd::prelude::*;

verus! {

/// Failures of the retrieval subsystem.
#[derive(Debug, Clone, Copy, PartialEq, Eq, Structural)]
pub enum RagError {
    /// The embedding model could not be loaded.
    ModelLoadError,
    /// The backing store failed.
    StorageError,
    /// A search came before the first index build.
    IndexNotBuilt,
    /// The stored vectors do not all have the same length.
    DimensionMismatch,
    /// Initialization took longer than its bound; the failure is sticky.
    InitializationTimeout,
    /// An earlier initialization failed; no new attempt is made.
    PreviouslyFailed,
}

impl RagError {
    /// A short description of the error.
    pub fn message(&self) -> (r: &'static str)
        ensures
            r@.len() > 0,
    {
        proof {
            reveal_strlit("failed to load the embedding model");
            reveal_strlit("the vector store failed");
            reveal_strlit("index not built");
            reveal_strlit("stored vectors differ in dimension");
            reveal_strlit("retrieval initialization timed out");
            reveal_strlit("retrieval initialization previously failed");
        }
        match self {
            RagError::ModelLoadError => "failed to load the embedding model",
            RagError::StorageError => "the vector store failed",
            RagError::IndexNotBuilt => "index not built",
            RagError::DimensionMismatch => "stored vectors differ in dimension",
            RagError::InitializationTimeout => "retrieval initialization timed out",
            RagError::PreviouslyFailed => "retrieval initialization previously failed",
        }
    }
}

} // verus!

//! The error taxonomy of the lifecycle wrapper.

use vstd::prelude::*;

verus! {

/// Everything that can go wrong when building a wrapper around a native
/// handle.
///
/// The native layer reports failure only as a null handle, so neither variant
/// carries structured detail beyond what this layer itself decided.
#[derive(Debug, PartialEq)]
pub enum LlamaCppError {
    /// A model could not be loaded: either the path could not be encoded for
    /// the native call (it contains an interior NUL character), or the native
    /// loader returned a null handle (file missing, unreadable, corrupt, or
    /// in an unsupported format — the native layer does not distinguish).
    /// The payload describes which of the two steps refused.
    ModelLoadError(String),
    /// The native context constructor returned a null handle, for example
    /// because the requested context length exceeds available memory.
    ContextBuildError,
}

impl LlamaCppError {
    /// A short human-readable description of the error.
    pub fn describe(&self) -> (m: String)
        ensures
            self is ModelLoadError ==> m@ == "Invalid model path"@,
            self is ContextBuildError ==> m@ == "Unable to build context"@,
    {
        match self {
            LlamaCppError::ModelLoadError(_) => "Invalid model path".to_owned(),
            LlamaCppError::ContextBuildError => "Unable to build context".to_owned(),
        }
    }
}

} // verus!

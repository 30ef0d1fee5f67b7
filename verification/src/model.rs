//! Owning wrappers for the native model and context handles.
//!
//! The native loader and the native context constructor are performed by the
//! embedding program; each returns a raw handle address, with null standing
//! for failure. The functions here take that raw outcome as a plain value
//! and decide what it means, so every decision is verified for every
//! possible outcome of the native call. A wrapper is only ever constructed
//! around a non-null address, and it gives the address back exactly once,
//! when it is freed.

use vstd::prelude::*;

use crate::backend::LlamaBackend;
use crate::error::LlamaCppError;
use crate::params::{LlamaContextParams, LlamaModelParams};

verus! {

/// Whether the character sequence contains the NUL character, which a
/// native C string cannot carry.
pub open spec fn has_interior_nul(s: Seq<char>) -> bool {
    exists|i: int| 0 <= i < s.len() && s[i] == '\0'
}

/// Decides whether a path can be encoded for the native call.
///
/// A path that contains NUL cannot be passed to the native loader at all:
/// the embedding program must consult this decision first and skip the
/// native call when it refuses.
pub fn path_is_encodable(path: &str) -> (ok: bool)
    ensures
        ok == !has_interior_nul(path@),
{
    let n: usize = path.unicode_len();
    let mut i: usize = 0;
    while i < n
        invariant
            i <= n,
            n == path@.len(),
            forall|j: int| 0 <= j < i ==> path@[j] != '\0',
        decreases n - i,
    {
        if path.get_char(i) == '\0' {
            return false;
        }
        i += 1;
    }
    true
}

/// An exclusively owned, successfully loaded model.
///
/// Owns one non-null native model handle and borrows the backend token for
/// its whole lifetime, so a model can neither be constructed before
/// initialization nor outlive finalization.
#[derive(Debug)]
pub struct LlamaModel<'a> {
    handle: usize,
    params: LlamaModelParams,
    backend: &'a LlamaBackend,
}

impl<'a> LlamaModel<'a> {
    /// The native handle is non-null for the model's entire lifetime.
    #[verifier::type_invariant]
    spec fn inv(self) -> bool {
        self.handle != 0
    }

    /// The address of the native model handle.
    pub closed spec fn spec_handle(self) -> usize {
        self.handle
    }

    /// The configuration the model was loaded with.
    pub closed spec fn spec_params(self) -> LlamaModelParams {
        self.params
    }

    /// The backend token the model was loaded under.
    pub closed spec fn spec_backend(self) -> &'a LlamaBackend {
        self.backend
    }

    /// Decides the outcome of loading a model from `model_path`.
    ///
    /// `raw_model` is the address the native loader returned for this path
    /// and configuration, with null (0) standing both for a failed load and
    /// for a load that was never attempted because the path is not
    /// encodable. Loading succeeds exactly when the backend is initialized
    /// (witnessed by `backend`), the path is encodable, and the native
    /// loader returned non-null; the two failure causes are told apart by
    /// the error's payload.
    pub fn new(
        model_path: &str,
        model_params: &LlamaModelParams,
        backend: &'a LlamaBackend,
        raw_model: usize,
    ) -> (r: Result<LlamaModel<'a>, LlamaCppError>)
        ensures
            r is Ok <==> (!has_interior_nul(model_path@) && raw_model != 0),
            r matches Ok(m) ==> m.spec_handle() == raw_model && m.spec_params() == *model_params
                && m.spec_backend() == backend,
            has_interior_nul(model_path@) ==> (r matches Err(e)
                && e matches LlamaCppError::ModelLoadError(msg)
                && msg@ == "unable to convert to C String"@),
            !has_interior_nul(model_path@) && raw_model == 0 ==> (r matches Err(e)
                && e matches LlamaCppError::ModelLoadError(msg)
                && msg@ == "unable to create non null pointer"@),
    {
        if !path_is_encodable(model_path) {
            return Err(LlamaCppError::ModelLoadError("unable to convert to C String".to_owned()));
        }
        if raw_model == 0 {
            return Err(LlamaCppError::ModelLoadError("unable to create non null pointer".to_owned()));
        }
        Ok(LlamaModel { handle: raw_model, params: *model_params, backend })
    }

    /// The non-null native handle, for the embedding program to pass into
    /// native calls that operate on the model.
    pub fn raw_handle(&self) -> (h: usize)
        ensures
            h == self.spec_handle(),
            h != 0,
    {
        proof {
            use_type_invariant(&*self);
        }
        self.handle
    }

    /// The configuration the model was loaded with.
    pub fn params(&self) -> (p: LlamaModelParams)
        ensures
            p == self.spec_params(),
    {
        self.params
    }

    /// The backend token the model was loaded under.
    pub fn backend(&self) -> (b: &'a LlamaBackend)
        ensures
            b == self.spec_backend(),
    {
        self.backend
    }

    /// Decides the outcome of building an inference context from this
    /// model.
    ///
    /// `raw_context` is the address the native context constructor returned
    /// for this model and configuration, with null (0) standing for a
    /// failed allocation. Construction succeeds exactly when the native
    /// constructor returned non-null, and may be repeated on the same model
    /// any number of times; the context borrows the model for its whole
    /// lifetime.
    pub fn build_context<'b>(
        &'b self,
        params: &LlamaContextParams,
        raw_context: usize,
    ) -> (r: Result<LlamaContext<'b>, LlamaCppError>)
        ensures
            r is Ok <==> raw_context != 0,
            r matches Ok(c) ==> c.spec_handle() == raw_context && c.spec_params() == *params
                && c.spec_model() == *self,
            r matches Err(e) ==> e is ContextBuildError,
    {
        if raw_context == 0 {
            return Err(LlamaCppError::ContextBuildError);
        }
        Ok(LlamaContext { context: raw_context, params: *params, model: self })
    }

    /// Gives up the model, handing back the address whose native resources
    /// the embedding program must now release, exactly once.
    ///
    /// The borrow checker refuses this call while any context still borrows
    /// the model, so a model's release is always sequenced after every
    /// dependent context's release.
    pub fn free(self) -> (h: usize)
        ensures
            h == self.spec_handle(),
            h != 0,
    {
        proof {
            use_type_invariant(&self);
        }
        self.handle
    }
}

/// An exclusively owned inference context.
///
/// Owns one non-null native context handle and borrows the model it was
/// built from for its whole lifetime, so a context can never outlive its
/// model. Several contexts may borrow the same model at once.
#[derive(Debug)]
pub struct LlamaContext<'a> {
    context: usize,
    params: LlamaContextParams,
    model: &'a LlamaModel<'a>,
}

impl<'a> LlamaContext<'a> {
    /// The native handle is non-null for the context's entire lifetime.
    #[verifier::type_invariant]
    spec fn inv(self) -> bool {
        self.context != 0
    }

    /// The address of the native context handle.
    pub closed spec fn spec_handle(self) -> usize {
        self.context
    }

    /// The configuration the context was built with.
    pub closed spec fn spec_params(self) -> LlamaContextParams {
        self.params
    }

    /// The model the context was built from.
    pub closed spec fn spec_model(self) -> LlamaModel<'a> {
        *self.model
    }

    /// The non-null native handle, for the embedding program to pass into
    /// native calls that operate on the context.
    pub fn raw_handle(&self) -> (h: usize)
        ensures
            h == self.spec_handle(),
            h != 0,
    {
        proof {
            use_type_invariant(&*self);
        }
        self.context
    }

    /// The configuration the context was built with.
    pub fn params(&self) -> (p: LlamaContextParams)
        ensures
            p == self.spec_params(),
    {
        self.params
    }

    /// The model the context was built from.
    pub fn model(&self) -> (m: &'a LlamaModel<'a>)
        ensures
            *m == self.spec_model(),
    {
        self.model
    }

    /// Gives up the context, handing back the address whose native
    /// resources the embedding program must now release, exactly once.
    ///
    /// Safe at any time, independent of sibling contexts, and necessarily
    /// before the model it borrows is freed.
    pub fn free(self) -> (h: usize)
        ensures
            h == self.spec_handle(),
            h != 0,
    {
        proof {
            use_type_invariant(&self);
        }
        self.context
    }
}

} // verus!

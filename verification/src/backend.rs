//! The process-wide initialization gate for the native engine.

use vstd::prelude::*;

verus! {

/// A capability token witnessing that the native engine is initialized.
///
/// The engine has exactly one legal lifecycle: uninitialized, then
/// initialized, then finalized. The token encodes that lifecycle
/// structurally: it can only be obtained from [`LlamaBackend::init`], so
/// holding one (or a borrow of one) proves initialization has happened, and
/// [`LlamaBackend::finalize`] consumes it, so finalization can happen at
/// most once and nothing can use the token afterwards. The token cannot be
/// cloned or copied, and its one field is private, so no second token for
/// the same initialization can exist.
///
/// Model handles borrow the token for their whole lifetime, which makes
/// "load before init" and "finalize while a model is live" type errors
/// rather than runtime faults.
///
/// The native engine itself is not reentrant: the embedding program must
/// perform the native global setup exactly when it obtains the token and
/// the native global teardown exactly when it gives it up, and must not
/// initialize concurrently from several threads.
#[derive(Debug)]
pub struct LlamaBackend {
    token: (),
}

impl LlamaBackend {
    /// Records the one-time global initialization of the native engine and
    /// hands out the only token for it.
    ///
    /// Must be paired with exactly one later [`LlamaBackend::finalize`].
    pub fn init() -> (backend: LlamaBackend) {
        LlamaBackend { token: () }
    }

    /// Records the one-time global teardown of the native engine.
    ///
    /// Consumes the token, so no model or context construction can follow,
    /// and a second finalization — however many owners dropped their
    /// borrows of the token — cannot be written at all. The borrow checker
    /// refuses this call while any model still borrows the token, so
    /// teardown is always sequenced after every dependent release.
    pub fn finalize(self) {
        let LlamaBackend { token } = self;
        let _dropped: () = token;
    }
}

} // verus!

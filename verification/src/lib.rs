//! A memory-safe lifecycle wrapper around a native large-language-model
//! inference engine.
//!
//! The native engine is a handle-based, manually-managed API: a process-wide
//! backend that must be initialized once and freed once, models loaded from a
//! file path into raw handles, and inference contexts built from a model into
//! further raw handles. This crate makes the legal orderings of those
//! operations structural and checks the rest by contract:
//!
//! - [`backend::LlamaBackend`] is a move-only capability token: it exists only
//!   between initialization and finalization, so holding one proves the engine
//!   is initialized, and finalization consumes it, so it happens at most once.
//! - [`model::LlamaModel`] owns a non-null model handle and borrows the
//!   backend token, so a model can never outlive the initialized engine.
//! - [`model::LlamaContext`] owns a non-null context handle and borrows its
//!   model, so a context can never outlive the model it was built from.
//!
//! The native calls themselves (loading a file, allocating a context) are
//! performed by the embedding program; this crate takes each call's raw
//! outcome — a handle address, null on failure — as a plain value, decides
//! what it means, and hands out or refuses the owning wrapper accordingly.
//! Every decision is verified for every possible outcome of the native call.

pub mod backend;
pub mod error;
pub mod model;
pub mod params;

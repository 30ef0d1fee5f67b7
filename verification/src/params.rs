//! Configuration value types for model loading and context construction.
//!
//! These types own no native resources: they may be copied freely, reused
//! across any number of constructions, and discarded without release. Each
//! starts from the engine's documented defaults and is adjusted through
//! explicit override points; unknown options simply do not exist as fields,
//! so they are a compile-time error rather than a runtime one.

use vstd::prelude::*;

verus! {

/// Sampling seed used when no override is given.
pub const DEFAULT_SEED: u32 = 1234;

/// Maximum token window used when no override is given.
pub const DEFAULT_CONTEXT_LENGTH: u32 = 2048;

/// Number of model layers offloaded to the GPU when no override is given.
pub const DEFAULT_GPU_LAYERS: u32 = 0;

/// Configuration passed to model loading, immutable once passed.
#[derive(Clone, Copy, Debug, PartialEq, Eq, Structural)]
pub struct LlamaModelParams {
    /// How many of the model's layers to offload to the GPU.
    pub n_gpu_layers: u32,
    /// Load only the vocabulary, not the weights.
    pub vocab_only: bool,
}

impl LlamaModelParams {
    /// The engine's default loading configuration: no GPU offload, full
    /// weights.
    pub fn with_defaults() -> (p: LlamaModelParams)
        ensures
            p.n_gpu_layers == DEFAULT_GPU_LAYERS,
            !p.vocab_only,
    {
        LlamaModelParams { n_gpu_layers: DEFAULT_GPU_LAYERS, vocab_only: false }
    }

    /// Overrides the GPU offload depth, leaving every other option as it was.
    pub fn with_n_gpu_layers(self, n_gpu_layers: u32) -> (p: LlamaModelParams)
        ensures
            p.n_gpu_layers == n_gpu_layers,
            p.vocab_only == self.vocab_only,
    {
        LlamaModelParams { n_gpu_layers, ..self }
    }

    /// Overrides vocabulary-only mode, leaving every other option as it was.
    pub fn with_vocab_only(self, vocab_only: bool) -> (p: LlamaModelParams)
        ensures
            p.vocab_only == vocab_only,
            p.n_gpu_layers == self.n_gpu_layers,
    {
        LlamaModelParams { vocab_only, ..self }
    }
}

impl Default for LlamaModelParams {
    /// Same configuration as [`LlamaModelParams::with_defaults`].
    fn default() -> (p: LlamaModelParams)
        ensures
            p.n_gpu_layers == DEFAULT_GPU_LAYERS,
            !p.vocab_only,
    {
        LlamaModelParams::with_defaults()
    }
}

/// Configuration passed to context construction, immutable once passed.
#[derive(Clone, Copy, Debug, PartialEq, Eq, Structural)]
pub struct LlamaContextParams {
    /// Base seed for deterministic sampling.
    pub seed: u32,
    /// Maximum token window; the native layer sizes the context's working
    /// memory (key/value cache, scratch buffers) by it.
    pub n_ctx: u32,
}

impl LlamaContextParams {
    /// The default inference configuration: seed 1234 and a window of 2048
    /// tokens.
    pub fn with_defaults() -> (p: LlamaContextParams)
        ensures
            p.seed == DEFAULT_SEED,
            p.n_ctx == DEFAULT_CONTEXT_LENGTH,
    {
        LlamaContextParams { seed: DEFAULT_SEED, n_ctx: DEFAULT_CONTEXT_LENGTH }
    }

    /// Overrides the sampling seed, leaving every other option as it was.
    pub fn with_seed(self, seed: u32) -> (p: LlamaContextParams)
        ensures
            p.seed == seed,
            p.n_ctx == self.n_ctx,
    {
        LlamaContextParams { seed, ..self }
    }

    /// Overrides the token window, leaving every other option as it was.
    pub fn with_n_ctx(self, n_ctx: u32) -> (p: LlamaContextParams)
        ensures
            p.n_ctx == n_ctx,
            p.seed == self.seed,
    {
        LlamaContextParams { n_ctx, ..self }
    }
}

impl Default for LlamaContextParams {
    /// Same configuration as [`LlamaContextParams::with_defaults`].
    fn default() -> (p: LlamaContextParams)
        ensures
            p.seed == DEFAULT_SEED,
            p.n_ctx == DEFAULT_CONTEXT_LENGTH,
    {
        LlamaContextParams::with_defaults()
    }
}

} // verus!

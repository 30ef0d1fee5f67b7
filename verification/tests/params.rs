//! Configuration value types: defaults and override points.

use llama_cpp::params::{
    LlamaContextParams, LlamaModelParams, DEFAULT_CONTEXT_LENGTH, DEFAULT_GPU_LAYERS, DEFAULT_SEED,
};

#[test]
fn default_context_params_expose_seed_and_context_length() {
    let p = LlamaContextParams::default();
    assert_eq!(p.seed, 1234);
    assert_eq!(p.n_ctx, 2048);
    assert_eq!(DEFAULT_SEED, 1234);
    assert_eq!(DEFAULT_CONTEXT_LENGTH, 2048);
    assert_eq!(LlamaContextParams::with_defaults(), p);
}

#[test]
fn default_model_params_keep_weights_on_cpu() {
    let p = LlamaModelParams::default();
    assert_eq!(p.n_gpu_layers, DEFAULT_GPU_LAYERS);
    assert_eq!(p.n_gpu_layers, 0);
    assert!(!p.vocab_only);
    assert_eq!(LlamaModelParams::with_defaults(), p);
}

#[test]
fn context_param_overrides_leave_other_options_unchanged() {
    let p = LlamaContextParams::default().with_seed(7);
    assert_eq!(p.seed, 7);
    assert_eq!(p.n_ctx, 2048);
    let q = p.with_n_ctx(4096);
    assert_eq!(q.seed, 7);
    assert_eq!(q.n_ctx, 4096);
}

#[test]
fn model_param_overrides_leave_other_options_unchanged() {
    let p = LlamaModelParams::default().with_n_gpu_layers(33);
    assert_eq!(p.n_gpu_layers, 33);
    assert!(!p.vocab_only);
    let q = p.with_vocab_only(true);
    assert_eq!(q.n_gpu_layers, 33);
    assert!(q.vocab_only);
}

#[test]
fn params_are_plain_copyable_values() {
    // No native resources: a copy is as good as the original and both can
    // be used for any number of constructions.
    let p = LlamaContextParams::default();
    let copy = p;
    assert_eq!(p, copy);
    let m = LlamaModelParams::default();
    let m_copy = m;
    assert_eq!(m, m_copy);
}

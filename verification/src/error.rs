//! The single error type shared by every crate of the voice studio, and the
//! `Result` alias that pins its error variant.
//!
//! Each variant but `Io` carries a free-text message and names the subsystem
//! that failed; `Io` carries the filesystem error it was made from.
use vstd::prelude::*;

verus! {

/// `std::io::Error`, carried opaquely by [`AarambhVoiceError::Io`]: the
/// library never looks inside it.
#[verifier::external_type_specification]
#[verifier::external_body]
pub struct ExIoError(std::io::Error);

/// The single error type used across every crate in the workspace.
#[derive(Debug)]
pub enum AarambhVoiceError {
    /// Encoder, decoder, or RVQ forward/backward failure.
    Codec(String),
    /// G2P lookup or text-normalisation failure.
    TextPrep(String),
    /// Dataset loading, preprocessing, or auto-labelling failure.
    Data(String),
    /// Transformer block, conditioning injection, or activation failure.
    Nn(String),
    /// CPU SIMD kernel or fused STFT failure.
    Kernel(String),
    /// Per-engine forward pass or diffusion-head failure.
    Model(String),
    /// SafeTensors save or load failure.
    Weights(String),
    /// Training-loop failure (optimiser, checkpointing).
    Train(String),
    /// INT4/INT8 quantisation or GGUF export failure.
    Quant(String),
    /// LoRA/QLoRA/DoRA adapter injection or training failure.
    Finetune(String),
    /// GRPO or DPO alignment loop failure.
    Align(String),
    /// Online self-learning or anti-forgetting failure.
    SelfLearn(String),
    /// Speaker-encoder forward pass or embedding extraction failure.
    Speaker(String),
    /// Emotion-encoder forward pass or embedding extraction failure.
    Emotion(String),
    /// Music-understanding classifier or music-generation failure.
    Music(String),
    /// Singing synthesis or diffusion-refinement failure.
    Sing(String),
    /// Mixing or mastering DSP failure.
    Mix(String),
    /// Structure planner or audio orchestration failure.
    Compose(String),
    /// Consent gating, watermarking, or guardrail failure.
    Safety(String),
    /// Evaluation harness or baseline-comparison failure.
    Eval(String),
    /// Request parsing or validation failure.
    Control(String),
    /// KV cache, streaming, or speculative-decoding failure.
    Inference(String),
    /// HTTP server startup or request-handling failure.
    Serve(String),
    /// A JSON / TOML / message-pack serialisation or deserialisation error.
    Serialisation(String),
    /// A filesystem read or write failed.
    Io(std::io::Error),
}

/// Crate-wide `Result` alias that pins the error to [`AarambhVoiceError`].
pub type VoiceResult<T> = Result<T, AarambhVoiceError>;

} // verus!

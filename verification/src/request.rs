//! The request-surface types that hold no floating-point value: voice
//! selection, discrete emotion labels, lyric alignment, singing parameters,
//! output format and consent attestation.
use vstd::prelude::*;

verus! {

/// Specification of which voice to use for speech generation.
///
/// Exactly one of the three fields should be `Some`; if all three are `None`
/// the engine falls back to a default voice.
#[derive(Debug, Clone)]
pub struct VoiceSpec {
    /// Path to a short reference audio clip (3-10 s) whose voice will be cloned.
    /// When set, [`ConsentSpec::consent_provided`] must be `true`.
    pub reference_audio: Option<String>,
    /// A free-text description of the desired voice.
    pub design_text: Option<String>,
    /// A previously saved speaker-embedding key.
    pub speaker_id: Option<String>,
}

/// Discrete emotion categories recognised by the emotion encoder.
#[derive(Debug, Clone)]
pub enum EmotionLabel {
    /// Joyful, cheerful, positive affect.
    Happy,
    /// Downcast, sorrowful, negative affect.
    Sad,
    /// Hostile, frustrated, agitated.
    Angry,
    /// Baseline: no strong emotional valence.
    Neutral,
    /// Startled, amazed, caught off-guard.
    Surprised,
    /// Anxious, scared, threatened.
    Fearful,
    /// Repulsed, strong aversion.
    Disgusted,
    /// Relaxed, peaceful, low-arousal positive affect.
    Calm,
}

/// Per-frame alignment of a lyric syllable to a melody note.
#[derive(Debug, Clone)]
pub struct Alignment {
    /// Codec-frame index where this syllable starts.
    pub start_frame: usize,
    /// Codec-frame index where this syllable ends (exclusive).
    pub end_frame: usize,
}

/// Parameters for the singing engine.
#[derive(Debug, Clone)]
pub struct SingingSpec {
    /// MIDI-like melody data (raw bytes) with note-on/note-off events.
    pub melody: Vec<u8>,
    /// Optional per-syllable alignment to the lyrics text; when `None` the
    /// singing engine aligns on its own.
    pub lyrics_alignment: Option<Vec<Alignment>>,
}

/// The container / codec format for generated audio output.
#[derive(Debug, Clone)]
pub enum AudioOutputFormat {
    /// Uncompressed 16-bit / 24-bit PCM in a WAV container.
    Wav,
    /// FLAC lossless compression.
    Flac,
    /// Opus low-latency lossy compression.
    Opus,
    /// MP3 lossy compression.
    Mp3,
}

/// Consent attestation for voice cloning.
#[derive(Debug, Clone)]
pub struct ConsentSpec {
    /// Whether consent has been explicitly provided.
    pub consent_provided: bool,
    /// An identifier linking this generation back to a stored consent record.
    pub speaker_id: Option<String>,
}

} // verus!

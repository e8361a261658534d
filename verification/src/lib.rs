//! Core types of the voice studio: the audio domain and model
//! hyper-parameters with their preset scales, the shared error type, and the
//! typed request surface that every engine accepts.

pub mod config;
pub mod error;
pub mod request;

pub use config::{AudioDomain, ModelConfig};
pub use error::{AarambhVoiceError, VoiceResult};
pub use request::{Alignment, AudioOutputFormat, ConsentSpec, EmotionLabel, SingingSpec, VoiceSpec};

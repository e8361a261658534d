//! Shared configuration types: the audio domain and the transformer
//! hyper-parameters of every engine, with four preset scales.
//!
//! | Scale  | `d_model` | `n_layers` | `n_heads` | `n_kv_heads` | `max_frames` |
//! |--------|-----------|------------|-----------|--------------|--------------|
//! | Tiny   | 256       | 6          | 8         | 2            | 375          |
//! | Small  | 512       | 12         | 8         | 4            | 750          |
//! | Medium | 768       | 18         | 12        | 4            | 1500         |
//! | Large  | 1024      | 24         | 16        | 4            | 3000         |
//!
//! All scales share `n_codebooks = 8`.
use vstd::prelude::*;

verus! {

/// The three audio domains the system can process or generate.
#[derive(Debug, Clone, Copy, PartialEq, Eq, Structural)]
pub enum AudioDomain {
    /// Spoken-language audio: TTS, voice cloning, emotion control.
    Speech,
    /// Instrumental music: understanding (classifier) and generation.
    Music,
    /// Sung vocals with melody conditioning (lyrics + MIDI-like input).
    Singing,
}

/// Hyper-parameters that fully describe a transformer model.
///
/// Constraint: `d_model` must be divisible by `n_heads`, and the query heads
/// are grouped evenly over the key/value heads (see [`ModelConfig::well_formed`]).
#[derive(Debug, Clone, PartialEq, Eq, Structural)]
pub struct ModelConfig {
    /// Embedding dimension (width of every hidden state and attention output).
    pub d_model: usize,
    /// Number of transformer blocks stacked in the decoder.
    pub n_layers: usize,
    /// Number of attention heads per block; head dimension is `d_model / n_heads`.
    pub n_heads: usize,
    /// Number of key/value heads for Grouped-Query Attention.
    pub n_kv_heads: usize,
    /// Maximum number of codec-frame positions the model can attend over.
    pub max_frames: usize,
    /// Number of residual vector quantisation codebooks used by the codec.
    pub n_codebooks: usize,
    /// The audio domain this config targets.
    pub domain: AudioDomain,
}

/// Number of codebooks shared by every preset scale.
pub const PRESET_CODEBOOKS: usize = 8;

impl ModelConfig {
    /// The configuration made of the given hyper-parameters.
    pub open spec fn spec_new(
        d_model: nat,
        n_layers: nat,
        n_heads: nat,
        n_kv_heads: nat,
        max_frames: nat,
        domain: AudioDomain,
    ) -> ModelConfig {
        ModelConfig {
            d_model: d_model as usize,
            n_layers: n_layers as usize,
            n_heads: n_heads as usize,
            n_kv_heads: n_kv_heads as usize,
            max_frames: max_frames as usize,
            n_codebooks: PRESET_CODEBOOKS,
            domain,
        }
    }

    /// The Tiny preset: 256-dim, 6 layers, 8 heads, 2 key/value heads, 375 frames.
    pub open spec fn spec_tiny(domain: AudioDomain) -> ModelConfig {
        Self::spec_new(256, 6, 8, 2, 375, domain)
    }

    /// The Small preset: 512-dim, 12 layers, 8 heads, 4 key/value heads, 750 frames.
    pub open spec fn spec_small(domain: AudioDomain) -> ModelConfig {
        Self::spec_new(512, 12, 8, 4, 750, domain)
    }

    /// The Medium preset: 768-dim, 18 layers, 12 heads, 4 key/value heads, 1500 frames.
    pub open spec fn spec_medium(domain: AudioDomain) -> ModelConfig {
        Self::spec_new(768, 18, 12, 4, 1500, domain)
    }

    /// The Large preset: 1024-dim, 24 layers, 16 heads, 4 key/value heads, 3000 frames.
    pub open spec fn spec_large(domain: AudioDomain) -> ModelConfig {
        Self::spec_new(1024, 24, 16, 4, 3000, domain)
    }

    /// The architectural constraint every config must meet before tensors are
    /// built: heads are non-empty, `d_model` splits evenly into `n_heads`
    /// heads, and the query heads split evenly into `n_kv_heads` groups, one
    /// group per key/value head.
    pub open spec fn well_formed(self) -> bool {
        &&& self.n_heads > 0
        &&& self.n_kv_heads > 0
        &&& self.d_model % self.n_heads == 0
        &&& self.n_heads % self.n_kv_heads == 0
    }

    /// Width of one attention head.
    pub open spec fn head_dim(self) -> int {
        self.d_model as int / self.n_heads as int
    }

    /// How many query heads share one key/value head.
    pub open spec fn query_group_size(self) -> int {
        self.n_heads as int / self.n_kv_heads as int
    }

    /// Returns the **Tiny** preset: 256-dim, 6 layers, about 10 M parameters.
    ///
    /// Designed for fast CPU iteration, for initial experiments and as the
    /// draft model of speculative decoding. `max_frames` is 375 (about 30 s
    /// at 12.5 Hz).
    pub fn tiny(domain: AudioDomain) -> (cfg: Self)
        ensures
            cfg == Self::spec_tiny(domain),
            cfg.well_formed(),
            cfg.head_dim() == 32,
            cfg.query_group_size() == 4,
    {
        ModelConfig {
            d_model: 256,
            n_layers: 6,
            n_heads: 8,
            n_kv_heads: 2,
            max_frames: 375,
            n_codebooks: PRESET_CODEBOOKS,
            domain,
        }
    }

    /// Returns the **Small** preset: 512-dim, 12 layers, about 55 M parameters.
    ///
    /// The default scale for end-to-end engine training on a single GPU.
    /// `max_frames` is 750 (about 60 s at 12.5 Hz).
    pub fn small(domain: AudioDomain) -> (cfg: Self)
        ensures
            cfg == Self::spec_small(domain),
            cfg.well_formed(),
            cfg.head_dim() == 64,
            cfg.query_group_size() == 2,
    {
        ModelConfig {
            d_model: 512,
            n_layers: 12,
            n_heads: 8,
            n_kv_heads: 4,
            max_frames: 750,
            n_codebooks: PRESET_CODEBOOKS,
            domain,
        }
    }

    /// Returns the **Medium** preset: 768-dim, 18 layers, about 170 M parameters.
    ///
    /// `max_frames` is 1500 (about 2 min at 12.5 Hz).
    pub fn medium(domain: AudioDomain) -> (cfg: Self)
        ensures
            cfg == Self::spec_medium(domain),
            cfg.well_formed(),
            cfg.head_dim() == 64,
            cfg.query_group_size() == 3,
    {
        ModelConfig {
            d_model: 768,
            n_layers: 18,
            n_heads: 12,
            n_kv_heads: 4,
            max_frames: 1500,
            n_codebooks: PRESET_CODEBOOKS,
            domain,
        }
    }

    /// Returns the **Large** preset: 1024-dim, 24 layers, about 450 M parameters.
    ///
    /// `max_frames` is 3000 (about 4 min at 12.5 Hz).
    pub fn large(domain: AudioDomain) -> (cfg: Self)
        ensures
            cfg == Self::spec_large(domain),
            cfg.well_formed(),
            cfg.head_dim() == 64,
            cfg.query_group_size() == 4,
    {
        ModelConfig {
            d_model: 1024,
            n_layers: 24,
            n_heads: 16,
            n_kv_heads: 4,
            max_frames: 3000,
            n_codebooks: PRESET_CODEBOOKS,
            domain,
        }
    }
}

/// Every preset scale, for every domain, meets the architectural constraint
/// (`d_model` divisible by `n_heads`, query heads grouped evenly over the
/// key/value heads), uses the shared number of codebooks, and targets the
/// domain it was asked for.
pub proof fn lemma_presets_well_formed(domain: AudioDomain)
    ensures
        ModelConfig::spec_tiny(domain).well_formed(),
        ModelConfig::spec_small(domain).well_formed(),
        ModelConfig::spec_medium(domain).well_formed(),
        ModelConfig::spec_large(domain).well_formed(),
        ModelConfig::spec_tiny(domain).n_codebooks == PRESET_CODEBOOKS,
        ModelConfig::spec_small(domain).n_codebooks == PRESET_CODEBOOKS,
        ModelConfig::spec_medium(domain).n_codebooks == PRESET_CODEBOOKS,
        ModelConfig::spec_large(domain).n_codebooks == PRESET_CODEBOOKS,
        ModelConfig::spec_tiny(domain).domain == domain,
        ModelConfig::spec_small(domain).domain == domain,
        ModelConfig::spec_medium(domain).domain == domain,
        ModelConfig::spec_large(domain).domain == domain,
{
}

/// A preset depends on the domain only through its `domain` field: the same
/// scale built for two domains agrees on every hyper-parameter.
pub proof fn lemma_presets_domain_independent(a: AudioDomain, b: AudioDomain)
    ensures
        ModelConfig::spec_tiny(b) == (ModelConfig { domain: b, ..ModelConfig::spec_tiny(a) }),
        ModelConfig::spec_small(b) == (ModelConfig { domain: b, ..ModelConfig::spec_small(a) }),
        ModelConfig::spec_medium(b) == (ModelConfig { domain: b, ..ModelConfig::spec_medium(a) }),
        ModelConfig::spec_large(b) == (ModelConfig { domain: b, ..ModelConfig::spec_large(a) }),
{
}

/// The scales grow in order Tiny < Small < Medium < Large: each step widens
/// the model, stacks more layers and doubles the context window, while never
/// using more key/value heads than query heads.
pub proof fn lemma_presets_ordered(domain: AudioDomain)
    ensures
        ({
            let t = ModelConfig::spec_tiny(domain);
            let s = ModelConfig::spec_small(domain);
            let m = ModelConfig::spec_medium(domain);
            let l = ModelConfig::spec_large(domain);
            &&& t.d_model < s.d_model < m.d_model < l.d_model
            &&& t.n_layers < s.n_layers < m.n_layers < l.n_layers
            &&& t.n_heads <= s.n_heads <= m.n_heads <= l.n_heads
            &&& s.max_frames == 2 * t.max_frames
            &&& m.max_frames == 2 * s.max_frames
            &&& l.max_frames == 2 * m.max_frames
            &&& t.n_kv_heads <= t.n_heads
            &&& s.n_kv_heads <= s.n_heads
            &&& m.n_kv_heads <= m.n_heads
            &&& l.n_kv_heads <= l.n_heads
        }),
{
}

} // verus!

use aarambh_voice_core::config::PRESET_CODEBOOKS;
use aarambh_voice_core::{AudioDomain, ModelConfig};

#[test]
fn test_tiny_speech() {
    let cfg = ModelConfig::tiny(AudioDomain::Speech);
    assert_eq!(cfg.d_model, 256);
    assert_eq!(cfg.n_layers, 6);
    assert_eq!(cfg.n_heads, 8);
    assert_eq!(cfg.n_kv_heads, 2);
    assert_eq!(cfg.max_frames, 375);
    assert_eq!(cfg.n_codebooks, 8);
    assert_eq!(cfg.domain, AudioDomain::Speech);
}

#[test]
fn test_tiny_music() {
    let cfg = ModelConfig::tiny(AudioDomain::Music);
    assert_eq!(cfg.n_layers, 6);
    assert_eq!(cfg.domain, AudioDomain::Music);
}

#[test]
fn test_tiny_singing() {
    let cfg = ModelConfig::tiny(AudioDomain::Singing);
    assert_eq!(cfg.n_layers, 6);
    assert_eq!(cfg.domain, AudioDomain::Singing);
}

#[test]
fn test_small_speech() {
    let cfg = ModelConfig::small(AudioDomain::Speech);
    assert_eq!(cfg.d_model, 512);
    assert_eq!(cfg.n_layers, 12);
    assert_eq!(cfg.n_heads, 8);
    assert_eq!(cfg.n_kv_heads, 4);
    assert_eq!(cfg.max_frames, 750);
}

#[test]
fn test_medium_speech() {
    let cfg = ModelConfig::medium(AudioDomain::Speech);
    assert_eq!(cfg.d_model, 768);
    assert_eq!(cfg.n_layers, 18);
    assert_eq!(cfg.n_heads, 12);
}

#[test]
fn test_large_speech() {
    let cfg = ModelConfig::large(AudioDomain::Speech);
    assert_eq!(cfg.d_model, 1024);
    assert_eq!(cfg.n_layers, 24);
    assert_eq!(cfg.n_heads, 16);
    assert_eq!(cfg.n_kv_heads, 4);
    assert_eq!(cfg.max_frames, 3000);
}

fn all_presets(domain: AudioDomain) -> Vec<ModelConfig> {
    vec![
        ModelConfig::tiny(domain),
        ModelConfig::small(domain),
        ModelConfig::medium(domain),
        ModelConfig::large(domain),
    ]
}

#[test]
fn presets_meet_head_constraints() {
    for domain in [AudioDomain::Speech, AudioDomain::Music, AudioDomain::Singing] {
        for cfg in all_presets(domain) {
            assert!(cfg.n_heads > 0 && cfg.n_kv_heads > 0);
            assert_eq!(cfg.d_model % cfg.n_heads, 0);
            assert_eq!(cfg.n_heads % cfg.n_kv_heads, 0);
            assert_eq!(cfg.n_codebooks, PRESET_CODEBOOKS);
            assert_eq!(cfg.domain, domain);
        }
    }
}

#[test]
fn presets_head_dims_and_groups() {
    let dims: Vec<(usize, usize)> = all_presets(AudioDomain::Music)
        .iter()
        .map(|c| (c.d_model / c.n_heads, c.n_heads / c.n_kv_heads))
        .collect();
    assert_eq!(dims, vec![(32, 4), (64, 2), (64, 3), (64, 4)]);
}

#[test]
fn presets_differ_across_domains_only_in_domain() {
    let speech = all_presets(AudioDomain::Speech);
    let singing = all_presets(AudioDomain::Singing);
    for (a, b) in speech.iter().zip(singing.iter()) {
        assert_ne!(a, b);
        let mut relabelled = a.clone();
        relabelled.domain = AudioDomain::Singing;
        assert_eq!(&relabelled, b);
    }
}

#[test]
fn presets_grow_in_order() {
    let p = all_presets(AudioDomain::Speech);
    for w in p.windows(2) {
        assert!(w[0].d_model < w[1].d_model);
        assert!(w[0].n_layers < w[1].n_layers);
        assert!(w[0].n_heads <= w[1].n_heads);
        assert_eq!(w[1].max_frames, 2 * w[0].max_frames);
    }
    for cfg in &p {
        assert!(cfg.n_kv_heads <= cfg.n_heads);
    }
}

#[test]
fn config_clone_equals_original() {
    let cfg = ModelConfig::medium(AudioDomain::Music);
    let copy = cfg.clone();
    assert_eq!(cfg, copy);
    assert_ne!(cfg, ModelConfig::large(AudioDomain::Music));
}

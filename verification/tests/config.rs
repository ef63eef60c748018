use rsmf::config::SpectralConfig;

#[test]
fn default_config_fits_4gb() {
    let cfg = SpectralConfig::default();
    // GPT-2 small: d=768, should easily fit
    assert!(cfg.fits_budget(768, 12, 4 * 1024 * 1024 * 1024));
}

#[test]
fn vram_estimate_reasonable() {
    let cfg = SpectralConfig::default();
    let vram = cfg.vram_per_stratum(4096);
    // Should be under 1MB for k=32, d=4096
    assert!(vram < 1024 * 1024, "VRAM per stratum too high: {} bytes", vram);
}

#[test]
fn vram_per_stratum_formula() {
    let cfg = SpectralConfig::default();
    // U and V: 32·4096·2·2; σ: 32·8; cache: 4096·8·2; signal: 4096·2
    assert_eq!(cfg.vram_per_stratum(4096), 524_288 + 256 + 65_536 + 8_192);
}

#[test]
fn fits_budget_boundary() {
    let cfg = SpectralConfig { top_k: 1, max_inner_iters: 1 };
    // d = 2: 1·2·4 + 8 + 2·16 + 4 + 2·2·2 = 60
    assert!(cfg.fits_budget(2, 1, 60));
    assert!(!cfg.fits_budget(2, 1, 59));
}

#[test]
fn default_values() {
    let cfg = SpectralConfig::default();
    assert_eq!(cfg.top_k, 32);
    assert_eq!(cfg.max_inner_iters, 10);
}

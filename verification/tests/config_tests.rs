use triframe::config::{SurfaceCaps, SurfaceConfig, clamp_dim_exec};

#[test]
fn clamp_keeps_positive_and_lifts_zero() {
    assert_eq!(clamp_dim_exec(0), 1);
    assert_eq!(clamp_dim_exec(1), 1);
    assert_eq!(clamp_dim_exec(800), 800);
    assert_eq!(clamp_dim_exec(u32::MAX), u32::MAX);
}

#[test]
fn initial_config_takes_first_entries_and_clamps() {
    let caps = SurfaceCaps {
        formats: vec![11, 12, 13],
        present_modes: vec![21, 22],
        alpha_modes: vec![31],
    };
    let cfg = SurfaceConfig::initial(&caps, 0, 600);
    assert_eq!(
        cfg,
        SurfaceConfig { format: 11, width: 1, height: 600, present_mode: 21, alpha_mode: 31 }
    );
}

#[test]
fn resize_stores_clamped_size_and_keeps_modes() {
    let mut cfg = SurfaceConfig { format: 11, width: 800, height: 600, present_mode: 21, alpha_mode: 31 };
    cfg.resize(1024, 0);
    assert_eq!(
        cfg,
        SurfaceConfig { format: 11, width: 1024, height: 1, present_mode: 21, alpha_mode: 31 }
    );
}

#[test]
fn resize_to_same_size_changes_nothing() {
    let before = SurfaceConfig { format: 11, width: 640, height: 480, present_mode: 21, alpha_mode: 31 };
    let mut cfg = before;
    cfg.resize(640, 480);
    assert_eq!(cfg, before);
}

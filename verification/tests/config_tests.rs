use splat_studio::config::{
    CaptureSettings, ExportSettings, MatcherMode, ProjectSettings, QualityPreset,
    RefinementSettings, TrainingSettings,
};

#[test]
fn default_project_settings() {
    let settings = ProjectSettings::default();
    assert_eq!(settings.training.max_steps, 30_000);
    assert_eq!(settings.training.quality.cap_max(), 1_000_000);
    assert!(settings.refinement.enabled);
    assert_eq!(settings.capture.max_frames, 1200);
    assert_eq!(settings.export.unit, "millimeter");
}

#[test]
fn matcher_labels_and_cli_values() {
    assert_eq!(MatcherMode::Auto.label(), "Auto");
    assert_eq!(MatcherMode::Exhaustive.label(), "Exhaustive");
    assert_eq!(MatcherMode::Sequential.label(), "Sequential");
    assert_eq!(MatcherMode::Auto.cli_value(), "auto");
    assert_eq!(MatcherMode::Exhaustive.cli_value(), "exhaustive");
    assert_eq!(MatcherMode::Sequential.cli_value(), "sequential");
    assert_eq!(
        MatcherMode::ALL,
        [MatcherMode::Auto, MatcherMode::Exhaustive, MatcherMode::Sequential]
    );
}

#[test]
fn quality_presets() {
    assert_eq!(QualityPreset::Safe.label(), "Safe / 1M Gaussians");
    assert_eq!(QualityPreset::High.label(), "High / 2M Gaussians");
    assert_eq!(QualityPreset::Safe.cap_max(), 1_000_000);
    assert_eq!(QualityPreset::High.cap_max(), 2_000_000);
    assert_eq!(QualityPreset::ALL, [QualityPreset::Safe, QualityPreset::High]);
}

#[test]
fn capture_defaults() {
    let capture = CaptureSettings::default();
    assert_eq!(f32::from_bits(capture.frame_fps_bits), 3.0);
    assert_eq!(f64::from_bits(capture.blur_threshold_bits), 70.0);
    assert_eq!(f32::from_bits(capture.duplicate_threshold_bits), 0.985);
    assert_eq!(capture.max_frames, 1200);
    assert_eq!(capture.matcher, MatcherMode::Auto);
}

#[test]
fn training_and_refinement_defaults() {
    let training = TrainingSettings::default();
    assert_eq!(training.quality, QualityPreset::Safe);
    assert_eq!(training.max_steps, 30_000);
    let refinement = RefinementSettings::default();
    assert!(refinement.enabled);
    assert_eq!(refinement.rounds, 1);
    assert!(!refinement.temporal);
    assert_eq!(refinement.resolution, 1024);
    assert_eq!(refinement.distill_steps, 750);
    assert_eq!(f32::from_bits(refinement.max_mean_change_bits), 0.22);
    assert_eq!(f32::from_bits(refinement.min_edge_correlation_bits), 0.35);
}

#[test]
fn export_defaults() {
    let export = ExportSettings::default();
    assert!(export.export_spz);
    assert_eq!(export.unit, "millimeter");
    assert_eq!(export.up_axis, "Z");
    assert_eq!(f64::from_bits(export.scale_multiplier_bits), 1.0);
}

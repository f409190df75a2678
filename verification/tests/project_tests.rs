use splat_studio::config::ProjectSettings;
use splat_studio::project::ProjectManifest;
use std::path::PathBuf;

#[test]
fn manifest_uses_source_name_in_id() {
    let manifest = ProjectManifest::new(
        "C:/captures/durst-01.mp4",
        "C:/out/durst-01",
        ProjectSettings::default(),
    );
    assert!(manifest.project_id.starts_with("durst-01-"));
    assert_eq!(manifest.schema_version, 1);
}

#[test]
fn manifest_from_parts() {
    let manifest = ProjectManifest::from_parts(
        "C:/captures/durst-01.mp4",
        "C:/out/durst-01",
        ProjectSettings::default(),
        Some("durst-01"),
        1_725_029_869,
    );
    assert_eq!(manifest.project_id, "durst-01-1725029869");
    assert_eq!(manifest.created_unix, 1_725_029_869);
    assert_eq!(manifest.source_video, "C:/captures/durst-01.mp4");
    assert_eq!(manifest.output_dir, "C:/out/durst-01");
    assert_eq!(manifest.status, "created");
    assert!(manifest.outputs.raw_ply.is_none());
    assert!(manifest.outputs.refinement_report.is_none());
    assert_eq!(manifest.settings.training.max_steps, 30_000);
}

#[test]
fn manifest_without_stem_is_a_scan() {
    let manifest =
        ProjectManifest::from_parts("", "out", ProjectSettings::default(), None, 42);
    assert_eq!(manifest.project_id, "scan-42");
    let created = ProjectManifest::new("/", "out", ProjectSettings::default());
    assert!(created.project_id.starts_with("scan-"));
    assert_eq!(created.project_id, format!("scan-{}", created.created_unix));
}

#[test]
fn manifest_clock_is_recent() {
    let manifest = ProjectManifest::new("a/b.mov", "out", ProjectSettings::default());
    assert!(manifest.created_unix > 1_600_000_000);
    assert_eq!(manifest.project_id, format!("b-{}", manifest.created_unix));
}

#[test]
fn manifest_lives_in_output_dir() {
    let manifest = ProjectManifest::from_parts("v.mp4", "/tmp/out", ProjectSettings::default(), Some("v"), 1);
    assert_eq!(manifest.manifest_path(), PathBuf::from("/tmp/out/project.json"));
}

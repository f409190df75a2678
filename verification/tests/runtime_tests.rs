use splat_studio::runtime::RuntimeManager;
use std::path::PathBuf;

#[test]
fn workspace_layout() {
    let manager = RuntimeManager::new(PathBuf::from("/data/studio"));
    assert_eq!(manager.workspace, PathBuf::from("/data/studio"));
    assert_eq!(
        manager.required_directories(),
        vec![
            PathBuf::from("/data/studio/models"),
            PathBuf::from("/data/studio/projects"),
            PathBuf::from("/data/studio/runtime"),
            PathBuf::from("/data/studio/outputs"),
        ]
    );
}

#[test]
fn runtime_status_from_probes() {
    let manager = RuntimeManager::new(PathBuf::from("ws"));
    let status = manager.inspect(true, false);
    assert!(status.wsl_available);
    assert!(!status.nvidia_available);
    assert!(!status.cuda_visible);
    assert_eq!(status.free_disk_gb, None);
}

#[test]
fn workspace_directories_are_distinct_children() {
    let manager = RuntimeManager::new(PathBuf::from("relative/ws"));
    let dirs = manager.required_directories();
    let names = ["models", "projects", "runtime", "outputs"];
    assert_eq!(dirs.len(), 4);
    for (dir, name) in dirs.iter().zip(names) {
        assert_eq!(dir.file_name().and_then(|n| n.to_str()), Some(name));
        assert!(dir.starts_with(&manager.workspace));
    }
    for i in 0..4 {
        for j in (i + 1)..4 {
            assert_ne!(dirs[i], dirs[j]);
        }
    }
}

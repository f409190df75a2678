use splat_studio::pipeline::{plan, RuntimeProfile};

#[test]
fn local_plan_runs_harmonizer_then_refinement() {
    let steps = plan(RuntimeProfile::Local16Gb);
    let names: Vec<&str> = steps.iter().map(|s| s.name).collect();
    assert_eq!(
        names,
        vec![
            "Extract frames",
            "Solve cameras",
            "Reconstruct 3DGS",
            "Harmonizer pass",
            "Offline refinement",
            "Export"
        ]
    );
    assert_eq!(
        steps[3].detail,
        "Run NVIDIA Harmonizer as a separate 16 GB-friendly inference stage."
    );
}

#[test]
fn nurec_plan_refines_in_one_step() {
    let steps = plan(RuntimeProfile::FullNuRec);
    let names: Vec<&str> = steps.iter().map(|s| s.name).collect();
    assert_eq!(
        names,
        vec!["Extract frames", "Solve cameras", "Reconstruct 3DGS", "NuRec refinement", "Export"]
    );
    assert_eq!(
        steps[0].detail,
        "FFmpeg extracts sharp, spaced frames and preserves source metadata."
    );
}

#[test]
fn profile_labels() {
    assert_eq!(
        RuntimeProfile::Local16Gb.label(),
        "Local 16 GB (recommended for RTX 4070 Ti Super)"
    );
    assert_eq!(RuntimeProfile::FullNuRec.label(), "Full NVIDIA NuRec (24+ GB VRAM host)");
}

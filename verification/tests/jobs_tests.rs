use splat_studio::jobs::{JobStage, ReconstructionJob};
use std::path::PathBuf;

#[test]
fn new_job_is_preparing() {
    let job = ReconstructionJob::new(PathBuf::from("in.mp4"), PathBuf::from("out"));
    assert_eq!(job.stage, JobStage::Preparing);
    assert_eq!(f32::from_bits(job.progress_bits), 0.0);
    assert_eq!(job.input_video, PathBuf::from("in.mp4"));
    assert_eq!(job.output_dir, PathBuf::from("out"));
}

#[test]
fn stages_advance_in_order_and_complete() {
    let mut job = ReconstructionJob::new(PathBuf::from("in.mp4"), PathBuf::from("out"));
    let expected = [
        JobStage::ExtractingFrames,
        JobStage::SolvingCamera,
        JobStage::TrainingSplat,
        JobStage::Harmonizing,
        JobStage::Refining,
        JobStage::Exporting,
        JobStage::Completed,
        JobStage::Completed,
    ];
    for stage in expected {
        job.next_stage();
        assert_eq!(job.stage, stage);
    }
    assert_eq!(job.input_video, PathBuf::from("in.mp4"));
}

#[test]
fn failed_job_stays_failed() {
    let mut job = ReconstructionJob::new(PathBuf::from("a"), PathBuf::from("b"));
    job.stage = JobStage::Failed;
    job.next_stage();
    job.next_stage();
    assert_eq!(job.stage, JobStage::Failed);
}

#[test]
fn cloned_job_keeps_its_paths() {
    let job = ReconstructionJob::new(PathBuf::from("scan.mov"), PathBuf::from("/out/scan"));
    let copy = job.clone();
    assert_eq!(copy.input_video, job.input_video);
    assert_eq!(copy.output_dir, PathBuf::from("/out/scan"));
    assert_eq!(copy.stage, JobStage::Preparing);
}

use std::path::PathBuf;
use vstd::prelude::*;

verus! {

/// The stages a reconstruction job passes through, in order; `Failed` is
/// entered only from outside the normal progression.
#[derive(Debug, Clone, Copy, PartialEq, Eq, Structural)]
pub enum JobStage {
    Preparing,
    ExtractingFrames,
    SolvingCamera,
    TrainingSplat,
    Harmonizing,
    Refining,
    Exporting,
    Completed,
    Failed,
}

/// Position of a stage in the normal progression; `Failed` stands outside it.
pub open spec fn stage_rank(stage: JobStage) -> int {
    match stage {
        JobStage::Preparing => 0,
        JobStage::ExtractingFrames => 1,
        JobStage::SolvingCamera => 2,
        JobStage::TrainingSplat => 3,
        JobStage::Harmonizing => 4,
        JobStage::Refining => 5,
        JobStage::Exporting => 6,
        JobStage::Completed => 7,
        JobStage::Failed => -1,
    }
}

/// A stage after which nothing more happens.
pub open spec fn is_terminal(stage: JobStage) -> bool {
    stage == JobStage::Completed || stage == JobStage::Failed
}

/// The stage that follows `stage`; the terminal stages follow themselves.
pub open spec fn following_stage(stage: JobStage) -> JobStage {
    match stage {
        JobStage::Preparing => JobStage::ExtractingFrames,
        JobStage::ExtractingFrames => JobStage::SolvingCamera,
        JobStage::SolvingCamera => JobStage::TrainingSplat,
        JobStage::TrainingSplat => JobStage::Harmonizing,
        JobStage::Harmonizing => JobStage::Refining,
        JobStage::Refining => JobStage::Exporting,
        JobStage::Exporting => JobStage::Completed,
        JobStage::Completed => JobStage::Completed,
        JobStage::Failed => JobStage::Failed,
    }
}

/// The stage reached from `stage` after `n` steps.
pub open spec fn stage_after(stage: JobStage, n: nat) -> JobStage
    decreases n,
{
    if n == 0 {
        stage
    } else {
        stage_after(following_stage(stage), (n - 1) as nat)
    }
}

/// One video being turned into a splat. The progress fraction is held as
/// the bit pattern of its `f32` value.
#[derive(Debug, Clone)]
pub struct ReconstructionJob {
    pub input_video: PathBuf,
    pub output_dir: PathBuf,
    pub stage: JobStage,
    pub progress_bits: u32,
}

impl ReconstructionJob {
    /// A job that has not started: it is preparing, at progress `0.0`.
    pub fn new(input_video: PathBuf, output_dir: PathBuf) -> (r: Self)
        ensures
            r.input_video == input_video,
            r.output_dir == output_dir,
            r.stage == JobStage::Preparing,
            r.progress_bits == 0,
    {
        ReconstructionJob { input_video, output_dir, stage: JobStage::Preparing, progress_bits: 0 }
    }

    /// Moves the job to the following stage; a completed or failed job stays as it is.
    pub fn next_stage(&mut self)
        ensures
            final(self).stage == following_stage(old(self).stage),
            final(self).input_video == old(self).input_video,
            final(self).output_dir == old(self).output_dir,
            final(self).progress_bits == old(self).progress_bits,
    {
        self.stage = match self.stage {
            JobStage::Preparing => JobStage::ExtractingFrames,
            JobStage::ExtractingFrames => JobStage::SolvingCamera,
            JobStage::SolvingCamera => JobStage::TrainingSplat,
            JobStage::TrainingSplat => JobStage::Harmonizing,
            JobStage::Harmonizing => JobStage::Refining,
            JobStage::Refining => JobStage::Exporting,
            JobStage::Exporting => JobStage::Completed,
            JobStage::Completed | JobStage::Failed => return ,
        };
    }
}

/// Each step moves a running job exactly one place forward, and never into `Failed`.
pub proof fn lemma_step_advances(stage: JobStage)
    requires
        !is_terminal(stage),
    ensures
        stage_rank(following_stage(stage)) == stage_rank(stage) + 1,
        following_stage(stage) != JobStage::Failed,
{
}

/// Completed and failed jobs stay where they are, however often they are stepped.
pub proof fn lemma_terminal_is_fixed(stage: JobStage, n: nat)
    requires
        is_terminal(stage),
    ensures
        stage_after(stage, n) == stage,
    decreases n,
{
    if n > 0 {
        lemma_terminal_is_fixed(stage, (n - 1) as nat);
    }
}

/// A job that has not failed reaches `Completed` after as many steps as
/// stages remain, passing through every stage in between and never `Failed`.
pub proof fn lemma_progression_completes(stage: JobStage, n: nat)
    requires
        stage != JobStage::Failed,
    ensures
        stage_after(stage, n) != JobStage::Failed,
        n + stage_rank(stage) >= 7 ==> stage_after(stage, n) == JobStage::Completed,
        n + stage_rank(stage) < 7 ==> stage_rank(stage_after(stage, n)) == stage_rank(stage) + n,
    decreases n,
{
    if n > 0 {
        lemma_progression_completes(following_stage(stage), (n - 1) as nat);
    }
}

} // verus!

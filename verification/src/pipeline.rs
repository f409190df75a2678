use vstd::prelude::*;

verus! {

/// Where the GPU-heavy stages run.
#[derive(Debug, Clone, Copy, PartialEq, Eq, Structural)]
pub enum RuntimeProfile {
    Local16Gb,
    FullNuRec,
}

impl RuntimeProfile {
    pub open spec fn label_text(self) -> Seq<char> {
        match self {
            RuntimeProfile::Local16Gb => "Local 16 GB (recommended for RTX 4070 Ti Super)"@,
            RuntimeProfile::FullNuRec => "Full NVIDIA NuRec (24+ GB VRAM host)"@,
        }
    }

    pub fn label(self) -> (r: &'static str)
        ensures
            r@ == self.label_text(),
    {
        match self {
            RuntimeProfile::Local16Gb => "Local 16 GB (recommended for RTX 4070 Ti Super)",
            RuntimeProfile::FullNuRec => "Full NVIDIA NuRec (24+ GB VRAM host)",
        }
    }
}

/// One stage of the planned pipeline, as shown to the user.
#[derive(Debug, Clone)]
pub struct PipelineStep {
    pub name: &'static str,
    pub detail: &'static str,
}

impl PipelineStep {
    /// The step's name and detail as text.
    pub open spec fn text(self) -> (Seq<char>, Seq<char>) {
        (self.name@, self.detail@)
    }
}

pub open spec fn extract_step() -> (Seq<char>, Seq<char>) {
    ("Extract frames"@, "FFmpeg extracts sharp, spaced frames and preserves source metadata."@)
}

pub open spec fn solve_step() -> (Seq<char>, Seq<char>) {
    ("Solve cameras"@, "COLMAP/cuSFM-style camera calibration and pose estimation."@)
}

pub open spec fn reconstruct_step() -> (Seq<char>, Seq<char>) {
    ("Reconstruct 3DGS"@, "Train a Gaussian Splat representation with a VRAM-aware preset."@)
}

pub open spec fn harmonizer_step() -> (Seq<char>, Seq<char>) {
    ("Harmonizer pass"@, "Run NVIDIA Harmonizer as a separate 16 GB-friendly inference stage."@)
}

pub open spec fn offline_refinement_step() -> (Seq<char>, Seq<char>) {
    (
        "Offline refinement"@,
        "Generate corrected pseudo-views and distill them back into the splat when supported by the selected reconstruction backend."@,
    )
}

pub open spec fn nurec_refinement_step() -> (Seq<char>, Seq<char>) {
    (
        "NuRec refinement"@,
        "Run the NVIDIA NuRec reconstruction/refinement container with Harmonizer enabled."@,
    )
}

pub open spec fn export_step() -> (Seq<char>, Seq<char>) {
    (
        "Export"@,
        "Write Gaussian Splat PLY as the primary 3ds Max interchange asset; SPZ export is planned as an additional compact format."@,
    )
}

/// The steps every plan starts with.
pub open spec fn common_steps() -> Seq<(Seq<char>, Seq<char>)> {
    seq![extract_step(), solve_step(), reconstruct_step()]
}

/// The refinement steps that depend on the profile.
pub open spec fn refinement_steps(profile: RuntimeProfile) -> Seq<(Seq<char>, Seq<char>)> {
    match profile {
        RuntimeProfile::Local16Gb => seq![harmonizer_step(), offline_refinement_step()],
        RuntimeProfile::FullNuRec => seq![nurec_refinement_step()],
    }
}

/// The whole plan for a profile, as text.
pub open spec fn plan_text(profile: RuntimeProfile) -> Seq<(Seq<char>, Seq<char>)> {
    common_steps() + refinement_steps(profile) + seq![export_step()]
}

/// The stages the pipeline will run for the chosen profile, in order.
pub fn plan(profile: RuntimeProfile) -> (steps: Vec<PipelineStep>)
    ensures
        steps@.map_values(|s: PipelineStep| s.text()) == plan_text(profile),
{
    let mut steps = vec![
        PipelineStep {
            name: "Extract frames",
            detail: "FFmpeg extracts sharp, spaced frames and preserves source metadata.",
        },
        PipelineStep {
            name: "Solve cameras",
            detail: "COLMAP/cuSFM-style camera calibration and pose estimation.",
        },
        PipelineStep {
            name: "Reconstruct 3DGS",
            detail: "Train a Gaussian Splat representation with a VRAM-aware preset.",
        },
    ];
    match profile {
        RuntimeProfile::Local16Gb => {
            steps.push(
                PipelineStep {
                    name: "Harmonizer pass",
                    detail: "Run NVIDIA Harmonizer as a separate 16 GB-friendly inference stage.",
                },
            );
            steps.push(
                PipelineStep {
                    name: "Offline refinement",
                    detail: "Generate corrected pseudo-views and distill them back into the splat when supported by the selected reconstruction backend.",
                },
            );
        },
        RuntimeProfile::FullNuRec => {
            steps.push(
                PipelineStep {
                    name: "NuRec refinement",
                    detail: "Run the NVIDIA NuRec reconstruction/refinement container with Harmonizer enabled.",
                },
            );
        },
    }
    steps.push(
        PipelineStep {
            name: "Export",
            detail: "Write Gaussian Splat PLY as the primary 3ds Max interchange asset; SPZ export is planned as an additional compact format.",
        },
    );
    assert(steps@.map_values(|s: PipelineStep| s.text()) =~= plan_text(profile));
    steps
}

/// Whatever the profile, a plan extracts frames, solves cameras and
/// reconstructs first, refines next, and exports last; the local profile
/// runs the Harmonizer pass before its offline refinement, and the full
/// profile does all refinement in one NuRec step.
pub proof fn lemma_plan_shape(profile: RuntimeProfile)
    ensures
        plan_text(profile).subrange(0, 3) == common_steps(),
        plan_text(profile).last() == export_step(),
        profile == RuntimeProfile::Local16Gb ==> plan_text(profile).len() == 6
            && plan_text(profile)[3] == harmonizer_step()
            && plan_text(profile)[4] == offline_refinement_step(),
        profile == RuntimeProfile::FullNuRec ==> plan_text(profile).len() == 5
            && plan_text(profile)[3] == nurec_refinement_step(),
{
    assert(plan_text(profile).subrange(0, 3) =~= common_steps());
}

} // verus!

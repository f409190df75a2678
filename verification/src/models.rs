use vstd::prelude::*;

verus! {

/// Model and runtime downloads the user can choose between.
#[derive(Debug, Clone, Copy, PartialEq, Eq, Structural)]
pub enum ModelPack {
    LocalRecommended,
    NonTemporalJit,
    FullHarmonizer,
    FullNuRec,
}

/// What a model pack costs to fetch and store. The download size in GB is
/// held as the bit pattern of its `f32` value.
#[derive(Debug, Clone, Copy)]
pub struct ModelPackInfo {
    pub title: &'static str,
    pub payload_download_gb_bits: u32,
    pub free_disk_gb: u32,
    pub description: &'static str,
}

impl ModelPack {
    /// Every pack, in the order the user interface lists them.
    pub const ALL: [ModelPack; 4] = [
        ModelPack::LocalRecommended,
        ModelPack::NonTemporalJit,
        ModelPack::FullHarmonizer,
        ModelPack::FullNuRec,
    ];

    pub open spec fn title_text(self) -> Seq<char> {
        match self {
            ModelPack::LocalRecommended => "Local / 16 GB — public Harmonizer pipeline"@,
            ModelPack::NonTemporalJit => "Optional 1.45 GB non-temporal JIT checkpoint"@,
            ModelPack::FullHarmonizer => "Full official Harmonizer checkpoint helper"@,
            ModelPack::FullNuRec => "Full NuRec containers (optional / remote GPU)"@,
        }
    }

    /// Bit patterns of 6.24, 1.45, 10.1 and 33.73 as `f32`: the estimated
    /// download in GB. The first is the 5.04 GB Harmonizer checkpoint plus the
    /// 1.2 GB Cosmos model, tokenizer files excluded; the third is the 6.49 GB
    /// Harmonizer repository plus at least 3.6 GB of Cosmos weights.
    pub open spec fn payload_bits(self) -> u32 {
        match self {
            ModelPack::LocalRecommended => 0x40c7_ae14,
            ModelPack::NonTemporalJit => 0x3fb9_999a,
            ModelPack::FullHarmonizer => 0x4121_999a,
            ModelPack::FullNuRec => 0x4206_eb85,
        }
    }

    /// Recommended free disk space in GB.
    pub open spec fn free_disk(self) -> u32 {
        match self {
            ModelPack::FullNuRec => 160,
            _ => 120,
        }
    }

    pub open spec fn description_text(self) -> Seq<char> {
        match self {
            ModelPack::LocalRecommended => "Recommended for RTX 4070 Ti Super. Uses NVIDIA's current public Harmonizer inference path. Starts in non-temporal mode on 16 GB, then enables temporal conditioning only after a local VRAM smoke test passes."@,
            ModelPack::NonTemporalJit => "Small NVIDIA JIT checkpoint intended for fast per-image enhancement/NuRec integration. Kept as an optional acceleration path rather than the default standalone refinement backend."@,
            ModelPack::FullHarmonizer => "Lower-bound estimate when following NVIDIA's full helper: 6.49 GB Harmonizer repository plus at least 3.6 GB of top-level Cosmos weights, before tokenizer files and container layers."@,
            ModelPack::FullNuRec => "Container payload estimate: ~13.31 GB NuRec main image + ~20.42 GB NuRec tools image, before unpacked layers and Harmonizer model cache. Not intended for the local 16 GB GPU."@,
        }
    }

    pub fn info(self) -> (r: ModelPackInfo)
        ensures
            r.title@ == self.title_text(),
            r.payload_download_gb_bits == self.payload_bits(),
            r.free_disk_gb == self.free_disk(),
            r.description@ == self.description_text(),
    {
        match self {
            ModelPack::LocalRecommended => ModelPackInfo {
                title: "Local / 16 GB — public Harmonizer pipeline",
                payload_download_gb_bits: 0x40c7_ae14,
                free_disk_gb: 120,
                description: "Recommended for RTX 4070 Ti Super. Uses NVIDIA's current public Harmonizer inference path. Starts in non-temporal mode on 16 GB, then enables temporal conditioning only after a local VRAM smoke test passes.",
            },
            ModelPack::NonTemporalJit => ModelPackInfo {
                title: "Optional 1.45 GB non-temporal JIT checkpoint",
                payload_download_gb_bits: 0x3fb9_999a,
                free_disk_gb: 120,
                description: "Small NVIDIA JIT checkpoint intended for fast per-image enhancement/NuRec integration. Kept as an optional acceleration path rather than the default standalone refinement backend.",
            },
            ModelPack::FullHarmonizer => ModelPackInfo {
                title: "Full official Harmonizer checkpoint helper",
                payload_download_gb_bits: 0x4121_999a,
                free_disk_gb: 120,
                description: "Lower-bound estimate when following NVIDIA's full helper: 6.49 GB Harmonizer repository plus at least 3.6 GB of top-level Cosmos weights, before tokenizer files and container layers.",
            },
            ModelPack::FullNuRec => ModelPackInfo {
                title: "Full NuRec containers (optional / remote GPU)",
                payload_download_gb_bits: 0x4206_eb85,
                free_disk_gb: 160,
                description: "Container payload estimate: ~13.31 GB NuRec main image + ~20.42 GB NuRec tools image, before unpacked layers and Harmonizer model cache. Not intended for the local 16 GB GPU.",
            },
        }
    }
}

/// `ALL` lists every pack exactly once, and no pack asks for more free
/// disk than the full NuRec containers.
pub proof fn lemma_model_packs(p: ModelPack)
    ensures
        exists|i: int| 0 <= i < 4 && ModelPack::ALL@[i] == p,
        forall|i: int, j: int| 0 <= i < j < 4 ==> ModelPack::ALL@[i] != ModelPack::ALL@[j],
        p.free_disk() <= ModelPack::FullNuRec.free_disk(),
{
    let i: int = match p {
        ModelPack::LocalRecommended => 0,
        ModelPack::NonTemporalJit => 1,
        ModelPack::FullHarmonizer => 2,
        ModelPack::FullNuRec => 3,
    };
    assert(ModelPack::ALL@[i] == p);
}

} // verus!

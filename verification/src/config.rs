use vstd::prelude::*;

verus! {

/// How the camera solver matches feature points between frames.
#[derive(Debug, Clone, Copy, PartialEq, Eq, Structural)]
pub enum MatcherMode {
    Auto,
    Exhaustive,
    Sequential,
}

impl MatcherMode {
    /// Every matcher mode, in the order the user interface lists them.
    pub const ALL: [MatcherMode; 3] = [MatcherMode::Auto, MatcherMode::Exhaustive, MatcherMode::Sequential];

    /// The name shown to the user.
    pub open spec fn label_text(self) -> Seq<char> {
        match self {
            MatcherMode::Auto => "Auto"@,
            MatcherMode::Exhaustive => "Exhaustive"@,
            MatcherMode::Sequential => "Sequential"@,
        }
    }

    /// The value handed to the camera solver on its command line.
    pub open spec fn cli_text(self) -> Seq<char> {
        match self {
            MatcherMode::Auto => "auto"@,
            MatcherMode::Exhaustive => "exhaustive"@,
            MatcherMode::Sequential => "sequential"@,
        }
    }

    pub fn label(self) -> (r: &'static str)
        ensures
            r@ == self.label_text(),
    {
        match self {
            MatcherMode::Auto => "Auto",
            MatcherMode::Exhaustive => "Exhaustive",
            MatcherMode::Sequential => "Sequential",
        }
    }

    pub fn cli_value(self) -> (r: &'static str)
        ensures
            r@ == self.cli_text(),
    {
        match self {
            MatcherMode::Auto => "auto",
            MatcherMode::Exhaustive => "exhaustive",
            MatcherMode::Sequential => "sequential",
        }
    }
}

/// Training presets, named by the number of Gaussians they allow.
#[derive(Debug, Clone, Copy, PartialEq, Eq, Structural)]
pub enum QualityPreset {
    Safe,
    High,
}

impl QualityPreset {
    /// Every preset, in the order the user interface lists them.
    pub const ALL: [QualityPreset; 2] = [QualityPreset::Safe, QualityPreset::High];

    pub open spec fn label_text(self) -> Seq<char> {
        match self {
            QualityPreset::Safe => "Safe / 1M Gaussians"@,
            QualityPreset::High => "High / 2M Gaussians"@,
        }
    }

    /// The largest number of Gaussians that training may produce.
    pub open spec fn cap(self) -> u32 {
        match self {
            QualityPreset::Safe => 1_000_000,
            QualityPreset::High => 2_000_000,
        }
    }

    pub fn label(self) -> (r: &'static str)
        ensures
            r@ == self.label_text(),
    {
        match self {
            QualityPreset::Safe => "Safe / 1M Gaussians",
            QualityPreset::High => "High / 2M Gaussians",
        }
    }

    pub fn cap_max(self) -> (r: u32)
        ensures
            r == self.cap(),
    {
        match self {
            QualityPreset::Safe => 1_000_000,
            QualityPreset::High => 2_000_000,
        }
    }
}

/// Frame extraction settings. The real-valued thresholds are held as the
/// IEEE-754 bit patterns of their `f32` / `f64` values, so that they pass
/// through the library unchanged.
#[derive(Debug, Clone)]
pub struct CaptureSettings {
    /// Frames extracted per second of video (bits of an `f32`).
    pub frame_fps_bits: u32,
    /// Laplacian-variance threshold under which a frame counts as blurred (bits of an `f64`).
    pub blur_threshold_bits: u64,
    /// Similarity above which a frame counts as a duplicate (bits of an `f32`).
    pub duplicate_threshold_bits: u32,
    pub max_frames: u32,
    pub matcher: MatcherMode,
}

/// Bit pattern of `3.0_f32`.
pub const DEFAULT_FRAME_FPS_BITS: u32 = 0x4040_0000;
/// Bit pattern of `70.0_f64`.
pub const DEFAULT_BLUR_THRESHOLD_BITS: u64 = 0x4051_8000_0000_0000;
/// Bit pattern of `0.985_f32`.
pub const DEFAULT_DUPLICATE_THRESHOLD_BITS: u32 = 0x3f7c_28f6;
/// Bit pattern of `0.22_f32`.
pub const DEFAULT_MAX_MEAN_CHANGE_BITS: u32 = 0x3e61_47ae;
/// Bit pattern of `0.35_f32`.
pub const DEFAULT_MIN_EDGE_CORRELATION_BITS: u32 = 0x3eb3_3333;
/// Bit pattern of `1.0_f64`.
pub const DEFAULT_SCALE_MULTIPLIER_BITS: u64 = 0x3ff0_0000_0000_0000;

impl Default for CaptureSettings {
    fn default() -> (r: Self)
        ensures
            r.frame_fps_bits == DEFAULT_FRAME_FPS_BITS,
            r.blur_threshold_bits == DEFAULT_BLUR_THRESHOLD_BITS,
            r.duplicate_threshold_bits == DEFAULT_DUPLICATE_THRESHOLD_BITS,
            r.max_frames == 1200,
            r.matcher == MatcherMode::Auto,
    {
        CaptureSettings {
            frame_fps_bits: DEFAULT_FRAME_FPS_BITS,
            blur_threshold_bits: DEFAULT_BLUR_THRESHOLD_BITS,
            duplicate_threshold_bits: DEFAULT_DUPLICATE_THRESHOLD_BITS,
            max_frames: 1200,
            matcher: MatcherMode::Auto,
        }
    }
}

#[derive(Debug, Clone)]
pub struct TrainingSettings {
    pub quality: QualityPreset,
    pub max_steps: u32,
}

impl Default for TrainingSettings {
    fn default() -> (r: Self)
        ensures
            r.quality == QualityPreset::Safe,
            r.max_steps == 30_000,
    {
        TrainingSettings { quality: QualityPreset::Safe, max_steps: 30_000 }
    }
}

/// Harmonizer refinement settings; the two real-valued gates are held as
/// the bit patterns of their `f32` values.
#[derive(Debug, Clone)]
pub struct RefinementSettings {
    pub enabled: bool,
    pub rounds: u8,
    pub temporal: bool,
    pub resolution: u32,
    pub distill_steps: u32,
    pub max_mean_change_bits: u32,
    pub min_edge_correlation_bits: u32,
}

impl Default for RefinementSettings {
    fn default() -> (r: Self)
        ensures
            r.enabled,
            r.rounds == 1,
            !r.temporal,
            r.resolution == 1024,
            r.distill_steps == 750,
            r.max_mean_change_bits == DEFAULT_MAX_MEAN_CHANGE_BITS,
            r.min_edge_correlation_bits == DEFAULT_MIN_EDGE_CORRELATION_BITS,
    {
        RefinementSettings {
            enabled: true,
            rounds: 1,
            temporal: false,
            resolution: 1024,
            distill_steps: 750,
            max_mean_change_bits: DEFAULT_MAX_MEAN_CHANGE_BITS,
            min_edge_correlation_bits: DEFAULT_MIN_EDGE_CORRELATION_BITS,
        }
    }
}

/// Export settings; the scale multiplier is held as the bit pattern of its `f64` value.
#[derive(Debug, Clone)]
pub struct ExportSettings {
    pub export_spz: bool,
    pub unit: String,
    pub up_axis: String,
    pub scale_multiplier_bits: u64,
}

impl Default for ExportSettings {
    fn default() -> (r: Self)
        ensures
            r.export_spz,
            r.unit@ == "millimeter"@,
            r.up_axis@ == "Z"@,
            r.scale_multiplier_bits == DEFAULT_SCALE_MULTIPLIER_BITS,
    {
        ExportSettings {
            export_spz: true,
            unit: "millimeter".to_owned(),
            up_axis: "Z".to_owned(),
            scale_multiplier_bits: DEFAULT_SCALE_MULTIPLIER_BITS,
        }
    }
}

/// Different matcher modes have different labels and different
/// command-line values, and `ALL` lists every mode exactly once.
pub proof fn lemma_matcher_modes_distinct(a: MatcherMode, b: MatcherMode)
    ensures
        a != b ==> a.label_text() != b.label_text() && a.cli_text() != b.cli_text(),
        exists|i: int| 0 <= i < 3 && MatcherMode::ALL@[i] == a,
        forall|i: int, j: int| 0 <= i < j < 3 ==> MatcherMode::ALL@[i] != MatcherMode::ALL@[j],
{
    reveal_strlit("Auto");
    reveal_strlit("Exhaustive");
    reveal_strlit("Sequential");
    reveal_strlit("auto");
    reveal_strlit("exhaustive");
    reveal_strlit("sequential");
    if a != b {
        assert(a.label_text()[0] != b.label_text()[0]);
        assert(a.cli_text()[0] != b.cli_text()[0]);
    }
    let i: int = match a {
        MatcherMode::Auto => 0,
        MatcherMode::Exhaustive => 1,
        MatcherMode::Sequential => 2,
    };
    assert(MatcherMode::ALL@[i] == a);
}

/// The presets have different labels, `ALL` lists each once, and the high
/// preset allows twice as many Gaussians as the safe one.
pub proof fn lemma_quality_presets(a: QualityPreset)
    ensures
        a != QualityPreset::Safe ==> a.label_text() != QualityPreset::Safe.label_text(),
        exists|i: int| 0 <= i < 2 && QualityPreset::ALL@[i] == a,
        QualityPreset::ALL@[0] != QualityPreset::ALL@[1],
        QualityPreset::High.cap() == 2 * QualityPreset::Safe.cap(),
{
    reveal_strlit("Safe / 1M Gaussians");
    reveal_strlit("High / 2M Gaussians");
    if a != QualityPreset::Safe {
        assert(a.label_text()[0] != QualityPreset::Safe.label_text()[0]);
    }
    let i: int = match a {
        QualityPreset::Safe => 0,
        QualityPreset::High => 1,
    };
    assert(QualityPreset::ALL@[i] == a);
}

/// Everything a project records about how it is to be processed.
#[derive(Debug, Clone)]
pub struct ProjectSettings {
    pub capture: CaptureSettings,
    pub training: TrainingSettings,
    pub refinement: RefinementSettings,
    pub export: ExportSettings,
}

/// The default of each group of settings, as its `default` states it.
pub open spec fn is_default_settings(s: ProjectSettings) -> bool {
    &&& s.capture.frame_fps_bits == DEFAULT_FRAME_FPS_BITS
    &&& s.capture.blur_threshold_bits == DEFAULT_BLUR_THRESHOLD_BITS
    &&& s.capture.duplicate_threshold_bits == DEFAULT_DUPLICATE_THRESHOLD_BITS
    &&& s.capture.max_frames == 1200
    &&& s.capture.matcher == MatcherMode::Auto
    &&& s.training.quality == QualityPreset::Safe
    &&& s.training.max_steps == 30_000
    &&& s.refinement.enabled
    &&& s.refinement.rounds == 1
    &&& !s.refinement.temporal
    &&& s.refinement.resolution == 1024
    &&& s.refinement.distill_steps == 750
    &&& s.refinement.max_mean_change_bits == DEFAULT_MAX_MEAN_CHANGE_BITS
    &&& s.refinement.min_edge_correlation_bits == DEFAULT_MIN_EDGE_CORRELATION_BITS
    &&& s.export.export_spz
    &&& s.export.unit@ == "millimeter"@
    &&& s.export.up_axis@ == "Z"@
    &&& s.export.scale_multiplier_bits == DEFAULT_SCALE_MULTIPLIER_BITS
}

impl Default for ProjectSettings {
    fn default() -> (r: Self)
        ensures
            is_default_settings(r),
    {
        ProjectSettings {
            capture: CaptureSettings::default(),
            training: TrainingSettings::default(),
            refinement: RefinementSettings::default(),
            export: ExportSettings::default(),
        }
    }
}

} // verus!

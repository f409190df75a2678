//! The project manifest that records where a scan came from, how it is to be
//! processed and what it produced.

use std::path::{Path, PathBuf};
use std::time::{SystemTime, UNIX_EPOCH};
use vstd::prelude::*;
use vstd::string::StringExecFns;
use crate::config::ProjectSettings;
use crate::paths::{join, path_from, path_from_text, path_joined};
use crate::text::{decimal, u64_to_decimal};

verus! {

broadcast use vstd::string::group_string_axioms;

#[verifier::external_type_specification]
#[verifier::external_body]
pub struct ExSystemTime(SystemTime);

/// Calls `SystemTime::now`. Nothing is stated of the time it returns.
#[verifier::external_body]
fn system_now() -> SystemTime {
    SystemTime::now()
}

/// Whole seconds from the Unix epoch to a point in time, as
/// `duration_since(UNIX_EPOCH)` gives them; zero for times before the epoch.
pub uninterp spec fn unix_seconds(time: SystemTime) -> u64;

/// Calls `SystemTime::duration_since` with the Unix epoch, taking zero for a
/// time before it; the result is named by `unix_seconds`.
#[verifier::external_body]
fn seconds_since_epoch(time: &SystemTime) -> (r: u64)
    ensures
        r == unix_seconds(*time),
{
    time.duration_since(UNIX_EPOCH).unwrap_or_default().as_secs()
}

/// The file stem that `Path::file_stem` finds in a path, when there is one.
pub uninterp spec fn path_file_stem(path: Seq<char>) -> Option<Seq<char>>;

/// Calls `Path::file_stem` on a path given as text; the result is named by
/// `path_file_stem`.
#[verifier::external_body]
fn file_stem(path: &str) -> (r: Option<String>)
    ensures
        r matches Some(stem) ==> path_file_stem(path@) == Some(stem@),
        r is None ==> path_file_stem(path@) is None,
{
    match Path::new(path).file_stem() {
        Some(stem) => stem.to_str().map(str::to_owned),
        None => None,
    }
}

/// The files a processed project has produced so far.
#[derive(Debug, Clone)]
pub struct AssetOutputs {
    pub raw_ply: Option<String>,
    pub refined_ply: Option<String>,
    pub refined_spz: Option<String>,
    pub refinement_report: Option<String>,
}

impl Default for AssetOutputs {
    fn default() -> (r: Self)
        ensures
            r.raw_ply is None,
            r.refined_ply is None,
            r.refined_spz is None,
            r.refinement_report is None,
    {
        AssetOutputs { raw_ply: None, refined_ply: None, refined_spz: None, refinement_report: None }
    }
}

/// What `project.json` records of a project.
#[derive(Debug, Clone)]
pub struct ProjectManifest {
    pub schema_version: u32,
    pub project_id: String,
    pub created_unix: u64,
    pub source_video: String,
    pub output_dir: String,
    pub settings: ProjectSettings,
    pub outputs: AssetOutputs,
    pub status: String,
}

/// The name a project is known by: the source video's file stem (or `scan`
/// when it has none), a hyphen, and the creation time in Unix seconds.
pub open spec fn project_id_text(stem: Option<Seq<char>>, created_unix: u64) -> Seq<char> {
    let base = match stem {
        Some(s) => s,
        None => "scan"@,
    };
    base + "-"@ + decimal(created_unix as nat)
}

/// A freshly created manifest, apart from its name and creation time.
pub open spec fn is_fresh_manifest(
    m: ProjectManifest,
    input_video: Seq<char>,
    output_dir: Seq<char>,
    settings: ProjectSettings,
) -> bool {
    &&& m.schema_version == 1
    &&& m.source_video@ == input_video
    &&& m.output_dir@ == output_dir
    &&& m.settings == settings
    &&& m.outputs.raw_ply is None
    &&& m.outputs.refined_ply is None
    &&& m.outputs.refined_spz is None
    &&& m.outputs.refinement_report is None
    &&& m.status@ == "created"@
}

impl ProjectManifest {
    /// The manifest of a project created now from `input_video`, writing
    /// into `output_dir`.
    pub fn new(input_video: &str, output_dir: &str, settings: ProjectSettings) -> (r: Self)
        ensures
            is_fresh_manifest(r, input_video@, output_dir@, settings),
            r.project_id@ == project_id_text(path_file_stem(input_video@), r.created_unix),
    {
        let now = system_now();
        let created_unix = seconds_since_epoch(&now);
        let stem = file_stem(input_video);
        match stem {
            Some(s) => Self::from_parts(input_video, output_dir, settings, Some(s.as_str()), created_unix),
            None => Self::from_parts(input_video, output_dir, settings, None, created_unix),
        }
    }

    /// The manifest of a project created at `created_unix` from a video
    /// whose file stem is `stem`.
    pub fn from_parts(
        input_video: &str,
        output_dir: &str,
        settings: ProjectSettings,
        stem: Option<&str>,
        created_unix: u64,
    ) -> (r: Self)
        ensures
            is_fresh_manifest(r, input_video@, output_dir@, settings),
            r.created_unix == created_unix,
            r.project_id@ == project_id_text(
                match stem {
                    Some(s) => Some(s@),
                    None => None,
                },
                created_unix,
            ),
    {
        proof {
            reveal_strlit("scan");
            reveal_strlit("-");
            reveal_strlit("created");
        }
        let mut project_id = match stem {
            Some(s) => String::from_str(s),
            None => String::from_str("scan"),
        };
        project_id.append("-");
        let digits = u64_to_decimal(created_unix);
        project_id.append(digits.as_str());
        ProjectManifest {
            schema_version: 1,
            project_id,
            created_unix,
            source_video: String::from_str(input_video),
            output_dir: String::from_str(output_dir),
            settings,
            outputs: AssetOutputs::default(),
            status: String::from_str("created"),
        }
    }

    /// Where the manifest is stored: `project.json` in the output directory.
    pub fn manifest_path(&self) -> (r: PathBuf)
        ensures
            r == path_joined(path_from_text(self.output_dir@), "project.json"@),
    {
        let dir = path_from(self.output_dir.as_str());
        join(&dir, "project.json")
    }
}

/// Two projects made from the same video at different times have different names.
pub proof fn lemma_project_ids_distinct(stem: Option<Seq<char>>, t1: u64, t2: u64)
    requires
        t1 != t2,
    ensures
        project_id_text(stem, t1) != project_id_text(stem, t2),
{
    let base = match stem {
        Some(s) => s,
        None => "scan"@,
    };
    let head = base + "-"@;
    if project_id_text(stem, t1) == project_id_text(stem, t2) {
        let a = project_id_text(stem, t1);
        let b = project_id_text(stem, t2);
        assert(a.subrange(head.len() as int, a.len() as int) =~= decimal(t1 as nat));
        assert(b.subrange(head.len() as int, b.len() as int) =~= decimal(t2 as nat));
        crate::text::lemma_decimal_injective(t1 as nat, t2 as nat);
    }
}

/// A project's name starts with the video's stem and a hyphen.
pub proof fn lemma_project_id_starts_with_stem(stem: Seq<char>, created_unix: u64)
    ensures
        (stem + "-"@).is_prefix_of(project_id_text(Some(stem), created_unix)),
{
    assert((stem + "-"@) =~= project_id_text(Some(stem), created_unix).subrange(0, (stem + "-"@).len() as int));
}

} // verus!

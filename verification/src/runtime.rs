//! The local workspace layout and what is known of the runtime environment.

use std::path::PathBuf;
use vstd::prelude::*;
use crate::paths::{is_plain_component, join, path_file_name, path_joined, path_starts_with};

verus! {

/// What the runtime check found.
#[derive(Debug, Clone)]
pub struct RuntimeStatus {
    pub wsl_available: bool,
    pub nvidia_available: bool,
    pub cuda_visible: bool,
    pub free_disk_gb: Option<u64>,
}

/// The directory tree in which models, projects, runtimes and outputs live.
#[derive(Debug, Clone)]
pub struct RuntimeManager {
    pub workspace: PathBuf,
}

/// The subdirectories that every workspace holds, in the order they are created.
pub open spec fn layout_names() -> Seq<Seq<char>> {
    seq!["models"@, "projects"@, "runtime"@, "outputs"@]
}

impl RuntimeManager {
    pub fn new(workspace: PathBuf) -> (r: Self)
        ensures
            r.workspace == workspace,
    {
        RuntimeManager { workspace }
    }

    /// The status reported for the given probe results: whether `wsl` and
    /// `nvidia-smi` could be run. CUDA visibility and free disk space are
    /// not probed yet, so they are reported as absent and unknown.
    pub fn inspect(&self, wsl_available: bool, nvidia_available: bool) -> (r: RuntimeStatus)
        ensures
            r.wsl_available == wsl_available,
            r.nvidia_available == nvidia_available,
            !r.cuda_visible,
            r.free_disk_gb is None,
    {
        RuntimeStatus { wsl_available, nvidia_available, cuda_visible: false, free_disk_gb: None }
    }

    /// The directories the workspace needs: four different children of the
    /// workspace, named `models`, `projects`, `runtime` and `outputs` in this order.
    pub fn required_directories(&self) -> (r: Vec<PathBuf>)
        ensures
            r@.len() == layout_names().len(),
            forall|i: int|
                0 <= i < r@.len() ==> #[trigger] r@[i] == path_joined(self.workspace, layout_names()[i]),
            forall|i: int|
                0 <= i < r@.len() ==> path_file_name(#[trigger] r@[i]) == Some(layout_names()[i])
                    && path_starts_with(r@[i], self.workspace),
            forall|i: int, j: int| 0 <= i < j < r@.len() ==> r@[i] != r@[j],
    {
        proof {
            lemma_layout_names_plain();
            lemma_layout_names_distinct();
        }
        let mut dirs: Vec<PathBuf> = Vec::new();
        dirs.push(join(&self.workspace, "models"));
        dirs.push(join(&self.workspace, "projects"));
        dirs.push(join(&self.workspace, "runtime"));
        dirs.push(join(&self.workspace, "outputs"));
        proof {
            assert forall|i: int, j: int| 0 <= i < j < dirs@.len() implies dirs@[i] != dirs@[j] by {
                assert(path_file_name(dirs@[i]) == Some(layout_names()[i]));
                assert(path_file_name(dirs@[j]) == Some(layout_names()[j]));
            }
        }
        dirs
    }
}

proof fn lemma_layout_names_plain()
    ensures
        forall|i: int| 0 <= i < layout_names().len() ==> is_plain_component(#[trigger] layout_names()[i]),
{
    reveal_strlit("models");
    reveal_strlit("projects");
    reveal_strlit("runtime");
    reveal_strlit("outputs");
    assert(is_plain_component("models"@));
    assert(is_plain_component("projects"@));
    assert(is_plain_component("runtime"@));
    assert(is_plain_component("outputs"@));
}

/// The workspace's subdirectories have four different names.
pub proof fn lemma_layout_names_distinct()
    ensures
        forall|i: int, j: int|
            0 <= i < j < layout_names().len() ==> layout_names()[i] != layout_names()[j],
{
    reveal_strlit("models");
    reveal_strlit("projects");
    reveal_strlit("runtime");
    reveal_strlit("outputs");
    assert(layout_names()[0].len() != layout_names()[1].len());
    assert(layout_names()[0][0] != layout_names()[2][0]);
    assert(layout_names()[0].len() != layout_names()[3].len());
    assert(layout_names()[1][0] != layout_names()[2][0]);
    assert(layout_names()[1][0] != layout_names()[3][0]);
    assert(layout_names()[2][0] != layout_names()[3][0]);
}

} // verus!

//! Resolution of the installation root: the decision over what the
//! unverified shell observed on disk. The shell gathers plain observations
//! (which directories exist, which hold a `scripts` entry) and the verified
//! logic decides which directory, if any, is the root.

use vstd::prelude::*;
use crate::text::has_substring;

verus! {

/// What was observed about one entry of the installed `app` directory.
pub struct EntryObservation {
    /// Absolute path of the entry.
    pub path: String,
    /// The entry is a directory.
    pub is_dir: bool,
    /// The entry holds a `scripts` sub-entry.
    pub has_scripts: bool,
}

/// What was observed about a development-build source tree candidate.
pub struct DevCandidate {
    /// Absolute path of the candidate root.
    pub path: String,
    /// The candidate holds `scripts/run.sh` or `scripts/run.bat`.
    pub has_run_script: bool,
}

/// Everything the resolver's decision reads, observed by the shell in one
/// pass.
pub struct InstallObservation {
    /// A co-located source tree, present only in development builds.
    pub dev_candidate: Option<DevCandidate>,
    /// Absolute path of the installed `app` directory.
    pub app_dir: String,
    /// The `app` directory exists.
    pub app_dir_exists: bool,
    /// The entries of the `app` directory, in directory order.
    pub entries: Vec<EntryObservation>,
    /// The `app` directory itself holds a `scripts` entry.
    pub app_has_scripts: bool,
}

/// Why no installation root was resolved. Absence is a reportable state of
/// its own, distinguishing a tree never downloaded from a corrupted one.
#[derive(Debug)]
pub enum ResolveError {
    /// The `app` directory does not exist.
    NotDownloaded,
    /// The `app` directory exists but has no recognizable structure.
    InvalidStructure,
}

impl ResolveError {
    /// The human-readable diagnostic for this state.
    pub fn message(&self) -> (r: String)
        ensures
            *self is NotDownloaded ==> r@ == "App not downloaded. Click Start or Update."@,
            *self is InvalidStructure ==> r@ == "Invalid app structure. Click Update."@,
    {
        match self {
            ResolveError::NotDownloaded => String::from_str(
                "App not downloaded. Click Start or Update.",
            ),
            ResolveError::InvalidStructure => String::from_str("Invalid app structure. Click Update."),
        }
    }
}

/// The single entry unwraps one level of nesting: the archive unpacked into
/// one top-level directory that itself has the expected structure.
pub open spec fn unwraps_single_entry(obs: InstallObservation) -> bool {
    obs.entries@.len() == 1 && obs.entries@[0].is_dir && obs.entries@[0].has_scripts
}

/// A development source tree takes precedence.
pub open spec fn dev_resolves(obs: InstallObservation) -> bool {
    obs.dev_candidate is Some && obs.dev_candidate->0.has_run_script
}

/// Decides the installation root from the observations: a development tree
/// with a run script wins; otherwise the `app` directory must exist; a
/// single nested directory with the expected structure is unwrapped one
/// level; otherwise `app` itself must have the expected structure; any
/// other shape is an invalid installation.
pub fn resolve_install_root(obs: &InstallObservation) -> (r: Result<String, ResolveError>)
    ensures
        dev_resolves(*obs) ==> r is Ok && r->Ok_0@ == obs.dev_candidate->0.path@,
        !dev_resolves(*obs) && !obs.app_dir_exists ==> r is Err && r->Err_0 is NotDownloaded,
        !dev_resolves(*obs) && obs.app_dir_exists && unwraps_single_entry(*obs) ==> r is Ok
            && r->Ok_0@ == obs.entries@[0].path@,
        !dev_resolves(*obs) && obs.app_dir_exists && !unwraps_single_entry(*obs)
            && obs.app_has_scripts ==> r is Ok && r->Ok_0@ == obs.app_dir@,
        !dev_resolves(*obs) && obs.app_dir_exists && !unwraps_single_entry(*obs)
            && !obs.app_has_scripts ==> r is Err && r->Err_0 is InvalidStructure,
{
    match &obs.dev_candidate {
        Some(dev) => {
            if dev.has_run_script {
                return Ok(dev.path.clone());
            }
        },
        None => {},
    }
    if !obs.app_dir_exists {
        return Err(ResolveError::NotDownloaded);
    }
    if obs.entries.len() == 1 {
        let e = &obs.entries[0];
        if e.is_dir && e.has_scripts {
            return Ok(e.path.clone());
        }
    }
    if obs.app_has_scripts {
        Ok(obs.app_dir.clone())
    } else {
        Err(ResolveError::InvalidStructure)
    }
}

/// The development root derived from the directory of the running binary,
/// given as path components: a binary under a build output tree (some
/// component contains "target") lies three levels below the project root; a
/// packaged binary one level. `None` when the path is too short.
pub fn dev_root_components(exe_dir: &Vec<String>) -> (r: Option<Vec<String>>)
    ensures
        ({
            let depth: int = if exists|j: int|
                0 <= j < exe_dir@.len() && has_substring(exe_dir@[j]@, "target"@) {
                3int
            } else {
                1int
            };
            &&& (r is Some <==> exe_dir@.len() >= depth)
            &&& r is Some ==> r->0@.len() == exe_dir@.len() - depth
            &&& r is Some ==> forall|k: int|
                0 <= k < r->0@.len() ==> #[trigger] r->0@[k]@ == exe_dir@[k]@
        }),
{
    let mut in_build_tree = false;
    let mut j: usize = 0;
    while j < exe_dir.len()
        invariant
            0 <= j <= exe_dir@.len(),
            in_build_tree == exists|k: int|
                0 <= k < j && has_substring(#[trigger] exe_dir@[k]@, "target"@),
        decreases exe_dir@.len() - j,
    {
        if contains_str_component(&exe_dir[j]) {
            in_build_tree = true;
        }
        j = j + 1;
    }
    let depth: usize = if in_build_tree {
        3
    } else {
        1
    };
    if exe_dir.len() < depth {
        return None;
    }
    let keep = exe_dir.len() - depth;
    let mut out: Vec<String> = Vec::new();
    let mut k: usize = 0;
    while k < keep
        invariant
            0 <= k <= keep,
            keep <= exe_dir@.len(),
            out@.len() == k,
            forall|m: int| 0 <= m < k ==> #[trigger] out@[m]@ == exe_dir@[m]@,
        decreases keep - k,
    {
        out.push(exe_dir[k].clone());
        k = k + 1;
    }
    Some(out)
}

fn contains_str_component(s: &String) -> (r: bool)
    ensures
        r == has_substring(s@, "target"@),
{
    crate::text::contains_str(s.as_str(), "target")
}

} // verus!

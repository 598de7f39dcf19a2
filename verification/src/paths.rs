//! Path construction for the launcher's on-disk layout, and the resolution
//! of the platform application-data directory through the `dirs` crate.
//!
//! Paths are modelled as strings joined with a forward slash; the unverified
//! shell hands them to the operating system as they are.

use vstd::prelude::*;

verus! {

/// Joins one relative component onto `base` with a forward slash.
pub fn path_join(base: &str, name: &str) -> (r: String)
    ensures
        r@ == base@ + seq!['/'] + name@,
{
    let mut out = String::from_str(base);
    out.push('/');
    out.append(name);
    proof {
        assert(out@ =~= base@ + seq!['/'] + name@);
    }
    out
}

/// Relies on dirs::data_local_dir: the platform-appropriate local
/// application-data directory, if the platform reports one. The result
/// depends on the environment, so nothing is promised of its value.
#[verifier::external_body]
fn data_local_dir_string() -> Option<String> {
    dirs::data_local_dir().map(|p| p.to_string_lossy().into_owned())
}

/// Relies on dirs::home_dir: the user's home directory, if the platform
/// reports one. The result depends on the environment, so nothing is
/// promised of its value.
#[verifier::external_body]
fn home_dir_string() -> Option<String> {
    dirs::home_dir().map(|p| p.to_string_lossy().into_owned())
}

/// The fixed name of the launcher's folder under the application-data
/// directory.
pub open spec fn data_folder_name() -> Seq<char> {
    "PlanarAllyPlus"@
}

/// The data-directory decision over the two platform lookups: the local
/// data directory is preferred, the home directory is the fallback, and
/// either is joined with the launcher's folder name; an error exactly when
/// the platform reports neither.
pub fn base_from_dirs(local: Option<String>, home: Option<String>) -> (r: Result<String, String>)
    ensures
        local matches Some(d) ==> r is Ok && r->Ok_0@ == d@ + seq!['/'] + data_folder_name(),
        local is None ==> (home matches Some(d) ==> r is Ok && r->Ok_0@ == d@ + seq!['/']
            + data_folder_name()),
        local is None && home is None ==> r is Err && r->Err_0@
            == "Cannot determine data folder"@,
        r is Ok ==> has_base_shape(r->Ok_0@),
{
    let base = match local {
        Some(b) => b,
        None => {
            match home {
                Some(b) => b,
                None => {
                    return Err(String::from_str("Cannot determine data folder"));
                },
            }
        },
    };
    let joined = path_join(base.as_str(), "PlanarAllyPlus");
    proof {
        assert(joined@.subrange(
            joined@.len() - data_folder_name().len(),
            joined@.len() as int,
        ) =~= data_folder_name());
    }
    Ok(joined)
}

/// The application-data directory of this launcher: the platform's local
/// data directory (or, failing that, the home directory) with the
/// launcher's folder name appended. An error when the platform reports
/// neither. The preference and the join are fixed by `base_from_dirs`;
/// here only the two environment lookups are added.
pub fn app_data_base() -> (r: Result<String, String>)
    ensures
        r is Ok ==> has_base_shape(r->Ok_0@),
        r is Err ==> r->Err_0@ == "Cannot determine data folder"@,
{
    base_from_dirs(data_local_dir_string(), home_dir_string())
}

/// The path ends in the launcher's folder name, preceded by a separator.
pub open spec fn has_base_shape(p: Seq<char>) -> bool {
    &&& p.len() > data_folder_name().len()
    &&& p.subrange(p.len() - data_folder_name().len(), p.len() as int) == data_folder_name()
    &&& p[p.len() - data_folder_name().len() - 1] == '/'
}

/// The installed application directory under the data directory.
pub fn app_dir_of(base: &str) -> (r: String)
    ensures
        r@ == base@ + seq!['/'] + "app"@,
{
    path_join(base, "app")
}

/// The temporary archive file written during an update.
pub fn archive_path_of(base: &str) -> (r: String)
    ensures
        r@ == base@ + seq!['/'] + "planarally.zip"@,
{
    path_join(base, "planarally.zip")
}

/// The configuration file that may override the archive source.
pub fn config_path_of(base: &str) -> (r: String)
    ensures
        r@ == base@ + seq!['/'] + "config.json"@,
{
    path_join(base, "config.json")
}

/// The backup-session directory used while an update replaces the
/// installation.
pub fn backup_dir_of(base: &str) -> (r: String)
    ensures
        r@ == base@ + seq!['/'] + "pa_update_backup"@,
{
    path_join(base, "pa_update_backup")
}

/// The scripts directory of an installation root.
pub fn scripts_dir_of(root: &str) -> (r: String)
    ensures
        r@ == root@ + seq!['/'] + "scripts"@,
{
    path_join(root, "scripts")
}

/// The critical user-data file checked after a restore.
pub fn critical_data_file_of(root: &str) -> (r: String)
    ensures
        r@ == root@ + seq!['/'] + "server/data/planar.sqlite"@,
{
    path_join(root, "server/data/planar.sqlite")
}

} // verus!

//! The update pipeline as an explicit state machine: a linear sequence of
//! fallible steps, each a hard dependency on the previous one, with the
//! best-effort steps marked. The unverified shell performs each requested
//! action (network fetch, archive extraction, directory copies) and feeds
//! the outcome back; every decision stands here.

use vstd::prelude::*;

verus! {

/// Where the pipeline stands. States carry what later steps need: the
/// archive source, whether a backup session was taken, and the resolved
/// root.
pub enum UpdateState {
    /// Nothing has happened yet.
    Start,
    /// A backup of the prior installation's user data is being taken.
    BackingUp { url: String },
    /// The archive is being fetched.
    Downloading { url: String, backup_taken: bool },
    /// The fetched bytes are being persisted to the temp archive file.
    Writing { backup_taken: bool },
    /// The old `app` directory is being deleted and recreated empty.
    Clearing { backup_taken: bool },
    /// The archive is being extracted into the empty `app` directory.
    Extracting { backup_taken: bool },
    /// The temp archive file is being deleted (best-effort).
    CleaningUp { backup_taken: bool },
    /// The installation root is being re-resolved from the new tree.
    Reresolving { backup_taken: bool },
    /// Entrypoint scripts are being marked executable (best-effort).
    FixingPermissions { root: String, backup_taken: bool },
    /// The backup session is being restored into the new root.
    Restoring { root: String },
    /// The critical data file is being checked after the restore.
    CheckingData { root: String },
    /// The pipeline succeeded.
    Done { root: String },
    /// The pipeline aborted.
    Failed { message: String },
}

/// What the shell observed, handed to the machine.
pub enum UpdateEvent {
    /// The caller's request with everything observed up front: the force
    /// flag, what the resolver currently returns, whether the `app`
    /// directory exists, and the configured archive source.
    Begin { force: bool, resolved: Option<String>, app_dir_exists: bool, url: String },
    /// The requested step succeeded.
    StepOk,
    /// The requested step failed.
    StepFailed { message: String },
    /// The fetch finished; `ok` means transport succeeded with a success
    /// status.
    DownloadFinished { ok: bool, message: String },
    /// Re-resolution finished.
    RootResolved { root: Option<String>, message: String },
    /// The critical data file was looked for.
    DataChecked { present: bool },
}

/// What the shell must do next.
pub enum UpdateAction {
    /// Back up the user data of the current installation.
    DoBackup,
    /// Fetch the archive from `url`.
    DoDownload { url: String },
    /// Persist the fetched bytes to the temp archive file.
    DoWriteArchive,
    /// Delete the `app` directory and recreate it empty.
    DoClearAppDir,
    /// Extract the whole archive into the `app` directory.
    DoExtract,
    /// Delete the temp archive file; failure is not fatal.
    DoCleanupTemp,
    /// Re-resolve the installation root.
    DoResolveRoot,
    /// Mark the entrypoint scripts executable; failure is not fatal.
    DoFixPermissions { root: String },
    /// Restore the backup session into `root`.
    DoRestore { root: String },
    /// Check that the critical data file exists under `root`.
    DoCheckData { root: String },
    /// The pipeline is over: report the root; warn, without failing, when
    /// the critical data file was missing after a restore.
    Finish { root: String, warn_missing_data: bool },
    /// The pipeline is over: report the failure.
    Abort { message: String },
}

/// The pipeline failed with `message`: the state records it and the shell
/// is told to stop and report it, nothing else.
pub open spec fn aborts(r: (UpdateState, UpdateAction), message: Seq<char>) -> bool {
    &&& r.0 matches UpdateState::Failed { message: m } && m@ == message
    &&& r.1 matches UpdateAction::Abort { message: m } && m@ == message
}

/// The pipeline requests the fetch of `url` with no backup session taken.
pub open spec fn starts_download(r: (UpdateState, UpdateAction), url: Seq<char>) -> bool {
    &&& r.0 matches UpdateState::Downloading { url: u, backup_taken: false } && u@ == url
    &&& r.1 matches UpdateAction::DoDownload { url: d } && d@ == url
}

/// One transition of the update pipeline. The first clauses pin the
/// idempotent fast path: with no force flag and an already-resolved root,
/// the pipeline finishes at once, and a fetch is only ever requested on
/// the two paths that need one.
pub fn update_step(state: UpdateState, event: UpdateEvent) -> (r: (UpdateState, UpdateAction))
    ensures
        // Fast path: already installed and not forced means done at once.
        state is Start ==> (event matches UpdateEvent::Begin {
            force: false,
            resolved: Some(root),
            ..
        } ==> (r.0 matches UpdateState::Done { root: d } && d@ == root@) && (
        r.1 matches UpdateAction::Finish { root: f, warn_missing_data: false } && f@ == root@)),
        // A fetch happens only when no valid root was resolved or the
        // caller forced one, and then exactly at the pipeline's start or
        // right after a successful backup.
        r.1 is DoDownload ==> ((state is Start && (event matches UpdateEvent::Begin {
            force,
            resolved,
            ..
        } && (force || resolved is None))) || (state is BackingUp && event is StepOk)),
        // The three request shapes that need work but no backup go
        // straight to the fetch, with no backup session to restore.
        state is Start ==> (event matches UpdateEvent::Begin {
            force: false,
            resolved: None,
            url,
            ..
        } ==> starts_download(r, url@)),
        state is Start ==> (event matches UpdateEvent::Begin {
            force: true,
            resolved: None,
            url,
            ..
        } ==> starts_download(r, url@)),
        state is Start ==> (event matches UpdateEvent::Begin {
            force: true,
            resolved: Some(_),
            app_dir_exists: false,
            url,
        } ==> starts_download(r, url@)),
        // A prior installation is backed up before anything is destroyed,
        // and a successful backup is followed by the fetch, the session
        // remembered.
        state is Start ==> (event matches UpdateEvent::Begin {
            force: true,
            resolved: Some(_),
            app_dir_exists: true,
            url,
        } ==> (r.0 matches UpdateState::BackingUp { url: u } && u@ == url@) && r.1 is DoBackup),
        state matches UpdateState::BackingUp { url } ==> (event is StepOk ==> (
        r.0 matches UpdateState::Downloading { url: u, backup_taken: true } && u@ == url@) && (
        r.1 matches UpdateAction::DoDownload { url: d } && d@ == url@)),
        // A failed backup aborts the whole pipeline.
        state is BackingUp ==> (event matches UpdateEvent::StepFailed { message } ==> aborts(
            r,
            message@,
        )),
        // A failed fetch aborts; a successful one moves on to persisting,
        // the backup flag carried along.
        state matches UpdateState::Downloading { backup_taken, .. } ==> (event
            matches UpdateEvent::DownloadFinished { ok: true, .. } ==> (
        r.0 matches UpdateState::Writing { backup_taken: b } && b == backup_taken) && r.1
            is DoWriteArchive),
        state is Downloading ==> (event matches UpdateEvent::DownloadFinished {
            ok: false,
            message,
        } ==> aborts(r, message@)),
        // The hard steps chain in order, the backup flag carried along.
        state matches UpdateState::Writing { backup_taken } ==> (event is StepOk ==> (
        r.0 matches UpdateState::Clearing { backup_taken: b } && b == backup_taken) && r.1
            is DoClearAppDir),
        state matches UpdateState::Clearing { backup_taken } ==> (event is StepOk ==> (
        r.0 matches UpdateState::Extracting { backup_taken: b } && b == backup_taken) && r.1
            is DoExtract),
        state matches UpdateState::Extracting { backup_taken } ==> (event is StepOk ==> (
        r.0 matches UpdateState::CleaningUp { backup_taken: b } && b == backup_taken) && r.1
            is DoCleanupTemp),
        // Temp-file cleanup is best-effort: either outcome moves on.
        state matches UpdateState::CleaningUp { backup_taken } ==> ((event is StepOk || event
            is StepFailed) ==> (r.0 matches UpdateState::Reresolving { backup_taken: b } && b
            == backup_taken) && r.1 is DoResolveRoot),
        state matches UpdateState::Reresolving { backup_taken } ==> (event
            matches UpdateEvent::RootResolved { root: Some(root), .. } ==> (
        r.0 matches UpdateState::FixingPermissions { root: x, backup_taken: b } && x@ == root@ && b
            == backup_taken) && (r.1 matches UpdateAction::DoFixPermissions { root: x2 } && x2@
            == root@)),
        state is Reresolving ==> (event matches UpdateEvent::RootResolved {
            root: None,
            message,
        } ==> aborts(r, message@)),
        // Permission fix-up is best-effort; it is followed by a restore
        // exactly when a backup session was taken.
        state matches UpdateState::FixingPermissions { root, backup_taken: true } ==> ((event
            is StepOk || event is StepFailed) ==> (r.0 matches UpdateState::Restoring { root: x }
            && x@ == root@) && (r.1 matches UpdateAction::DoRestore { root: x } && x@ == root@)),
        state matches UpdateState::FixingPermissions { root, backup_taken: false } ==> ((event
            is StepOk || event is StepFailed) ==> (r.0 matches UpdateState::Done { root: x } && x@
            == root@) && (r.1 matches UpdateAction::Finish { root: x, warn_missing_data: false }
            && x@ == root@)),
        // A failed restore aborts; a successful one checks the critical
        // file.
        state matches UpdateState::Restoring { root } ==> (event is StepOk ==> (
        r.0 matches UpdateState::CheckingData { root: x } && x@ == root@) && (
        r.1 matches UpdateAction::DoCheckData { root: x } && x@ == root@)),
        state is Restoring ==> (event matches UpdateEvent::StepFailed { message } ==> aborts(
            r,
            message@,
        )),
        // A missing critical file after restore is a warning, never a
        // failure.
        state matches UpdateState::CheckingData { root } ==> (event
            matches UpdateEvent::DataChecked { present } ==> (r.0 matches UpdateState::Done {
            root: x,
        } && x@ == root@) && (r.1 matches UpdateAction::Finish { root: x, warn_missing_data } && x@
            == root@ && warn_missing_data == !present)),
        // The hard steps abort on failure.
        (state is Writing || state is Clearing || state is Extracting) ==> (event
            matches UpdateEvent::StepFailed { message } ==> aborts(r, message@)),
{
    match (state, event) {
        (UpdateState::Start, UpdateEvent::Begin { force, resolved, app_dir_exists, url }) => {
            match resolved {
                Some(root) => {
                    if !force {
                        let r2 = root.clone();
                        return (
                            UpdateState::Done { root },
                            UpdateAction::Finish { root: r2, warn_missing_data: false },
                        );
                    }
                    if app_dir_exists {
                        (UpdateState::BackingUp { url }, UpdateAction::DoBackup)
                    } else {
                        let u2 = url.clone();
                        (
                            UpdateState::Downloading { url, backup_taken: false },
                            UpdateAction::DoDownload { url: u2 },
                        )
                    }
                },
                None => {
                    let u2 = url.clone();
                    (
                        UpdateState::Downloading { url, backup_taken: false },
                        UpdateAction::DoDownload { url: u2 },
                    )
                },
            }
        },
        (UpdateState::BackingUp { url }, UpdateEvent::StepOk) => {
            let u2 = url.clone();
            (
                UpdateState::Downloading { url, backup_taken: true },
                UpdateAction::DoDownload { url: u2 },
            )
        },
        (UpdateState::BackingUp { .. }, UpdateEvent::StepFailed { message }) => fail(message),
        (UpdateState::Downloading { backup_taken, .. }, UpdateEvent::DownloadFinished {
            ok,
            message,
        }) => {
            if ok {
                (UpdateState::Writing { backup_taken }, UpdateAction::DoWriteArchive)
            } else {
                fail(message)
            }
        },
        (UpdateState::Writing { backup_taken }, UpdateEvent::StepOk) => (
            UpdateState::Clearing { backup_taken },
            UpdateAction::DoClearAppDir,
        ),
        (UpdateState::Writing { .. }, UpdateEvent::StepFailed { message }) => fail(message),
        (UpdateState::Clearing { backup_taken }, UpdateEvent::StepOk) => (
            UpdateState::Extracting { backup_taken },
            UpdateAction::DoExtract,
        ),
        (UpdateState::Clearing { .. }, UpdateEvent::StepFailed { message }) => fail(message),
        (UpdateState::Extracting { backup_taken }, UpdateEvent::StepOk) => (
            UpdateState::CleaningUp { backup_taken },
            UpdateAction::DoCleanupTemp,
        ),
        (UpdateState::Extracting { .. }, UpdateEvent::StepFailed { message }) => fail(message),
        (UpdateState::CleaningUp { backup_taken }, UpdateEvent::StepOk) => (
            UpdateState::Reresolving { backup_taken },
            UpdateAction::DoResolveRoot,
        ),
        (UpdateState::CleaningUp { backup_taken }, UpdateEvent::StepFailed { .. }) => (
            UpdateState::Reresolving { backup_taken },
            UpdateAction::DoResolveRoot,
        ),
        (UpdateState::Reresolving { backup_taken }, UpdateEvent::RootResolved {
            root,
            message,
        }) => {
            match root {
                Some(root) => {
                    let r2 = root.clone();
                    (
                        UpdateState::FixingPermissions { root, backup_taken },
                        UpdateAction::DoFixPermissions { root: r2 },
                    )
                },
                None => fail(message),
            }
        },
        (UpdateState::FixingPermissions { root, backup_taken }, UpdateEvent::StepOk) => {
            after_permission_fix(root, backup_taken)
        },
        (UpdateState::FixingPermissions { root, backup_taken }, UpdateEvent::StepFailed {
            ..
        }) => {
            after_permission_fix(root, backup_taken)
        },
        (UpdateState::Restoring { root }, UpdateEvent::StepOk) => {
            let r2 = root.clone();
            (UpdateState::CheckingData { root }, UpdateAction::DoCheckData { root: r2 })
        },
        (UpdateState::Restoring { .. }, UpdateEvent::StepFailed { message }) => fail(message),
        (UpdateState::CheckingData { root }, UpdateEvent::DataChecked { present }) => {
            let r2 = root.clone();
            (
                UpdateState::Done { root },
                UpdateAction::Finish { root: r2, warn_missing_data: !present },
            )
        },
        (_, _) => {
            let message = String::from_str("unexpected step outcome for the pipeline's state");
            fail(message)
        },
    }
}

fn fail(message: String) -> (r: (UpdateState, UpdateAction))
    ensures
        r.0 matches UpdateState::Failed { message: m } && m@ == message@,
        r.1 matches UpdateAction::Abort { message: m } && m@ == message@,
{
    let m2 = message.clone();
    (UpdateState::Failed { message }, UpdateAction::Abort { message: m2 })
}

fn after_permission_fix(root: String, backup_taken: bool) -> (r: (UpdateState, UpdateAction))
    ensures
        backup_taken ==> (r.0 matches UpdateState::Restoring { root: x } && x@ == root@) && (
        r.1 matches UpdateAction::DoRestore { root: x } && x@ == root@),
        !backup_taken ==> (r.0 matches UpdateState::Done { root: x } && x@ == root@) && (
        r.1 matches UpdateAction::Finish { root: x, warn_missing_data: false } && x@ == root@),
{
    let r2 = root.clone();
    if backup_taken {
        (UpdateState::Restoring { root }, UpdateAction::DoRestore { root: r2 })
    } else {
        (UpdateState::Done { root }, UpdateAction::Finish { root: r2, warn_missing_data: false })
    }
}

/// The progress milestone the shell reports when it performs an action;
/// none for actions that emit no milestone.
pub fn progress_message(action: &UpdateAction) -> (r: Option<String>)
    ensures
        action is DoBackup ==> r is Some && r->0@ == "Creating user data backup..."@,
        action is DoDownload ==> r is Some && r->0@ == "Downloading app..."@,
        action is DoWriteArchive ==> r is Some && r->0@ == "Writing file..."@,
        action is DoExtract ==> r is Some && r->0@ == "Extracting archive..."@,
        action is DoRestore ==> r is Some && r->0@ == "Restoring user data backup..."@,
        action is Finish ==> r is Some && r->0@ == "Completed"@,
        action is DoClearAppDir || action is DoCleanupTemp || action is DoResolveRoot || action
            is DoFixPermissions || action is DoCheckData || action is Abort ==> r is None,
{
    match action {
        UpdateAction::DoBackup => Some(String::from_str("Creating user data backup...")),
        UpdateAction::DoDownload { .. } => Some(String::from_str("Downloading app...")),
        UpdateAction::DoWriteArchive => Some(String::from_str("Writing file...")),
        UpdateAction::DoExtract => Some(String::from_str("Extracting archive...")),
        UpdateAction::DoRestore { .. } => Some(String::from_str("Restoring user data backup...")),
        UpdateAction::Finish { .. } => Some(String::from_str("Completed")),
        _ => None,
    }
}

/// The warning reported when the critical data file is missing after a
/// restore.
pub fn missing_data_warning() -> (r: String)
    ensures
        r@ == "Warning: planar.sqlite not found after restore"@,
{
    String::from_str("Warning: planar.sqlite not found after restore")
}

} // verus!

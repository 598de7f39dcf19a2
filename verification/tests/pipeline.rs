use launcher_core::config::{browser_url_allowed, build_status, default_zip_url, menu_labels, select_zip_url};
use launcher_core::netinfo::{share_address, IpEntry};
use launcher_core::paths::{
    app_dir_of, archive_path_of, backup_dir_of, base_from_dirs, config_path_of,
    critical_data_file_of, path_join, scripts_dir_of,
};
use launcher_core::resolver::{
    dev_root_components, resolve_install_root, DevCandidate, EntryObservation,
    InstallObservation, ResolveError,
};
use launcher_core::update::{update_step, progress_message, UpdateAction, UpdateEvent, UpdateState};

fn obs(
    dev: Option<DevCandidate>,
    exists: bool,
    entries: Vec<EntryObservation>,
    app_has_scripts: bool,
) -> InstallObservation {
    InstallObservation {
        dev_candidate: dev,
        app_dir: "/data/PlanarAllyPlus/app".to_string(),
        app_dir_exists: exists,
        entries,
        app_has_scripts,
    }
}

#[test]
fn resolver_unwraps_single_nested_directory() {
    let o = obs(
        None,
        true,
        vec![EntryObservation {
            path: "/data/PlanarAllyPlus/app/PlanarAllyPlus-dev".to_string(),
            is_dir: true,
            has_scripts: true,
        }],
        false,
    );
    assert_eq!(
        resolve_install_root(&o).unwrap(),
        "/data/PlanarAllyPlus/app/PlanarAllyPlus-dev"
    );
}

#[test]
fn resolver_takes_app_dir_when_scripts_lie_directly_under_it() {
    let o = obs(
        None,
        true,
        vec![
            EntryObservation {
                path: "/data/PlanarAllyPlus/app/scripts".to_string(),
                is_dir: true,
                has_scripts: false,
            },
            EntryObservation {
                path: "/data/PlanarAllyPlus/app/server".to_string(),
                is_dir: true,
                has_scripts: false,
            },
        ],
        true,
    );
    assert_eq!(resolve_install_root(&o).unwrap(), "/data/PlanarAllyPlus/app");
}

#[test]
fn resolver_reports_not_downloaded() {
    let o = obs(None, false, vec![], false);
    let err = resolve_install_root(&o).unwrap_err();
    assert!(matches!(err, ResolveError::NotDownloaded));
    assert_eq!(err.message(), "App not downloaded. Click Start or Update.");
}

#[test]
fn resolver_reports_invalid_structure_for_any_other_shape() {
    let o = obs(
        None,
        true,
        vec![EntryObservation {
            path: "/data/PlanarAllyPlus/app/readme.txt".to_string(),
            is_dir: false,
            has_scripts: false,
        }],
        false,
    );
    let err = resolve_install_root(&o).unwrap_err();
    assert!(matches!(err, ResolveError::InvalidStructure));
    assert_eq!(err.message(), "Invalid app structure. Click Update.");
}

#[test]
fn resolver_prefers_development_tree() {
    let o = obs(
        Some(DevCandidate { path: "/src/proj".to_string(), has_run_script: true }),
        false,
        vec![],
        false,
    );
    assert_eq!(resolve_install_root(&o).unwrap(), "/src/proj");
}

#[test]
fn dev_root_three_levels_above_build_output() {
    let dirs: Vec<String> =
        ["home", "me", "proj", "target", "debug"].iter().map(|s| s.to_string()).collect();
    assert_eq!(
        dev_root_components(&dirs).unwrap(),
        vec!["home".to_string(), "me".to_string()]
    );
}

#[test]
fn dev_root_one_level_above_packaged_binary() {
    let dirs: Vec<String> = ["opt", "launcher", "bin"].iter().map(|s| s.to_string()).collect();
    assert_eq!(
        dev_root_components(&dirs).unwrap(),
        vec!["opt".to_string(), "launcher".to_string()]
    );
}

#[test]
fn dev_root_path_too_short_yields_none() {
    let dirs: Vec<String> = vec!["target".to_string()];
    assert!(dev_root_components(&dirs).is_none());
}

#[test]
fn update_fast_path_performs_no_download() {
    let begin = UpdateEvent::Begin {
        force: false,
        resolved: Some("/data/PlanarAllyPlus/app".to_string()),
        app_dir_exists: true,
        url: default_zip_url(),
    };
    let (state, action) = update_step(UpdateState::Start, begin);
    assert!(matches!(state, UpdateState::Done { .. }));
    match action {
        UpdateAction::Finish { root, warn_missing_data } => {
            assert_eq!(root, "/data/PlanarAllyPlus/app");
            assert!(!warn_missing_data);
        },
        _ => panic!("expected the pipeline to finish at once"),
    }
}

#[test]
fn update_first_install_runs_whole_pipeline_without_backup() {
    let url = "http://host/pkg.zip".to_string();
    let begin =
        UpdateEvent::Begin { force: false, resolved: None, app_dir_exists: false, url: url.clone() };
    let (s, a) = update_step(UpdateState::Start, begin);
    match &a {
        UpdateAction::DoDownload { url: u } => assert_eq!(u, &url),
        _ => panic!("expected a fetch"),
    }
    let (s, a) = update_step(s, UpdateEvent::DownloadFinished { ok: true, message: String::new() });
    assert!(matches!(a, UpdateAction::DoWriteArchive));
    let (s, a) = update_step(s, UpdateEvent::StepOk);
    assert!(matches!(a, UpdateAction::DoClearAppDir));
    let (s, a) = update_step(s, UpdateEvent::StepOk);
    assert!(matches!(a, UpdateAction::DoExtract));
    let (s, a) = update_step(s, UpdateEvent::StepOk);
    assert!(matches!(a, UpdateAction::DoCleanupTemp));
    let (s, a) = update_step(s, UpdateEvent::StepFailed { message: "busy".to_string() });
    assert!(matches!(a, UpdateAction::DoResolveRoot));
    let (s, a) = update_step(
        s,
        UpdateEvent::RootResolved { root: Some("/new/root".to_string()), message: String::new() },
    );
    match &a {
        UpdateAction::DoFixPermissions { root } => assert_eq!(root, "/new/root"),
        _ => panic!("expected the permission fix-up"),
    }
    let (_, a) = update_step(s, UpdateEvent::StepOk);
    match a {
        UpdateAction::Finish { root, warn_missing_data } => {
            assert_eq!(root, "/new/root");
            assert!(!warn_missing_data);
        },
        _ => panic!("expected the pipeline to finish"),
    }
}

#[test]
fn update_forced_with_prior_install_backs_up_then_restores() {
    let begin = UpdateEvent::Begin {
        force: true,
        resolved: Some("/old/root".to_string()),
        app_dir_exists: true,
        url: "http://host/pkg.zip".to_string(),
    };
    let (s, a) = update_step(UpdateState::Start, begin);
    assert!(matches!(a, UpdateAction::DoBackup));
    let (s, a) = update_step(s, UpdateEvent::StepOk);
    assert!(matches!(a, UpdateAction::DoDownload { .. }));
    assert!(matches!(s, UpdateState::Downloading { backup_taken: true, .. }));
    let (s, _) = update_step(s, UpdateEvent::DownloadFinished { ok: true, message: String::new() });
    assert!(matches!(s, UpdateState::Writing { backup_taken: true }));
    let (s, _) = update_step(s, UpdateEvent::StepOk);
    let (s, _) = update_step(s, UpdateEvent::StepOk);
    let (s, _) = update_step(s, UpdateEvent::StepOk);
    let (s, _) = update_step(s, UpdateEvent::StepOk);
    let (s, a) = update_step(
        s,
        UpdateEvent::RootResolved { root: Some("/new/root".to_string()), message: String::new() },
    );
    assert!(matches!(a, UpdateAction::DoFixPermissions { .. }));
    let (s, a) = update_step(s, UpdateEvent::StepOk);
    match &a {
        UpdateAction::DoRestore { root } => assert_eq!(root, "/new/root"),
        _ => panic!("expected a restore after a backup was taken"),
    }
    let (s, a) = update_step(s, UpdateEvent::StepOk);
    assert!(matches!(a, UpdateAction::DoCheckData { .. }));
    let (_, a) = update_step(s, UpdateEvent::DataChecked { present: false });
    match a {
        UpdateAction::Finish { root, warn_missing_data } => {
            assert_eq!(root, "/new/root");
            assert!(warn_missing_data);
        },
        _ => panic!("expected the pipeline to finish with a warning"),
    }
}

#[test]
fn update_download_failure_aborts_with_message() {
    let (s, _) = update_step(
        UpdateState::Start,
        UpdateEvent::Begin {
            force: false,
            resolved: None,
            app_dir_exists: false,
            url: "http://host/pkg.zip".to_string(),
        },
    );
    let (s, a) = update_step(
        s,
        UpdateEvent::DownloadFinished { ok: false, message: "Server responded with 500".to_string() },
    );
    assert!(matches!(s, UpdateState::Failed { .. }));
    match a {
        UpdateAction::Abort { message } => assert_eq!(message, "Server responded with 500"),
        _ => panic!("expected the pipeline to abort"),
    }
}

#[test]
fn update_backup_failure_aborts_before_any_destruction() {
    let (s, _) = update_step(
        UpdateState::Start,
        UpdateEvent::Begin {
            force: true,
            resolved: Some("/old".to_string()),
            app_dir_exists: true,
            url: "http://host/pkg.zip".to_string(),
        },
    );
    let (s, a) = update_step(s, UpdateEvent::StepFailed { message: "Backup failed for server/data: disk full".to_string() });
    assert!(matches!(s, UpdateState::Failed { .. }));
    assert!(matches!(a, UpdateAction::Abort { .. }));
}

#[test]
fn progress_milestones_for_actions() {
    assert_eq!(progress_message(&UpdateAction::DoBackup).unwrap(), "Creating user data backup...");
    assert_eq!(
        progress_message(&UpdateAction::DoDownload { url: String::new() }).unwrap(),
        "Downloading app..."
    );
    assert_eq!(progress_message(&UpdateAction::DoWriteArchive).unwrap(), "Writing file...");
    assert_eq!(progress_message(&UpdateAction::DoExtract).unwrap(), "Extracting archive...");
    assert_eq!(
        progress_message(&UpdateAction::DoRestore { root: String::new() }).unwrap(),
        "Restoring user data backup..."
    );
    assert_eq!(
        progress_message(&UpdateAction::Finish { root: String::new(), warn_missing_data: false })
            .unwrap(),
        "Completed"
    );
    assert!(progress_message(&UpdateAction::DoResolveRoot).is_none());
}

#[test]
fn zip_url_defaults_without_configuration() {
    assert_eq!(
        select_zip_url(None),
        "https://github.com/mccoy88f/PlanarAllyPlus/archive/refs/heads/dev.zip"
    );
}

#[test]
fn zip_url_override_from_configuration_content() {
    let content = "{\"zip_url\": \"http://mirror/custom.zip\"}";
    assert_eq!(select_zip_url(Some(content)), "http://mirror/custom.zip");
}

#[test]
fn zip_url_falls_back_on_malformed_or_keyless_configuration() {
    assert_eq!(select_zip_url(Some("not json")), default_zip_url());
    assert_eq!(select_zip_url(Some("{\"other\": 1}")), default_zip_url());
    assert_eq!(select_zip_url(Some("{\"zip_url\": 5}")), default_zip_url());
}

#[test]
fn status_reports_path_or_diagnostic_and_fresh_url() {
    let ok = build_status(&Ok("/root".to_string()), "http://u/z.zip".to_string());
    assert!(ok.ready);
    assert_eq!(ok.path, "/root");
    assert_eq!(ok.zip_url, "http://u/z.zip");
    let err = build_status(&Err(ResolveError::NotDownloaded), default_zip_url());
    assert!(!err.ready);
    assert_eq!(err.path, "App not downloaded. Click Start or Update.");
}

#[test]
fn browser_urls_restricted_to_web_schemes() {
    assert!(browser_url_allowed("http://localhost:8000"));
    assert!(browser_url_allowed("https://example.org"));
    assert!(!browser_url_allowed("ftp://example.org"));
    assert!(!browser_url_allowed("file:///etc/passwd"));
}

#[test]
fn menu_labels_follow_locale() {
    let (show, submenu) = menu_labels("it_IT.UTF-8");
    assert_eq!(show, "Mostra finestra");
    assert_eq!(submenu, "PlanarAlly Plus Launcher");
    let (show, _) = menu_labels("en_US.UTF-8");
    assert_eq!(show, "Show Window");
}

#[test]
fn share_address_picks_first_routable_ipv4() {
    let entries = vec![
        IpEntry::V6,
        IpEntry::V4 { a: 127, b: 0, c: 0, d: 1 },
        IpEntry::V4 { a: 192, b: 168, c: 1, d: 7 },
        IpEntry::V4 { a: 10, b: 0, c: 0, d: 2 },
    ];
    assert_eq!(share_address(&entries).unwrap(), "192.168.1.7");
}

#[test]
fn share_address_reports_when_only_loopback_exists() {
    let entries = vec![IpEntry::V6, IpEntry::V4 { a: 127, b: 0, c: 0, d: 1 }];
    assert_eq!(share_address(&entries).unwrap_err(), "No local IP found");
}

#[test]
fn data_directory_prefers_local_data_over_home() {
    let r = base_from_dirs(Some("/local".to_string()), Some("/home/me".to_string()));
    assert_eq!(r.unwrap(), "/local/PlanarAllyPlus");
}

#[test]
fn data_directory_falls_back_to_home() {
    let r = base_from_dirs(None, Some("/home/me".to_string()));
    assert_eq!(r.unwrap(), "/home/me/PlanarAllyPlus");
}

#[test]
fn data_directory_error_when_platform_reports_neither() {
    let r = base_from_dirs(None, None);
    assert_eq!(r.unwrap_err(), "Cannot determine data folder");
}

#[test]
fn path_layout_under_data_directory() {
    assert_eq!(path_join("a", "b"), "a/b");
    assert_eq!(app_dir_of("/d/PlanarAllyPlus"), "/d/PlanarAllyPlus/app");
    assert_eq!(archive_path_of("/d/PlanarAllyPlus"), "/d/PlanarAllyPlus/planarally.zip");
    assert_eq!(config_path_of("/d/PlanarAllyPlus"), "/d/PlanarAllyPlus/config.json");
    assert_eq!(backup_dir_of("/d/PlanarAllyPlus"), "/d/PlanarAllyPlus/pa_update_backup");
    assert_eq!(scripts_dir_of("/root"), "/root/scripts");
    assert_eq!(critical_data_file_of("/root"), "/root/server/data/planar.sqlite");
}

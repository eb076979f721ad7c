use ai_usagebar::manifest::{
    bucket_from_install_json, homepage_from_manifest, version_from_manifest,
};
use ai_usagebar::process::{
    quiet_command, refresh_buckets_command, BUCKET_REFRESH_TIMEOUT,
};
use ai_usagebar::scoop::{detect_with, ScoopApp};
use ai_usagebar::script::RELAUNCH_ENV;
use ai_usagebar::text::quote;
use std::path::{Path, PathBuf};
use std::time::Duration;

fn shims_exist(path: &Path) -> bool {
    path.file_name().is_some_and(|name| name == "shims")
}

#[test]
fn detects_the_junction_path() {
    let exe = Path::new("C:/Users/me/scoop/apps/ai-usagebar/current/ai-usagebar-tray.exe");
    let app = detect_with(exe, &shims_exist).expect("scoop install");
    assert_eq!(app.name, "ai-usagebar");
    assert_eq!(app.root, Path::new("C:/Users/me/scoop"));
}

#[test]
fn detects_the_resolved_version_path() {
    let exe = Path::new("C:/Users/me/scoop/apps/ai-usagebar/1.14.0/ai-usagebar-tray.exe");
    let app = detect_with(exe, &shims_exist).expect("scoop install");
    assert_eq!(app.name, "ai-usagebar");
    assert_eq!(app.root, Path::new("C:/Users/me/scoop"));
}

#[test]
fn a_tree_without_apps_is_not_scoop() {
    let exe = Path::new("C:/Tools/ai-usagebar/current/ai-usagebar-tray.exe");
    assert_eq!(detect_with(exe, &shims_exist), None);
    assert_eq!(
        detect_with(Path::new("ai-usagebar-tray.exe"), &shims_exist),
        None
    );
}

#[test]
fn a_root_without_shims_is_not_scoop() {
    let exe = Path::new("C:/Users/me/scoop/apps/ai-usagebar/current/ai-usagebar-tray.exe");
    assert_eq!(detect_with(exe, &|_| false), None);
}

#[test]
fn bucket_comes_from_install_json() {
    assert_eq!(
        bucket_from_install_json(
            r#"{"bucket":"djalmajr","architecture":"64bit","url":"https://x/y.zip"}"#
        ),
        Some("djalmajr".into())
    );
    assert_eq!(
        bucket_from_install_json(r#"{"architecture":"64bit"}"#),
        None
    );
    assert_eq!(bucket_from_install_json(r#"{"bucket":"../etc"}"#), None);
    assert_eq!(bucket_from_install_json(r#"{"bucket":""}"#), None);
    assert_eq!(bucket_from_install_json("not json"), None);
}

#[test]
fn version_comes_from_the_manifest() {
    assert_eq!(
        version_from_manifest(r#"{"version":"1.14.0","homepage":"https://github.com/x/y"}"#),
        Some("1.14.0".into())
    );
    assert_eq!(version_from_manifest(r#"{"homepage":"x"}"#), None);
    assert_eq!(version_from_manifest(r#"{"version":"v1.14.0"}"#), None);
    assert_eq!(version_from_manifest(r#"{"version":"1.14"}"#), None);
    assert_eq!(version_from_manifest(r#"{"version":1}"#), None);
    assert_eq!(version_from_manifest("{"), None);
}

#[test]
fn homepage_is_kept_only_when_it_is_github() {
    assert_eq!(
        homepage_from_manifest(r#"{"homepage":"https://github.com/akitaonrails/ai-usagebar"}"#),
        Some("https://github.com/akitaonrails/ai-usagebar".into())
    );
    assert_eq!(
        homepage_from_manifest(r#"{"homepage":"https://evil.example/"}"#),
        None
    );
    assert_eq!(homepage_from_manifest(r#"{"version":"1.0.0"}"#), None);
    assert_eq!(homepage_from_manifest("[]"), None);
}

#[test]
fn current_exe_path_goes_through_the_junction() {
    let app = ScoopApp {
        name: "ai-usagebar".into(),
        root: PathBuf::from("C:/scoop"),
    };
    assert_eq!(
        app.current_exe_path("ai-usagebar-tray"),
        Path::new("C:/scoop")
            .join("apps")
            .join("ai-usagebar")
            .join("current")
            .join("ai-usagebar-tray.exe")
    );
}

#[test]
fn update_script_waits_updates_and_relaunches() {
    let app = ScoopApp {
        name: "ai-usagebar".into(),
        root: PathBuf::from("C:/scoop"),
    };
    let log = Path::new("C:/cache/ai-usagebar/updates/scoop.log");
    let script = app.update_script(4242, log);
    let exe = app
        .current_exe_path("ai-usagebar-tray")
        .display()
        .to_string();
    assert!(script.contains("Wait-Process -Id 4242"), "{script}");
    assert!(
        script.contains("scoop update 'ai-usagebar' 2>&1"),
        "{script}"
    );
    assert!(script.contains("$attempt -le 3"), "{script}");
    assert!(script.contains("Start-Sleep -Seconds 5"), "{script}");
    assert!(script.contains("Get-Command git"), "{script}");
    assert!(script.contains(&format!("-FilePath '{exe}'")), "{script}");
    assert!(script.contains("$env:AIUB_TRAY_RELAUNCH = '1'"), "{script}");
    assert!(
        script.starts_with(
            "Start-Transcript -Path 'C:/cache/ai-usagebar/updates/scoop.log' -Force"
        ),
        "{script}"
    );
    assert!(script.ends_with("Stop-Transcript"), "{script}");
    // The relaunch marker is the one the host's single-instance wait reads.
    assert!(script.contains(RELAUNCH_ENV), "{script}");
}

#[test]
fn update_script_doubles_single_quotes() {
    let app = ScoopApp {
        name: "ai-usagebar".into(),
        root: PathBuf::from("C:/Users/O'Brien/scoop"),
    };
    let script = app.update_script(1, Path::new("C:/Users/O'Brien/scoop.log"));
    assert!(script.contains("O''Brien/scoop.log'"), "{script}");
    let current = app.app_dir().join("current").display().to_string();
    assert!(
        script.contains(&format!("'{}'", quote(&current))),
        "{script}"
    );
    assert!(!script.contains("O'Brien"), "{script}");
}

#[test]
fn quiet_command_scrubs_the_parent_shells_module_path() {
    let command = quiet_command(&[
        "powershell.exe".to_owned(),
        "-Command".to_owned(),
        "scoop update".to_owned(),
    ])
    .unwrap();
    assert_eq!(command.removed_env, vec!["PSModulePath"]);
    assert_eq!(command.program, "powershell.exe");
    assert!(quiet_command(&[]).is_err());
}

#[test]
fn refresh_buckets_is_a_quiet_powershell_call() {
    assert_eq!(
        refresh_buckets_command(),
        vec![
            "powershell.exe",
            "-NoProfile",
            "-NonInteractive",
            "-ExecutionPolicy",
            "Bypass",
            "-Command",
            "scoop update",
        ]
    );
    assert_eq!(
        Duration::from_secs(BUCKET_REFRESH_TIMEOUT),
        Duration::from_secs(90)
    );
}

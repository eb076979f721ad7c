use ai_usagebar::json::read_string_field;
use ai_usagebar::manifest::{
    bucket_from_install_json, bucket_in_field, homepage_from_manifest, homepage_in_field,
    is_plain_name, is_strict_version, version_from_manifest, version_in_field,
};
use ai_usagebar::process::{
    judge, powershell_command, quiet_command, refresh_buckets_command, spawn_detached,
    start_outcome, Handle, Poll, QuietCommand, Step,
};
use ai_usagebar::profile::popover_data_dir;
use ai_usagebar::scoop::{app_name, detect_with, is_apps_dir, locate, ScoopApp};
use ai_usagebar::script::update_program;
use ai_usagebar::text::quote;
use std::cell::RefCell;
use std::path::{Path, PathBuf};

fn app() -> ScoopApp {
    ScoopApp {
        name: "ai-usagebar".into(),
        root: PathBuf::from("C:/scoop"),
    }
}

#[test]
fn every_white_space_character_is_trimmed_and_no_other() {
    for c in '\0'..=char::MAX {
        let field = format!("{c}1.2.3{c}");
        let expected = if c.is_whitespace() {
            Some("1.2.3".to_owned())
        } else if c.is_ascii_digit() {
            Some(field.clone())
        } else {
            None
        };
        assert_eq!(version_in_field(&field), expected, "{:?}", c);
        assert_eq!(
            version_in_field(&field),
            version_in_field(field.trim()),
            "{:?}",
            c
        );
    }
}

#[test]
fn blank_fields_are_empty_fields() {
    assert_eq!(bucket_in_field(" \t\n"), None);
    assert_eq!(version_in_field("   "), None);
    assert_eq!(homepage_in_field("\u{a0}"), None);
    assert_eq!(bucket_in_field(" main\n"), Some("main".into()));
    assert_eq!(
        homepage_in_field(" https://github.com/x "),
        Some("https://github.com/x".into())
    );
}

#[test]
fn plain_names_are_single_components() {
    assert!(is_plain_name("extras"));
    assert!(is_plain_name("a.b-c_D9"));
    assert!(is_plain_name("..."));
    assert!(is_plain_name(&"a".repeat(100)));
    assert!(!is_plain_name(&"a".repeat(101)));
    for name in ["", ".", "..", "a/b", "a\\b", "C:", "a b", "é", "a\0"] {
        assert!(!is_plain_name(name), "{name:?}");
    }
}

#[test]
fn strict_versions_are_three_numbers() {
    for version in ["0.0.0", "1.14.0", "10.20.30", "007.1.00"] {
        assert!(is_strict_version(version), "{version}");
    }
    for version in [
        "", ".", "..", "1", "1.2", "1.2.", "1..3", ".2.3", "1.2.3.", "1.2.3.4", "1.2.3-rc1",
        "v1.2.3", "1.2.x", "1. 2.3", "\u{661}.2.3",
    ] {
        assert!(!is_strict_version(version), "{version}");
    }
}

#[test]
fn homepages_are_bounded_in_bytes() {
    let start = "https://github.com/";
    let fits = format!("{start}{}", "a".repeat(400 - start.len()));
    assert_eq!(homepage_in_field(&fits), Some(fits.clone()));
    assert_eq!(homepage_in_field(&format!("{fits}a")), None);
    let wide = format!("{start}{}", "é".repeat(200));
    assert!(wide.chars().count() <= 400);
    assert_eq!(homepage_in_field(&wide), None);
    assert_eq!(homepage_in_field(start), Some(start.into()));
    assert_eq!(homepage_in_field("https://github.com"), None);
    assert_eq!(homepage_in_field("http://github.com/x"), None);
    assert_eq!(homepage_in_field("HTTPS://github.com/x"), None);
}

#[test]
fn accepted_fields_are_accepted_again() {
    let version = version_in_field(" 1.2.3 ").unwrap();
    assert_eq!(version_in_field(&version), Some(version.clone()));
    let bucket = bucket_in_field("\tmain").unwrap();
    assert_eq!(bucket_in_field(&bucket), Some(bucket.clone()));
}

#[test]
fn string_fields_are_read_from_objects_only() {
    assert_eq!(
        read_string_field(r#" {"a":"x\u0041\n","b":2} "#, "a"),
        Some("xA\n".into())
    );
    assert_eq!(read_string_field(r#"{"a":{"b":"c"}}"#, "b"), None);
    assert_eq!(read_string_field(r#"{"a":["b"]}"#, "a"), None);
    assert_eq!(read_string_field(r#"{"a":null}"#, "a"), None);
    assert_eq!(read_string_field(r#""a""#, "a"), None);
    assert_eq!(read_string_field(r#"["a"]"#, "a"), None);
    assert_eq!(read_string_field(r#"{"a":"b"} x"#, "a"), None);
    assert_eq!(read_string_field("", "a"), None);
    assert_eq!(read_string_field(r#"{"a":"1","a":"2"}"#, "a"), Some("2".into()));
}

#[test]
fn fields_are_trimmed_after_parsing() {
    assert_eq!(
        bucket_from_install_json(r#"{"bucket":" main\n"}"#),
        Some("main".into())
    );
    assert_eq!(
        version_from_manifest(r#"{"version":"\t1.2.3"}"#),
        Some("1.2.3".into())
    );
    assert_eq!(
        homepage_from_manifest(r#"{"homepage":"https://github.com/a b "}"#),
        Some("https://github.com/a b".into())
    );
    assert_eq!(bucket_from_install_json(r#"{"bucket":".."}"#), None);
}

#[test]
fn the_apps_directory_is_found_in_any_case() {
    for name in ["apps", "APPS", "Apps", "aPpS"] {
        assert!(is_apps_dir(name.as_bytes()), "{name}");
        let exe = PathBuf::from(format!("/r/{name}/tool/1.0/tool.exe"));
        assert_eq!(
            detect_with(&exe, &|_: &Path| true),
            Some(ScoopApp {
                name: "tool".into(),
                root: "/r".into()
            })
        );
    }
    for name in ["app", "appss", "", "a[ps", "@PPS"] {
        assert!(!is_apps_dir(name.as_bytes()), "{name}");
    }
}

#[test]
fn app_names_are_text_that_is_not_empty() {
    assert_eq!(app_name("tool".as_bytes()), Some("tool".into()));
    assert_eq!(app_name("outil-\u{e9}".as_bytes()), Some("outil-\u{e9}".into()));
    assert_eq!(app_name(&[]), None);
    assert_eq!(app_name(&[0x74, 0xff]), None);
}

#[test]
fn the_probe_is_asked_about_the_shims_of_the_root() {
    let asked: RefCell<Vec<PathBuf>> = RefCell::new(Vec::new());
    let probe = |path: &Path| {
        asked.borrow_mut().push(path.to_path_buf());
        false
    };
    let exe = Path::new("/home/me/scoop/apps/tool/current/tool.exe");
    assert_eq!(detect_with(exe, &probe), None);
    assert_eq!(
        asked.into_inner(),
        vec![PathBuf::from("/home/me/scoop/shims")]
    );
}

#[test]
fn short_paths_are_not_scoop() {
    for exe in ["", "/", "a", "a/b", "apps/tool/current", "apps/a/..", "apps/../v/x", "/apps/t/x"] {
        assert_eq!(locate(Path::new(exe)), None, "{exe}");
    }
    assert_eq!(
        locate(Path::new("apps/tool/v/x")),
        Some(ScoopApp {
            name: "tool".into(),
            root: "".into()
        })
    );
    assert_eq!(
        locate(Path::new("/apps/tool/./v//x/")),
        Some(ScoopApp {
            name: "tool".into(),
            root: "/".into()
        })
    );
}

#[test]
fn the_current_exe_leads_back_to_its_app() {
    for root in ["C:/scoop", "/srv/scoop", "scoop", "/", ""] {
        let app = ScoopApp {
            name: "tool-1.x".into(),
            root: root.into(),
        };
        assert_eq!(locate(&app.current_exe_path("tray")), Some(app.clone()));
        let version = app.app_dir().join("1.0.0").join("other.exe");
        assert_eq!(locate(&version), Some(app));
    }
}

#[test]
fn files_lie_below_the_root() {
    let app = app();
    assert_eq!(app.app_dir(), Path::new("C:/scoop/apps/ai-usagebar"));
    assert_eq!(
        app.current_dir(),
        Path::new("C:/scoop/apps/ai-usagebar/current")
    );
    assert_eq!(
        app.install_json_path(),
        Path::new("C:/scoop/apps/ai-usagebar/current/install.json")
    );
    assert_eq!(
        app.bucket_manifest_path("main"),
        Path::new("C:/scoop/buckets/main/bucket/ai-usagebar.json")
    );
    assert_eq!(
        popover_data_dir(Path::new("/cache")),
        Path::new("/cache/ai-usagebar/popover")
    );
}

#[test]
fn an_absolute_piece_replaces_the_root() {
    assert_eq!(app().current_exe_path("/bin/x"), Path::new("/bin/x.exe"));
}

#[test]
fn manifests_are_read_from_the_installing_bucket() {
    let app = app();
    let read = |path: &Path| {
        if path == Path::new("C:/scoop/apps/ai-usagebar/current/install.json") {
            Some(r#"{"bucket":"djalmajr"}"#.to_owned())
        } else if path == Path::new("C:/scoop/buckets/djalmajr/bucket/ai-usagebar.json") {
            Some(r#"{"version":"1.15.0","homepage":"https://github.com/x/y"}"#.to_owned())
        } else {
            None
        }
    };
    assert_eq!(app.bucket(&read), Some("djalmajr".into()));
    assert_eq!(app.bucket_manifest_version(&read), Some("1.15.0".into()));
    assert_eq!(
        app.bucket_manifest_homepage(&read),
        Some("https://github.com/x/y".into())
    );
}

#[test]
fn only_the_two_files_are_read() {
    let read_paths: RefCell<Vec<PathBuf>> = RefCell::new(Vec::new());
    let read = |path: &Path| {
        read_paths.borrow_mut().push(path.to_path_buf());
        Some(r#"{"bucket":"main","version":"1.2.3"}"#.to_owned())
    };
    let app = app();
    assert_eq!(app.bucket(&read), Some("main".into()));
    assert_eq!(*read_paths.borrow(), vec![app.install_json_path()]);
    read_paths.borrow_mut().clear();
    assert_eq!(app.bucket_manifest_version(&read), Some("1.2.3".into()));
    assert_eq!(
        *read_paths.borrow(),
        vec![app.install_json_path(), app.bucket_manifest_path("main")]
    );
}

#[test]
fn unreadable_or_odd_files_give_nothing() {
    let app = app();
    let nothing = |_: &Path| None;
    assert_eq!(app.bucket(&nothing), None);
    assert_eq!(app.bucket_manifest_text(&nothing), None);
    assert_eq!(app.bucket_manifest_version(&nothing), None);
    assert_eq!(app.bucket_manifest_homepage(&nothing), None);
    let traversal = |_: &Path| Some(r#"{"bucket":"../etc","version":"1.2.3"}"#.to_owned());
    assert_eq!(app.bucket_manifest_version(&traversal), None);
    let no_manifest = |path: &Path| {
        if path.ends_with("install.json") {
            Some(r#"{"bucket":"main"}"#.to_owned())
        } else {
            None
        }
    };
    assert_eq!(app.bucket(&no_manifest), Some("main".into()));
    assert_eq!(app.bucket_manifest_version(&no_manifest), None);
}

#[test]
fn quotes_are_doubled() {
    assert_eq!(quote(""), "");
    assert_eq!(quote("plain"), "plain");
    assert_eq!(quote("O'Brien"), "O''Brien");
    assert_eq!(quote("''"), "''''");
    assert_eq!(quote("\u{e9}'\""), "\u{e9}''\"");
}

#[test]
fn the_update_program_is_written_out() {
    assert_eq!(
        update_program("a'b", "e", "d", 0, "l"),
        "Start-Transcript -Path 'l' -Force; \
         Write-Host (\"PowerShell $($PSVersionTable.PSVersion); git: \" + (Get-Command git -ErrorAction SilentlyContinue).Source); \
         Wait-Process -Id 0 -ErrorAction SilentlyContinue; \
         $updated = $false; \
         for ($attempt = 1; $attempt -le 3 -and -not $updated; $attempt++) { Write-Host \"scoop update 'a''b' (attempt $attempt)\"; scoop update 'a''b' 2>&1 | Out-Host; if ($LASTEXITCODE -eq 0) { $updated = $true } else { Start-Sleep -Seconds 5 } }; \
         Write-Host \"updated: $updated\"; \
         $env:AIUB_TRAY_RELAUNCH = '1'; \
         Start-Process -FilePath 'e' -WorkingDirectory 'd'; \
         Stop-Transcript"
    );
}

#[test]
fn process_ids_are_decimal() {
    for pid in [0, 9, 10, 4242, 100, u32::MAX] {
        let script = app().update_script(pid, Path::new("log"));
        assert!(
            script.contains(&format!("; Wait-Process -Id {pid} -ErrorAction")),
            "{script}"
        );
    }
}

#[test]
fn a_script_is_the_last_argument() {
    let argv = powershell_command("Get-Date; 'x'");
    assert_eq!(argv.len(), 7);
    let command = quiet_command(&argv).unwrap();
    assert_eq!(command.program, "powershell.exe");
    assert_eq!(command.args, argv[1..].to_vec());
    assert_eq!(command.args[5], "Get-Date; 'x'");
    assert_eq!(
        [command.stdin, command.stdout, command.stderr],
        [Handle::Null; 3]
    );
    assert!(!command.console_window);
    assert_eq!(command.removed_env, vec!["PSModulePath"]);
}

#[test]
fn an_empty_command_is_refused() {
    assert_eq!(quiet_command(&[]).unwrap_err(), "empty command");
    let unreachable = |_: &QuietCommand| -> Result<(), String> { panic!("started") };
    assert_eq!(
        spawn_detached(&[], &unreachable),
        Err("empty command".into())
    );
}

#[test]
fn starting_is_reported() {
    let argv = refresh_buckets_command();
    let works = |command: &QuietCommand| {
        assert_eq!(command.program, "powershell.exe");
        Ok(())
    };
    assert_eq!(spawn_detached(&argv, &works), Ok(()));
    let fails = |_: &QuietCommand| Err("no such file".to_owned());
    assert_eq!(
        spawn_detached(&argv, &fails),
        Err("could not start powershell.exe: no such file".into())
    );
    assert_eq!(
        start_outcome(&[], Err("denied".into())),
        Err("could not start : denied".into())
    );
}

#[test]
fn polls_are_judged() {
    let timeout: u128 = 90_500_000_000;
    let done = Poll::Exited {
        success: true,
        status: "exit status: 0".into(),
    };
    assert!(matches!(judge("p", timeout, done), Step::Finish(Ok(()))));
    let failed = Poll::Exited {
        success: false,
        status: "exit status: 1".into(),
    };
    assert!(
        matches!(judge("p", timeout, failed), Step::Finish(Err(m)) if m == "p exited with exit status: 1")
    );
    let early = Poll::Running {
        elapsed_nanos: timeout - 1,
    };
    assert!(matches!(judge("p", timeout, early), Step::Sleep(200)));
    let late = Poll::Running {
        elapsed_nanos: timeout,
    };
    assert!(matches!(judge("p", timeout, late), Step::Kill(m) if m == "p took longer than 90s"));
    let lost = Poll::Failed {
        error: "gone".into(),
    };
    assert!(
        matches!(judge("p", timeout, lost), Step::Finish(Err(m)) if m == "could not wait for p: gone")
    );
}

#[test]
fn shares_are_roots_like_any_other() {
    for root in ["//server/share/scoop", "//server/share", "///scoop", "\\\\server\\share"] {
        let app = ScoopApp {
            name: "tool".into(),
            root: root.into(),
        };
        assert_eq!(locate(&app.current_exe_path("tray")), Some(app.clone()), "{root}");
        let dir = popover_data_dir(Path::new(root));
        assert_eq!(
            dir.strip_prefix(root).unwrap(),
            Path::new("ai-usagebar/popover"),
            "{root}"
        );
    }
}

#[test]
fn distinct_cache_roots_have_distinct_profiles() {
    let roots = ["", "a", "a/b", "/a", "//a/b", "a/ai-usagebar/popover"];
    for (i, one) in roots.iter().enumerate() {
        for (j, other) in roots.iter().enumerate() {
            assert_eq!(
                popover_data_dir(Path::new(one)) == popover_data_dir(Path::new(other)),
                i == j,
                "{one} {other}"
            );
        }
    }
    assert_eq!(
        popover_data_dir(Path::new("a//b/.")),
        popover_data_dir(Path::new("a/b"))
    );
}

#[test]
fn versions_of_an_app_are_detected_alike() {
    for base in [
        "C:/scoop/apps/tool",
        "C:/scoop//apps/./tool/",
        "/apps/tool",
        "apps/tool",
        "//server/share/apps/tool",
        "//apps",
        "\\\\server",
        "\\\\?\\C:\\apps\\tool",
        "other/tool",
        "tool",
        "",
    ] {
        let base = Path::new(base);
        let one = base.join("current").join("tray.exe");
        let other = base.join("1.14:0").join("x");
        let seen: RefCell<Vec<PathBuf>> = RefCell::new(Vec::new());
        let probe = |path: &Path| {
            seen.borrow_mut().push(path.to_path_buf());
            true
        };
        let first = detect_with(&one, &probe);
        let second = detect_with(&other, &probe);
        assert_eq!(first, second, "{base:?}");
        assert_eq!(
            first.map(|app| app.root.into_os_string()),
            second.map(|app| app.root.into_os_string())
        );
        let seen = seen.into_inner();
        if !seen.is_empty() {
            assert_eq!(seen[0].as_os_str(), seen[1].as_os_str());
        }
    }
}

#[test]
fn single_quotes_in_the_script_are_counted() {
    let quotes = |text: &str| text.matches('\'').count();
    for name in ["tool", "o'b", "''"] {
        for root in ["C:/scoop", "C:/O'Brien/s'", "//server/sh'are", ""] {
            for log in ["l.log", "it's'", "'''"] {
                let app = ScoopApp {
                    name: name.into(),
                    root: root.into(),
                };
                let dir = app.current_dir().display().to_string();
                let script = app.update_script(7, Path::new(log));
                assert_eq!(
                    quotes(&script),
                    12 + 2 * quotes(log) + 4 * quotes(name) + 4 * quotes(&dir)
                );
                assert_eq!(quotes(&script) % 2, 0);
            }
        }
    }
}

use ntfy::lifecycle::{
    archive_path, backup_state, needs_working_dir, stamp_for, default_compose, default_state_path, now_stamp, ntfy_install,
    ntfy_update, resolve_destination_path, restore_state, run, Action, Channel, CommandOutcome,
    Event, LifecycleError, NtfyBackupArgs, NtfyInstallArgs, NtfyRestoreArgs, NtfyUpdateArgs, Stage,
    ToolOutput,
};

fn stamp_shaped(stamp: &str) -> bool {
    let n = stamp.len();
    n >= 15
        && stamp.chars().enumerate().all(|(i, c)| {
            if i == n - 7 {
                c == '-'
            } else {
                c.is_ascii_digit() || (i == 0 && (c == '+' || c == '-'))
            }
        })
}

fn ok(stdout: &str) -> Event {
    Event::Ran(CommandOutcome::Exited {
        success: true,
        status: "exit status: 0".to_string(),
        stdout: stdout.as_bytes().to_vec(),
        stderr: Vec::new(),
    })
}

fn failed(status: &str, stderr: &[u8]) -> Event {
    Event::Ran(CommandOutcome::Exited {
        success: false,
        status: status.to_string(),
        stdout: Vec::new(),
        stderr: stderr.to_vec(),
    })
}

fn argv(a: &Option<Action>) -> Vec<String> {
    match a {
        Some(Action::Run(c)) => c.argv.clone(),
        _ => panic!("expected a command"),
    }
}

fn failure(stage: &Stage) -> String {
    match stage {
        Stage::Failed(e) => e.message(),
        _ => panic!("expected a failure"),
    }
}

#[test]
fn channel_maps_to_image_tag() {
    assert_eq!(Channel::Latest.image_tag(), "latest");
    assert_eq!(Channel::Stable.image_tag(), "stable");
}

#[test]
fn channel_resolves_to_image_and_defaults_to_latest() {
    assert_eq!(Channel::Stable.image(), "binwiederhier/ntfy:stable");
    assert_eq!(Channel::Latest.image(), "binwiederhier/ntfy:latest");
    assert_eq!(Channel::default(), Channel::Latest);
    assert_eq!(default_compose(), "compose.yml");
    assert_eq!(default_state_path(), "/opt/ntfy");
}

#[test]
fn backup_rejects_missing_state_dir() {
    let args = NtfyBackupArgs {
        state_path: "/nonexistent/ntfy/state/path".to_string(),
        destination: "/tmp/ntfy-test-dest".to_string(),
    };
    let (stage, action) = backup_state(&args, Some("/work"));
    match action {
        Action::CheckDir { path } => assert_eq!(path, "/nonexistent/ntfy/state/path"),
        _ => panic!("expected a directory check"),
    }
    let (stage, action) = stage.step(Event::Checked(false));
    assert!(action.is_none());
    let err = failure(&stage);
    assert!(err.contains("not a directory"), "{err}");
    assert_eq!(err, "state path '/nonexistent/ntfy/state/path' is not a directory");
}

#[test]
fn restore_rejects_missing_tarball() {
    let args = NtfyRestoreArgs {
        from: "/nonexistent/backup.tar.gz".to_string(),
        state_path: "/tmp/ntfy-test-restore".to_string(),
    };
    let (stage, action) = restore_state(args);
    match action {
        Action::CheckFile { path } => assert_eq!(path, "/nonexistent/backup.tar.gz"),
        _ => panic!("expected a file check"),
    }
    let (stage, action) = stage.step(Event::Checked(false));
    assert!(action.is_none());
    let err = failure(&stage);
    assert!(err.contains("not found"), "{err}");
    assert_eq!(err, "backup tarball '/nonexistent/backup.tar.gz' not found");
}

#[test]
fn backup_then_restore_roundtrip() {
    let (stage, _) = backup_state(
        &NtfyBackupArgs {
            state_path: "/srv/state".to_string(),
            destination: "/srv/backups/".to_string(),
        },
        Some("/work"),
    );
    let (stage, action) = stage.step(Event::Checked(true));
    assert_eq!(argv(&action), vec!["mkdir", "-p", "/srv/backups/"]);
    let (stage, action) = stage.step(ok(""));
    let tar = argv(&action);
    assert_eq!(tar.len(), 6);
    assert_eq!(&tar[0..2], &["tar".to_string(), "-czf".to_string()]);
    assert_eq!(&tar[3..6], &["-C".to_string(), "/srv/state".to_string(), ".".to_string()]);
    let archive = tar[2].clone();
    assert!(archive.starts_with("/srv/backups/ntfy-state-"), "{archive}");
    assert!(archive.ends_with(".tar.gz"), "{archive}");
    // The stamp is `YYYYMMDD-HHMMSS`.
    let stamp = &archive["/srv/backups/ntfy-state-".len()..archive.len() - ".tar.gz".len()];
    assert_eq!(stamp.len(), 15);
    assert!(stamp_shaped(stamp), "{stamp}");
    let (stage, action) = stage.step(ok(""));
    assert!(action.is_none());
    let reported = match stage {
        Stage::Finished(ToolOutput::Backup(o)) => o.archive,
        _ => panic!("expected a finished backup"),
    };
    assert_eq!(reported, archive);

    let (stage, _) = restore_state(NtfyRestoreArgs {
        from: reported.clone(),
        state_path: "/srv/restored".to_string(),
    });
    let (stage, action) = stage.step(Event::Checked(true));
    assert_eq!(argv(&action), vec!["mkdir", "-p", "/srv/restored"]);
    let (stage, action) = stage.step(ok(""));
    assert_eq!(argv(&action), vec!["tar", "-xzf", reported.as_str(), "-C", "/srv/restored"]);
    let (stage, action) = stage.step(ok(""));
    assert!(action.is_none());
    match stage {
        Stage::Finished(ToolOutput::Restore(o)) => {
            assert!(o.restored);
            assert_eq!(o.state_path, "/srv/restored");
        },
        _ => panic!("expected a finished restore"),
    }
}

#[test]
fn install_brings_compose_up_and_logs_stdout() {
    let (stage, action) = ntfy_install(NtfyInstallArgs { compose_file: "my.yml".to_string() });
    assert_eq!(argv(&Some(action)), vec!["docker", "compose", "-f", "my.yml", "up", "-d"]);
    let (stage, action) = stage.step(ok("Container ntfy Started\n"));
    assert!(action.is_none());
    match stage {
        Stage::Finished(ToolOutput::Install(o)) => {
            assert!(o.provisioned);
            assert_eq!(o.log, "Container ntfy Started\n");
        },
        _ => panic!("expected a finished install"),
    }
}

#[test]
fn update_pulls_channel_image_then_recreates() {
    let (stage, action) = ntfy_update(NtfyUpdateArgs {
        channel: Channel::Stable,
        compose_file: "compose.yml".to_string(),
    });
    assert_eq!(argv(&Some(action)), vec!["docker", "pull", "binwiederhier/ntfy:stable"]);
    let (stage, action) = stage.step(ok("pulled"));
    assert_eq!(argv(&action), vec!["docker", "compose", "-f", "compose.yml", "up", "-d"]);
    let (stage, action) = stage.step(ok("recreated"));
    assert!(action.is_none());
    match stage {
        Stage::Finished(ToolOutput::Update(o)) => {
            assert!(o.updated);
            assert_eq!(o.image_tag, "stable");
            assert_eq!(o.log, "recreated");
        },
        _ => panic!("expected a finished update"),
    }
}

#[test]
fn failed_pull_stops_the_update_with_trimmed_stderr() {
    let (stage, _) = ntfy_update(NtfyUpdateArgs {
        channel: Channel::Latest,
        compose_file: "compose.yml".to_string(),
    });
    let (stage, action) = stage.step(failed("exit status: 1", b"  no such image\n"));
    assert!(action.is_none());
    assert_eq!(failure(&stage), "command failed (exit status: 1): no such image");
}

#[test]
fn failed_mkdir_stops_the_backup() {
    let (stage, _) = backup_state(
        &NtfyBackupArgs { state_path: "/srv/state".to_string(), destination: "/root/x".to_string() },
        Some("/work"),
    );
    let (stage, _) = stage.step(Event::Checked(true));
    let (stage, action) = stage.step(failed("exit status: 1", b"mkdir: Permission denied\n"));
    assert!(action.is_none());
    assert_eq!(failure(&stage), "command failed (exit status: 1): mkdir: Permission denied");
}

#[test]
fn spawn_failure_messages() {
    let e = run(CommandOutcome::SpawnFailed { detail: "No such file or directory (os error 2)".to_string() })
        .unwrap_err();
    assert_eq!(e.message(), "failed to spawn command");
    assert_eq!(e.message_chain(), "failed to spawn command: No such file or directory (os error 2)");
}

#[test]
fn run_gives_stdout_on_success_and_decodes_stderr_lossily() {
    let out = run(CommandOutcome::Exited {
        success: true,
        status: "exit status: 0".to_string(),
        stdout: vec![1, 2, 3],
        stderr: b"ignored".to_vec(),
    });
    let out = out.unwrap();
    assert_eq!(out.stdout, vec![1, 2, 3]);
    assert_eq!(out.status, "exit status: 0");
    assert_eq!(out.stderr, b"ignored".to_vec());
    let err = run(CommandOutcome::Exited {
        success: false,
        status: "signal: 9 (SIGKILL)".to_string(),
        stdout: Vec::new(),
        stderr: vec![b' ', 0xff, b'x', b'\t'],
    })
    .unwrap_err();
    match &err {
        LifecycleError::CommandFailed { status, stderr } => {
            assert_eq!(status, "signal: 9 (SIGKILL)");
            assert_eq!(stderr, "\u{FFFD}x");
        },
        _ => panic!("expected a command failure"),
    }
    assert_eq!(err.message(), "command failed (signal: 9 (SIGKILL)): \u{FFFD}x");
}

#[test]
fn archive_path_drops_trailing_slashes() {
    assert_eq!(archive_path("/tmp/b//", "20240102-030405"), "/tmp/b/ntfy-state-20240102-030405.tar.gz");
    assert_eq!(archive_path("/tmp/b", "s"), "/tmp/b/ntfy-state-s.tar.gz");
    assert_eq!(archive_path("/", "s"), "/ntfy-state-s.tar.gz");
}

#[test]
fn unanswered_event_repeats_the_pending_action() {
    let (stage, _) = ntfy_install(NtfyInstallArgs { compose_file: "compose.yml".to_string() });
    let (stage, action) = stage.step(Event::Checked(true));
    assert_eq!(argv(&action), vec!["docker", "compose", "-f", "compose.yml", "up", "-d"]);
    assert!(!stage.is_done());
    let (stage, _) = stage.step(ok(""));
    assert!(stage.is_done());
    let (stage, action) = stage.step(ok(""));
    assert!(action.is_none());
    assert!(stage.pending_action().is_none());
}

#[test]
fn restore_extracts_after_making_the_target() {
    let (stage, _) = restore_state(NtfyRestoreArgs {
        from: "/b/a.tar.gz".to_string(),
        state_path: "/t".to_string(),
    });
    let (stage, _) = stage.step(Event::Checked(true));
    let (stage, action) = stage.step(ok(""));
    assert_eq!(argv(&action), vec!["tar", "-xzf", "/b/a.tar.gz", "-C", "/t"]);
    let (stage, action) = stage.step(failed("exit status: 2", b"tar: bad archive"));
    assert!(action.is_none());
    assert_eq!(failure(&stage), "command failed (exit status: 2): tar: bad archive");
}

#[test]
fn relative_backup_destination_gives_an_absolute_archive() {
    let (stage, action) = backup_state(
        &NtfyBackupArgs { state_path: "state".to_string(), destination: "backups".to_string() },
        Some("/home/ops/"),
    );
    assert!(matches!(action, Action::CheckDir { ref path } if path == "state"));
    let (stage, action) = stage.step(Event::Checked(true));
    assert_eq!(argv(&action), vec!["mkdir", "-p", "/home/ops/backups"]);
    let (stage, action) = stage.step(ok(""));
    let tar = argv(&action);
    assert!(tar[2].starts_with("/home/ops/backups/ntfy-state-"), "{}", tar[2]);
    let (stage, _) = stage.step(ok(""));
    match stage {
        Stage::Finished(ToolOutput::Backup(o)) => assert!(o.archive.starts_with('/')),
        _ => panic!("expected a finished backup"),
    }
}

#[test]
fn destinations_resolve_against_the_working_directory() {
    assert_eq!(resolve_destination_path("backups", Some("/work")), "/work/backups");
    assert_eq!(resolve_destination_path("backups", Some("/")), "/backups");
    assert_eq!(resolve_destination_path("/abs/dir", Some("/work")), "/abs/dir");
    assert_eq!(resolve_destination_path("/abs/dir", None), "/abs/dir");
    assert_eq!(resolve_destination_path("", Some("/work")), "");
    assert!(needs_working_dir("backups"));
    assert!(!needs_working_dir("/backups"));
    assert!(!needs_working_dir(""));
}

#[test]
fn clock_stamp_has_the_archive_name_shape() {
    let stamp = now_stamp().ok().unwrap();
    assert!(stamp_shaped(&stamp), "{stamp}");
    assert!(!stamp.contains('/'));
}

#[test]
fn clock_error_messages() {
    assert_eq!(
        LifecycleError::ClockBeforeEpoch.message(),
        "system clock reads a time before the Unix epoch"
    );
    assert_eq!(
        LifecycleError::ClockOutOfRange.message(),
        "system clock reads a time out of the range of archive names"
    );
}

#[test]
fn stamps_for_clock_readings() {
    assert_eq!(stamp_for(Some(0)).ok().unwrap(), "19700101-000000");
    assert_eq!(stamp_for(Some(1_700_000_000)).ok().unwrap(), "20231114-221320");
    assert_eq!(stamp_for(Some(253_402_300_799)).ok().unwrap(), "99991231-235959");
    assert_eq!(stamp_for(Some(253_402_300_800)).ok().unwrap(), "+100000101-000000");
    assert!(matches!(stamp_for(None), Err(LifecycleError::ClockBeforeEpoch)));
    assert!(matches!(stamp_for(Some(u64::MAX)), Err(LifecycleError::ClockOutOfRange)));
    assert!(matches!(stamp_for(Some(i64::MAX as u64)), Err(LifecycleError::ClockOutOfRange)));
}

#[test]
fn stamps_of_ordered_readings_sort_in_order() {
    let readings = [0u64, 59, 60, 3_599, 86_399, 86_400, 951_782_400, 1_700_000_000, 4_102_444_800];
    let stamps: Vec<String> = readings.iter().map(|s| stamp_for(Some(*s)).ok().unwrap()).collect();
    for w in stamps.windows(2) {
        assert!(w[0] < w[1], "{} !< {}", w[0], w[1]);
    }
}

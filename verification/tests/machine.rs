use webgate::boot::Action;
use webgate::boot::BootState;
use webgate::boot::Event;
use webgate::boot::ForkOutcome;
use webgate::boot::LineResult;
use webgate::boot::Phase;
use webgate::boot::StreamTarget;
use webgate::boot::boot_init;
use webgate::boot::mount_filesystems;
use webgate::boot::mount_log_storage;
use webgate::boot::run_initialization;
use webgate::boot::setup_temporary_filesystems;
use webgate::boot::start_browser;
use webgate::boot::symlink_plan;
use webgate::command::CommandOutcome;
use webgate::command::Report;

fn ok_outcome() -> CommandOutcome {
    CommandOutcome::Exited { success: true, code: Some(0) }
}

fn st(phase: Phase, target: StreamTarget) -> BootState {
    BootState { phase, target }
}

fn read_line(text: &str) -> Event {
    Event::LineRead { result: LineResult::Line { text: text.to_string() } }
}

#[test]
fn plans_hold_the_fixed_command_lists() {
    assert_eq!(mount_filesystems(), vec![
        "mkdir -p /proc".to_string(),
        "mkdir -p /dev".to_string(),
        "mount -t proc none /proc".to_string(),
        "mount -t devtmpfs devtmpfs /dev".to_string(),
        "mount -t sysfs sysfs /sys".to_string(),
    ]);
    assert_eq!(setup_temporary_filesystems(), vec![
        "mkdir -p /dev/shm".to_string(),
        "mount -t tmpfs -o nosuid,nodev,uid=1000,gid=1000,mode=0777 shmfs /dev/shm".to_string(),
        "mount -t tmpfs -o uid=1000,gid=1000,mode=0777 tmpfs /tmp".to_string(),
    ]);
    assert_eq!(mount_log_storage(), vec![
        "mkdir -p /mnt".to_string(),
        "mount /dev/sda1 /mnt".to_string(),
    ]);
    let links = symlink_plan();
    assert_eq!(links, vec![
        ("/usr/bin".to_string(), "/bin".to_string()),
        ("/usr/lib".to_string(), "/lib".to_string()),
        ("/usr/lib64".to_string(), "/lib64".to_string()),
    ]);
}

#[test]
fn browser_command_is_fixed() {
    let expected = "/usr/bin/ui/content_shell --no-sandbox --in-process-gpu --single-process --ozone-platform=drm --content-shell-hide-toolbar http://www.example.com";
    assert_eq!(start_browser(), expected.to_string());
}

#[test]
fn boot_runs_steps_in_order_until_console() {
    let (mut s, reports, mut action) = boot_init();
    assert_eq!(reports[0], Report::Line { text: "Starting webgate initializer...".to_string() });
    let mut commands: Vec<String> = Vec::new();
    let mut links = 0;
    let mut forked = false;
    let mut console_opened = false;
    let mut log_opened = false;
    let mut device_checked = false;
    loop {
        let event = match &action {
            Action::MakeSymlink { .. } => {
                links += 1;
                Event::SymlinkDone { ok: true }
            },
            Action::RunCommand { line } => {
                commands.push(line.clone());
                Event::CommandDone { outcome: ok_outcome() }
            },
            Action::ForkSelf => {
                forked = true;
                Event::ForkDone { outcome: ForkOutcome::Parent }
            },
            Action::OpenConsole => {
                console_opened = true;
                Event::ConsoleOpenDone { ok: true }
            },
            Action::OpenLogFile => {
                log_opened = true;
                Event::LogOpenDone { ok: true }
            },
            Action::CheckDevice { path } => {
                assert_eq!(path, "/dev/sda1");
                device_checked = true;
                Event::DeviceChecked { present: true }
            },
            Action::Sleep { .. } => Event::Slept,
            Action::ReadConsoleLine => break,
            Action::Exit { .. } => panic!("boot exited before reaching the console"),
        };
        let (s2, _reports, a2) = run_initialization(s, event);
        s = s2;
        action = a2;
    }
    assert_eq!(links, 3);
    assert!(forked && console_opened && log_opened && device_checked);
    let mut expected = mount_filesystems();
    expected.extend(setup_temporary_filesystems());
    expected.extend(mount_log_storage());
    expected.push(start_browser());
    assert_eq!(commands, expected);
    assert_eq!(s.phase, Phase::ConsolePrompt);
    assert_eq!(s.target, StreamTarget::LogFile);
}

#[test]
fn symlink_outcomes_are_reported_and_never_fatal() {
    let s = st(Phase::Symlinks { idx: 0 }, StreamTarget::Inherited);
    let (s1, reports, action) = run_initialization(s, Event::SymlinkDone { ok: true });
    assert_eq!(reports, vec![Report::SymlinkCreated {
        target: "/usr/bin".to_string(),
        link: "/bin".to_string(),
    }]);
    assert_eq!(action, Action::MakeSymlink {
        target: "/usr/lib".to_string(),
        link: "/lib".to_string(),
    });
    assert_eq!(s1.phase, Phase::Symlinks { idx: 1 });

    // A failed link is logged individually and the sequence moves on.
    let (s2, reports, action) = run_initialization(s1, Event::SymlinkDone { ok: false });
    assert_eq!(reports, vec![Report::SymlinkFailed {
        target: "/usr/lib".to_string(),
        link: "/lib".to_string(),
    }]);
    assert_eq!(action, Action::MakeSymlink {
        target: "/usr/lib64".to_string(),
        link: "/lib64".to_string(),
    });
    assert_eq!(s2.phase, Phase::Symlinks { idx: 2 });
}

#[test]
fn console_scenario_runs_one_command_then_exits() {
    let mut s = st(Phase::ConsolePrompt, StreamTarget::LogFile);

    // "echo hello" is handed to the executor.
    let (s1, reports, action) = run_initialization(s, read_line("echo hello\n"));
    assert!(reports.is_empty());
    assert_eq!(action, Action::RunCommand { line: "echo hello".to_string() });
    assert_eq!(s1.phase, Phase::ConsoleCommand);
    s = s1;

    // The command's outcome is ignored; the console prompts again.
    let (s2, reports, action) = run_initialization(s, Event::CommandDone { outcome: ok_outcome() });
    assert!(reports.is_empty());
    assert_eq!(action, Action::ReadConsoleLine);
    assert_eq!(s2.phase, Phase::ConsolePrompt);
    s = s2;

    // A blank line is ignored.
    let (s3, reports, action) = run_initialization(s, read_line("\n"));
    assert!(reports.is_empty());
    assert_eq!(action, Action::ReadConsoleLine);
    assert_eq!(s3.phase, Phase::ConsolePrompt);
    s = s3;

    // "exit" ends the loop with a farewell and exit code 0.
    let (s4, reports, action) = run_initialization(s, read_line("exit\n"));
    assert_eq!(reports[0], Report::Line { text: "Exiting interactive shell...".to_string() });
    assert_eq!(action, Action::Exit { code: 0 });
    assert_eq!(s4.phase, Phase::Finished);
}

#[test]
fn quit_also_ends_the_console() {
    let s = st(Phase::ConsolePrompt, StreamTarget::Console);
    let (s2, reports, action) = run_initialization(s, read_line("  quit \n"));
    assert_eq!(reports[0], Report::Line { text: "Exiting interactive shell...".to_string() });
    assert_eq!(action, Action::Exit { code: 0 });
    assert_eq!(s2.phase, Phase::Finished);
}

#[test]
fn end_of_input_ends_the_console_quietly() {
    let s = st(Phase::ConsolePrompt, StreamTarget::LogFile);
    let (s2, reports, action) =
        run_initialization(s, Event::LineRead { result: LineResult::EndOfInput });
    assert_eq!(action, Action::Exit { code: 0 });
    assert_eq!(s2.phase, Phase::Finished);
    assert_eq!(reports[0], Report::Line {
        text: "Initialization sequence completed successfully".to_string(),
    });
}

#[test]
fn console_open_failure_ends_the_console() {
    let s = st(Phase::ConsolePrompt, StreamTarget::LogFile);
    let (s2, reports, action) =
        run_initialization(s, Event::LineRead { result: LineResult::OpenFailed });
    assert_eq!(reports[0], Report::Line { text: "Failed to open console for input".to_string() });
    assert_eq!(action, Action::Exit { code: 0 });
    assert_eq!(s2.phase, Phase::Finished);
}

#[test]
fn executor_failure_never_stops_the_console() {
    let outcomes = vec![
        CommandOutcome::SpawnFailed { error: "No such file or directory".to_string() },
        CommandOutcome::Exited { success: false, code: Some(127) },
        CommandOutcome::Exited { success: true, code: Some(0) },
    ];
    for outcome in outcomes {
        let s = st(Phase::ConsoleCommand, StreamTarget::LogFile);
        let (s2, _reports, action) =
            run_initialization(s, Event::CommandDone { outcome });
        assert_eq!(s2.phase, Phase::ConsolePrompt);
        assert_eq!(action, Action::ReadConsoleLine);
    }
}

#[test]
fn executor_failure_never_stops_the_boot() {
    let s = st(Phase::CoreMounts { idx: 2 }, StreamTarget::Inherited);
    let outcome = CommandOutcome::SpawnFailed { error: "missing".to_string() };
    let (s2, reports, action) = run_initialization(s, Event::CommandDone { outcome });
    assert_eq!(s2.phase, Phase::CoreMounts { idx: 3 });
    assert_eq!(reports, vec![Report::SpawnFailed { error: "missing".to_string() }]);
    assert_eq!(action, Action::RunCommand {
        line: "mount -t devtmpfs devtmpfs /dev".to_string(),
    });
}

#[test]
fn fork_parent_proceeds_within_one_step() {
    let s = st(Phase::SyncFork, StreamTarget::Inherited);
    let (s2, reports, action) =
        run_initialization(s, Event::ForkDone { outcome: ForkOutcome::Parent });
    assert_eq!(reports[0], Report::Line { text: "Started background sync process".to_string() });
    assert_eq!(s2.phase, Phase::TerminalRedirect);
    assert_eq!(action, Action::OpenConsole);
}

#[test]
fn fork_failure_is_fatal() {
    let s = st(Phase::SyncFork, StreamTarget::Inherited);
    let (s2, reports, action) = run_initialization(s, Event::ForkDone {
        outcome: ForkOutcome::Failed { error: "Resource temporarily unavailable".to_string() },
    });
    assert_eq!(reports[0], Report::Line { text: "Failed to fork sync process".to_string() });
    assert_eq!(reports[1], Report::InitFailed {
        error: "Resource temporarily unavailable".to_string(),
    });
    assert_eq!(action, Action::Exit { code: 1 });
    assert_eq!(s2.phase, Phase::Finished);
}

#[test]
fn sync_child_loops_forever() {
    let s = st(Phase::SyncFork, StreamTarget::Inherited);
    let (mut s, reports, mut action) =
        run_initialization(s, Event::ForkDone { outcome: ForkOutcome::Child });
    assert!(reports.is_empty());
    for _ in 0..10 {
        match &action {
            Action::Sleep { seconds } => {
                assert_eq!(*seconds, 2);
                let (s2, _r, a2) = run_initialization(s, Event::Slept);
                s = s2;
                action = a2;
            },
            Action::RunCommand { line } => {
                assert_eq!(line, "sync");
                let (s2, _r, a2) =
                    run_initialization(s, Event::CommandDone { outcome: ok_outcome() });
                s = s2;
                action = a2;
            },
            other => panic!("the sync child may only sleep and sync, got {:?}", other),
        }
        assert!(s.phase == Phase::SyncChildDelay || s.phase == Phase::SyncChildRun);
    }
}

#[test]
fn missing_log_device_blocks_forever() {
    let mut s = st(Phase::DeviceWait, StreamTarget::Console);
    let mut action = Action::CheckDevice { path: "/dev/sda1".to_string() };
    for _ in 0..50 {
        let event = match &action {
            Action::CheckDevice { path } => {
                assert_eq!(path, "/dev/sda1");
                Event::DeviceChecked { present: false }
            },
            Action::Sleep { seconds } => {
                assert_eq!(*seconds, 2);
                Event::Slept
            },
            other => panic!("device wait may only poll and sleep, got {:?}", other),
        };
        let (s2, _reports, a2) = run_initialization(s, event);
        s = s2;
        action = a2;
        assert!(
            s.phase == Phase::DeviceWait || s.phase == Phase::DeviceRetrySleep,
            "the sequence must not pass step six while the device is missing"
        );
    }
}

#[test]
fn terminal_phase_retries_until_open_succeeds() {
    let s = st(Phase::TerminalRedirect, StreamTarget::Inherited);
    let (s1, reports, action) = run_initialization(s, Event::ConsoleOpenDone { ok: false });
    assert_eq!(reports[0], Report::Line {
        text: "Failed to redirect output to the terminal".to_string(),
    });
    assert_eq!(action, Action::Sleep { seconds: 2 });
    assert_eq!(s1.phase, Phase::TerminalRetrySleep);
    assert_eq!(s1.target, StreamTarget::Inherited);

    let (s2, _reports, action) = run_initialization(s1, Event::Slept);
    assert_eq!(action, Action::OpenConsole);
    assert_eq!(s2.phase, Phase::TerminalRedirect);

    let (s3, _reports, _action) = run_initialization(s2, Event::ConsoleOpenDone { ok: true });
    assert_eq!(s3.target, StreamTarget::Console);
    assert_eq!(s3.phase, Phase::TmpMounts { idx: 0 });
}

#[test]
fn log_phase_is_terminal_for_the_stream_target() {
    let s = st(Phase::LogRedirect, StreamTarget::Console);

    // A failed open retries and keeps the console target.
    let (s1, reports, action) = run_initialization(s, Event::LogOpenDone { ok: false });
    assert_eq!(reports[0], Report::Line { text: "Failed to redirect to a log file!".to_string() });
    assert_eq!(action, Action::Sleep { seconds: 2 });
    assert_eq!(s1.target, StreamTarget::Console);

    let (s2, _reports, _action) = run_initialization(s1, Event::Slept);
    let (mut s3, _reports, _action) = run_initialization(s2, Event::LogOpenDone { ok: true });
    assert_eq!(s3.target, StreamTarget::LogFile);

    // Every later step keeps the log file target.
    let later: Vec<Event> = vec![
        Event::CommandDone { outcome: ok_outcome() },
        read_line("ls\n"),
        Event::CommandDone { outcome: CommandOutcome::Exited { success: false, code: Some(1) } },
        Event::LineRead { result: LineResult::EndOfInput },
    ];
    for event in later {
        let (next, _reports, _action) = run_initialization(s3, event);
        assert_eq!(next.target, StreamTarget::LogFile);
        s3 = next;
    }
    assert_eq!(s3.phase, Phase::Finished);
}

//! The boot sequencer, stream redirector, sync daemon and console loop,
//! modelled as one event-driven state machine.
//!
//! The machine owns every decision of the orchestrator: which step runs
//! next, which command line it issues, how a step's outcome is reported,
//! when a retry loop sleeps and retries, when the boot is fatal, and when
//! the process exits.  A thin driver outside the library performs each
//! [`Action`] against the operating system — spawning a command, forking,
//! opening the console or log file and duplicating its descriptor onto the
//! standard streams, checking a device path, sleeping, reading a line —
//! and feeds the observed outcome back as the next [`Event`].

use vstd::prelude::*;

use crate::command::CommandOutcome;
use crate::command::Report;
use crate::command::ReportView;
use crate::command::outcome_reports;
use crate::command::execute_report;
use crate::text::trimmed;

verus! {

/// Whether debug/verbose mode is enabled: it gates the diagnostic command
/// trace, the persistent log storage mount and the log redirection phase.
pub const DEBUG_MODE: bool = true;

/// Seconds slept between attempts of every blocking retry loop.
pub const RETRY_DELAY_SECONDS: u64 = 2;

/// Seconds the background sync daemon sleeps between sync invocations.
pub const SYNC_INTERVAL_SECONDS: u64 = 2;

// === The fixed configuration the sequencer issues ===

/// The compatibility symbolic links, as (target, link) pairs.
pub open spec fn symlink_pairs() -> Seq<(Seq<char>, Seq<char>)> {
    seq![("/usr/bin"@, "/bin"@), ("/usr/lib"@, "/lib"@), ("/usr/lib64"@, "/lib64"@)]
}

/// The ordered commands that mount the core virtual filesystems.
pub open spec fn core_mount_lines() -> Seq<Seq<char>> {
    seq![
        "mkdir -p /proc"@,
        "mkdir -p /dev"@,
        "mount -t proc none /proc"@,
        "mount -t devtmpfs devtmpfs /dev"@,
        "mount -t sysfs sysfs /sys"@,
    ]
}

/// The ordered commands that set up the temporary filesystems.
pub open spec fn tmp_mount_lines() -> Seq<Seq<char>> {
    seq![
        "mkdir -p /dev/shm"@,
        "mount -t tmpfs -o nosuid,nodev,uid=1000,gid=1000,mode=0777 shmfs /dev/shm"@,
        "mount -t tmpfs -o uid=1000,gid=1000,mode=0777 tmpfs /tmp"@,
    ]
}

/// The ordered commands that mount the persistent log storage device.
pub open spec fn log_mount_lines() -> Seq<Seq<char>> {
    seq!["mkdir -p /mnt"@, "mount /dev/sda1 /mnt"@]
}

/// The block device that must appear before the log storage is mounted.
pub open spec fn log_device_path() -> Seq<char> {
    "/dev/sda1"@
}

/// The fixed flag list handed to the browser.
pub open spec fn browser_arguments() -> Seq<Seq<char>> {
    seq![
        "--no-sandbox"@,
        "--in-process-gpu"@,
        "--single-process"@,
        "--ozone-platform=drm"@,
        "--content-shell-hide-toolbar"@,
    ]
}

/// `base` followed by each part, single-space separated.
pub open spec fn joined(base: Seq<char>, parts: Seq<Seq<char>>) -> Seq<char>
    decreases parts.len(),
{
    if parts.len() == 0 {
        base
    } else {
        joined(base, parts.drop_last()) + " "@ + parts.last()
    }
}

/// The one shell command that launches the browser: the executable, its
/// flags, and the target URL as the final argument.
pub open spec fn browser_command_spec() -> Seq<char> {
    joined("/usr/bin/ui/content_shell"@, browser_arguments().push("http://www.example.com"@))
}

// === Plan providers: the configuration as executable values ===

/// The ordered command lines that mount the core virtual filesystems
/// (process table, device tree, system info).
pub fn mount_filesystems() -> (r: Vec<String>)
    ensures
        r.deep_view() == core_mount_lines(),
{
    let mut r: Vec<String> = Vec::new();
    r.push(String::from_str("mkdir -p /proc"));
    r.push(String::from_str("mkdir -p /dev"));
    r.push(String::from_str("mount -t proc none /proc"));
    r.push(String::from_str("mount -t devtmpfs devtmpfs /dev"));
    r.push(String::from_str("mount -t sysfs sysfs /sys"));
    proof {
        assert(r.deep_view() =~= core_mount_lines());
    }
    r
}

/// The ordered command lines that set up the temporary filesystems
/// (shared memory and temp directory, with fixed options).
pub fn setup_temporary_filesystems() -> (r: Vec<String>)
    ensures
        r.deep_view() == tmp_mount_lines(),
{
    let mut r: Vec<String> = Vec::new();
    r.push(String::from_str("mkdir -p /dev/shm"));
    r.push(String::from_str("mount -t tmpfs -o nosuid,nodev,uid=1000,gid=1000,mode=0777 shmfs /dev/shm"));
    r.push(String::from_str("mount -t tmpfs -o uid=1000,gid=1000,mode=0777 tmpfs /tmp"));
    proof {
        assert(r.deep_view() =~= tmp_mount_lines());
    }
    r
}

/// The ordered command lines that mount the persistent log storage device
/// once it has appeared.
pub fn mount_log_storage() -> (r: Vec<String>)
    ensures
        r.deep_view() == log_mount_lines(),
{
    let mut r: Vec<String> = Vec::new();
    r.push(String::from_str("mkdir -p /mnt"));
    r.push(String::from_str("mount /dev/sda1 /mnt"));
    proof {
        assert(r.deep_view() =~= log_mount_lines());
    }
    r
}

/// The compatibility symbolic links to create, as (target, link) pairs.
pub fn symlink_plan() -> (r: Vec<(String, String)>)
    ensures
        r@.len() == symlink_pairs().len(),
        forall|i: int|
            0 <= i < r@.len() ==> (#[trigger] r@[i]).0@ == symlink_pairs()[i].0 && r@[i].1@
                == symlink_pairs()[i].1,
{
    let mut r: Vec<(String, String)> = Vec::new();
    r.push((String::from_str("/usr/bin"), String::from_str("/bin")));
    r.push((String::from_str("/usr/lib"), String::from_str("/lib")));
    r.push((String::from_str("/usr/lib64"), String::from_str("/lib64")));
    r
}

/// Builds the complete browser launch command: the fixed executable path,
/// the fixed flag list, and the target URL appended last.
pub fn start_browser() -> (r: String)
    ensures
        r@ == browser_command_spec(),
{
    let mut parts: Vec<String> = Vec::new();
    parts.push(String::from_str("--no-sandbox"));
    parts.push(String::from_str("--in-process-gpu"));
    parts.push(String::from_str("--single-process"));
    parts.push(String::from_str("--ozone-platform=drm"));
    parts.push(String::from_str("--content-shell-hide-toolbar"));
    parts.push(String::from_str("http://www.example.com"));
    proof {
        assert(parts.deep_view() =~= browser_arguments().push("http://www.example.com"@));
    }
    let mut r = String::from_str("/usr/bin/ui/content_shell");
    proof {
        assert(parts.deep_view().subrange(0, 0) =~= Seq::<Seq<char>>::empty());
    }
    let mut i: usize = 0;
    while i < parts.len()
        invariant
            i <= parts.len(),
            parts.deep_view() == browser_arguments().push("http://www.example.com"@),
            r@ == joined("/usr/bin/ui/content_shell"@, parts.deep_view().subrange(0, i as int)),
        decreases parts.len() - i,
    {
        r.append(" ");
        r.append(parts[i].as_str());
        proof {
            let pre = parts.deep_view().subrange(0, i as int + 1);
            assert(pre.drop_last() =~= parts.deep_view().subrange(0, i as int));
            assert(pre.last() == parts.deep_view()[i as int]);
        }
        i = i + 1;
    }
    proof {
        assert(parts.deep_view().subrange(0, parts.len() as int) =~= parts.deep_view());
    }
    r
}

// === The machine's state, events and actions ===

/// Where the sequencer stands, including the per-list command index, the
/// detached sync child's own loop, and the retry-sleep states of the
/// blocking loops.
#[derive(Clone, Copy, Debug, PartialEq, Eq, Structural)]
pub enum Phase {
    /// Creating compatibility symbolic links, best effort.
    Symlinks { idx: usize },
    /// Mounting the core virtual filesystems.
    CoreMounts { idx: usize },
    /// Forking the background sync daemon.
    SyncFork,
    /// Sync child: sleeping between sync invocations.
    SyncChildDelay,
    /// Sync child: a sync command is running.
    SyncChildRun,
    /// Terminal phase of stream redirection: opening the console device.
    TerminalRedirect,
    /// Terminal phase failed; sleeping before the retry.
    TerminalRetrySleep,
    /// Setting up the temporary filesystems.
    TmpMounts { idx: usize },
    /// Waiting for the persistent log storage device to appear.
    DeviceWait,
    /// Device not present; sleeping before polling again.
    DeviceRetrySleep,
    /// Mounting the persistent log storage.
    LogMounts { idx: usize },
    /// Log phase of stream redirection: opening the log file.
    LogRedirect,
    /// Log phase failed; sleeping before the retry.
    LogRetrySleep,
    /// The browser launch command is running.
    Browser,
    /// Console loop: a line is being read from the console.
    ConsolePrompt,
    /// Console loop: an operator command is running.
    ConsoleCommand,
    /// The process has been told to exit; no further events are expected.
    Finished,
}

/// The target the standard output and error descriptors currently point at.
#[derive(Clone, Copy, Debug, PartialEq, Eq, Structural)]
pub enum StreamTarget {
    /// Whatever the kernel handed the process at start.
    Inherited,
    /// The console device, after the terminal redirection phase succeeded.
    Console,
    /// The log file, after the log redirection phase succeeded.
    LogFile,
}

/// The whole state the orchestrator carries between events.
#[derive(Clone, Copy, Debug, PartialEq, Eq, Structural)]
pub struct BootState {
    pub phase: Phase,
    pub target: StreamTarget,
}

/// What `fork` reported.
#[derive(Debug)]
pub enum ForkOutcome {
    /// This is the child process.
    Child,
    /// This is the parent; the child was created.
    Parent,
    /// The fork failed; `error` is the text of the OS error.
    Failed { error: String },
}

/// What one attempt to read an operator line produced.
#[derive(Debug)]
pub enum LineResult {
    /// The console device could not be opened for reading.
    OpenFailed,
    /// The console reported end of input (no bytes read).
    EndOfInput,
    /// Reading from the console failed.
    ReadFailed,
    /// One raw line, as read (terminator included if one was read).
    Line { text: String },
}

/// The outcome of the last [`Action`], observed by the driver and handed
/// back to the machine.
#[derive(Debug)]
pub enum Event {
    /// A `MakeSymlink` action finished; `ok` is whether the link was made.
    SymlinkDone { ok: bool },
    /// A `RunCommand` action finished with the given outcome.
    CommandDone { outcome: CommandOutcome },
    /// A `ForkSelf` action finished.
    ForkDone { outcome: ForkOutcome },
    /// An `OpenConsole` action finished; on success the console descriptor
    /// was duplicated onto the standard streams.
    ConsoleOpenDone { ok: bool },
    /// An `OpenLogFile` action finished; on success the log descriptor was
    /// duplicated onto the standard streams.
    LogOpenDone { ok: bool },
    /// A `CheckDevice` action finished; `present` is whether the path exists.
    DeviceChecked { present: bool },
    /// A `Sleep` action finished.
    Slept,
    /// A `ReadConsoleLine` action finished.
    LineRead { result: LineResult },
}

/// What the driver must do next against the operating system.
#[derive(Debug, PartialEq, Eq)]
pub enum Action {
    /// Create the symbolic link `link` pointing at `target`.
    MakeSymlink { target: String, link: String },
    /// Execute the shell command line through the command executor.
    RunCommand { line: String },
    /// Fork the process.
    ForkSelf,
    /// Open the console device for writing; on success announce the
    /// redirection and duplicate the descriptor onto the standard output
    /// and error descriptors (open, announce, then duplicate — a line
    /// printed after the switch lands on the new target).
    OpenConsole,
    /// Open the log file for writing, creating and truncating it, then
    /// announce and duplicate as for the console.
    OpenLogFile,
    /// Test whether the given device path exists.
    CheckDevice { path: String },
    /// Sleep for the given number of seconds.
    Sleep { seconds: u64 },
    /// Print the prompt, open the console for reading, and read one line.
    ReadConsoleLine,
    /// Terminate the whole process with the given exit code.
    Exit { code: i32 },
}

/// The mathematical content of an action.
pub enum ActionView {
    MakeSymlink { target: Seq<char>, link: Seq<char> },
    RunCommand { line: Seq<char> },
    ForkSelf,
    OpenConsole,
    OpenLogFile,
    CheckDevice { path: Seq<char> },
    Sleep { seconds: u64 },
    ReadConsoleLine,
    Exit { code: i32 },
}

impl View for Action {
    type V = ActionView;

    open spec fn view(&self) -> ActionView {
        match self {
            Action::MakeSymlink { target, link } => ActionView::MakeSymlink {
                target: target@,
                link: link@,
            },
            Action::RunCommand { line } => ActionView::RunCommand { line: line@ },
            Action::ForkSelf => ActionView::ForkSelf,
            Action::OpenConsole => ActionView::OpenConsole,
            Action::OpenLogFile => ActionView::OpenLogFile,
            Action::CheckDevice { path } => ActionView::CheckDevice { path: path@ },
            Action::Sleep { seconds } => ActionView::Sleep { seconds: *seconds },
            Action::ReadConsoleLine => ActionView::ReadConsoleLine,
            Action::Exit { code } => ActionView::Exit { code: *code },
        }
    }
}

// === The transition relation ===

/// A fixed line of diagnostic text.
pub open spec fn line_view(text: Seq<char>) -> ReportView {
    ReportView::Line { text }
}

/// The report for one symbolic-link attempt.
pub open spec fn symlink_report(ok: bool, i: int) -> ReportView {
    if ok {
        ReportView::SymlinkCreated { target: symlink_pairs()[i].0, link: symlink_pairs()[i].1 }
    } else {
        ReportView::SymlinkFailed { target: symlink_pairs()[i].0, link: symlink_pairs()[i].1 }
    }
}

/// The two closing lines printed when the sequence ends successfully.
pub open spec fn finish_reports() -> Seq<ReportView> {
    seq![
        line_view("Initialization sequence completed successfully"@),
        line_view("System initialization completed successfully"@),
    ]
}

/// Phases the machine can stand in once the terminal redirection phase has
/// succeeded.
pub open spec fn after_log_phase(p: Phase) -> bool {
    ||| p is Browser
    ||| p is ConsolePrompt
    ||| p is ConsoleCommand
    ||| p is Finished
}

/// A well-formed state: every command index is in range, and once the
/// standard streams target the log file, only the phases after the log
/// redirection can stand.
pub open spec fn wf(s: BootState) -> bool {
    &&& (s.phase matches Phase::Symlinks { idx } ==> idx < symlink_pairs().len())
    &&& (s.phase matches Phase::CoreMounts { idx } ==> idx < core_mount_lines().len())
    &&& (s.phase matches Phase::TmpMounts { idx } ==> idx < tmp_mount_lines().len())
    &&& (s.phase matches Phase::LogMounts { idx } ==> idx < log_mount_lines().len())
    &&& (s.target is LogFile ==> after_log_phase(s.phase))
}

/// The event the machine expects in each phase; the driver produces
/// exactly the event its last action's doc comment names.
pub open spec fn expects(p: Phase, e: Event) -> bool {
    match p {
        Phase::Symlinks { .. } => e is SymlinkDone,
        Phase::CoreMounts { .. } => e is CommandDone,
        Phase::SyncFork => e is ForkDone,
        Phase::SyncChildDelay => e is Slept,
        Phase::SyncChildRun => e is CommandDone,
        Phase::TerminalRedirect => e is ConsoleOpenDone,
        Phase::TerminalRetrySleep => e is Slept,
        Phase::TmpMounts { .. } => e is CommandDone,
        Phase::DeviceWait => e is DeviceChecked,
        Phase::DeviceRetrySleep => e is Slept,
        Phase::LogMounts { .. } => e is CommandDone,
        Phase::LogRedirect => e is LogOpenDone,
        Phase::LogRetrySleep => e is Slept,
        Phase::Browser => e is CommandDone,
        Phase::ConsolePrompt => e is LineRead,
        Phase::ConsoleCommand => e is CommandDone,
        Phase::Finished => false,
    }
}

/// The transition relation of the orchestrator: from state `s` under event
/// `e`, the machine moves to `s2`, emits `reports`, and issues `action`.
pub open spec fn transition(
    s: BootState,
    e: Event,
    s2: BootState,
    reports: Seq<ReportView>,
    action: ActionView,
) -> bool {
    match s.phase {
        Phase::Symlinks { idx } => match e {
            Event::SymlinkDone { ok } => {
                &&& s2.target == s.target
                &&& if idx + 1 < symlink_pairs().len() {
                    &&& s2.phase == (Phase::Symlinks { idx: (idx + 1) as usize })
                    &&& reports == seq![symlink_report(ok, idx as int)]
                    &&& action == (ActionView::MakeSymlink {
                        target: symlink_pairs()[idx + 1].0,
                        link: symlink_pairs()[idx + 1].1,
                    })
                } else {
                    &&& s2.phase == (Phase::CoreMounts { idx: 0 })
                    &&& reports == seq![
                        symlink_report(ok, idx as int),
                        line_view("[2/9]: Mounting basic filesystems"@),
                    ]
                    &&& action == (ActionView::RunCommand { line: core_mount_lines()[0] })
                }
            },
            _ => false,
        },
        Phase::CoreMounts { idx } => match e {
            Event::CommandDone { outcome } => {
                &&& s2.target == s.target
                &&& if idx + 1 < core_mount_lines().len() {
                    &&& s2.phase == (Phase::CoreMounts { idx: (idx + 1) as usize })
                    &&& reports == outcome_reports(outcome)
                    &&& action == (ActionView::RunCommand { line: core_mount_lines()[idx + 1] })
                } else {
                    &&& s2.phase == Phase::SyncFork
                    &&& reports == outcome_reports(outcome).push(
                        line_view("[3/9]: Starting background sync process"@),
                    )
                    &&& action == ActionView::ForkSelf
                }
            },
            _ => false,
        },
        Phase::SyncFork => match e {
            Event::ForkDone { outcome } => match outcome {
                ForkOutcome::Child => {
                    &&& s2.phase == Phase::SyncChildDelay
                    &&& s2.target == s.target
                    &&& reports == Seq::<ReportView>::empty()
                    &&& action == (ActionView::Sleep { seconds: SYNC_INTERVAL_SECONDS })
                },
                ForkOutcome::Parent => {
                    &&& s2.phase == Phase::TerminalRedirect
                    &&& s2.target == s.target
                    &&& reports == seq![
                        line_view("Started background sync process"@),
                        line_view("[4/9]: Configuring output redirection"@),
                    ]
                    &&& action == ActionView::OpenConsole
                },
                ForkOutcome::Failed { error } => {
                    &&& s2.phase == Phase::Finished
                    &&& s2.target == s.target
                    &&& reports == seq![
                        line_view("Failed to fork sync process"@),
                        ReportView::InitFailed { error: error@ },
                        line_view("Check system configuration and try again"@),
                    ]
                    &&& action == (ActionView::Exit { code: 1 })
                },
            },
            _ => false,
        },
        Phase::SyncChildDelay => match e {
            Event::Slept => {
                &&& s2.phase == Phase::SyncChildRun
                &&& s2.target == s.target
                &&& reports == Seq::<ReportView>::empty()
                &&& action == (ActionView::RunCommand { line: "sync"@ })
            },
            _ => false,
        },
        Phase::SyncChildRun => match e {
            Event::CommandDone { outcome } => {
                &&& s2.phase == Phase::SyncChildDelay
                &&& s2.target == s.target
                &&& reports == outcome_reports(outcome)
                &&& action == (ActionView::Sleep { seconds: SYNC_INTERVAL_SECONDS })
            },
            _ => false,
        },
        Phase::TerminalRedirect => match e {
            Event::ConsoleOpenDone { ok } => if ok {
                &&& s2.phase == (Phase::TmpMounts { idx: 0 })
                &&& s2.target == StreamTarget::Console
                &&& reports == seq![line_view("[5/9]: Setting up temporary filesystems"@)]
                &&& action == (ActionView::RunCommand { line: tmp_mount_lines()[0] })
            } else {
                &&& s2.phase == Phase::TerminalRetrySleep
                &&& s2.target == s.target
                &&& reports == seq![line_view("Failed to redirect output to the terminal"@)]
                &&& action == (ActionView::Sleep { seconds: RETRY_DELAY_SECONDS })
            },
            _ => false,
        },
        Phase::TerminalRetrySleep => match e {
            Event::Slept => {
                &&& s2.phase == Phase::TerminalRedirect
                &&& s2.target == s.target
                &&& reports == Seq::<ReportView>::empty()
                &&& action == ActionView::OpenConsole
            },
            _ => false,
        },
        Phase::TmpMounts { idx } => match e {
            Event::CommandDone { outcome } => {
                &&& s2.target == s.target
                &&& if idx + 1 < tmp_mount_lines().len() {
                    &&& s2.phase == (Phase::TmpMounts { idx: (idx + 1) as usize })
                    &&& reports == outcome_reports(outcome)
                    &&& action == (ActionView::RunCommand { line: tmp_mount_lines()[idx + 1] })
                } else if DEBUG_MODE {
                    &&& s2.phase == Phase::DeviceWait
                    &&& reports == outcome_reports(outcome) + seq![
                        line_view("[6/9]: Mounting log storage device"@),
                        line_view("Waiting for log storage device to become available..."@),
                    ]
                    &&& action == (ActionView::CheckDevice { path: log_device_path() })
                } else {
                    &&& s2.phase == Phase::Browser
                    &&& reports == outcome_reports(outcome) + seq![
                        line_view("[6/9]: Mounting log storage device"@),
                        line_view("[7/9]: Setting up logging"@),
                        line_view("[8/9]: Launching web browser"@),
                        line_view("Starting web browser..."@),
                    ]
                    &&& action == (ActionView::RunCommand { line: browser_command_spec() })
                }
            },
            _ => false,
        },
        Phase::DeviceWait => match e {
            Event::DeviceChecked { present } => if present {
                &&& s2.phase == (Phase::LogMounts { idx: 0 })
                &&& s2.target == s.target
                &&& reports == seq![
                    line_view("Log storage device detected, proceeding with mount..."@),
                ]
                &&& action == (ActionView::RunCommand { line: log_mount_lines()[0] })
            } else {
                &&& s2.phase == Phase::DeviceRetrySleep
                &&& s2.target == s.target
                &&& reports == seq![line_view("Log storage device not ready, waiting..."@)]
                &&& action == (ActionView::Sleep { seconds: RETRY_DELAY_SECONDS })
            },
            _ => false,
        },
        Phase::DeviceRetrySleep => match e {
            Event::Slept => {
                &&& s2.phase == Phase::DeviceWait
                &&& s2.target == s.target
                &&& reports == Seq::<ReportView>::empty()
                &&& action == (ActionView::CheckDevice { path: log_device_path() })
            },
            _ => false,
        },
        Phase::LogMounts { idx } => match e {
            Event::CommandDone { outcome } => {
                &&& s2.target == s.target
                &&& if idx + 1 < log_mount_lines().len() {
                    &&& s2.phase == (Phase::LogMounts { idx: (idx + 1) as usize })
                    &&& reports == outcome_reports(outcome)
                    &&& action == (ActionView::RunCommand { line: log_mount_lines()[idx + 1] })
                } else {
                    &&& s2.phase == Phase::LogRedirect
                    &&& reports == outcome_reports(outcome) + seq![
                        line_view("Log storage device mounted successfully"@),
                        line_view("[7/9]: Setting up logging"@),
                    ]
                    &&& action == ActionView::OpenLogFile
                }
            },
            _ => false,
        },
        Phase::LogRedirect => match e {
            Event::LogOpenDone { ok } => if ok {
                &&& s2.phase == Phase::Browser
                &&& s2.target == StreamTarget::LogFile
                &&& reports == seq![
                    line_view("[8/9]: Launching web browser"@),
                    line_view("Starting web browser..."@),
                ]
                &&& action == (ActionView::RunCommand { line: browser_command_spec() })
            } else {
                &&& s2.phase == Phase::LogRetrySleep
                &&& s2.target == s.target
                &&& reports == seq![line_view("Failed to redirect to a log file!"@)]
                &&& action == (ActionView::Sleep { seconds: RETRY_DELAY_SECONDS })
            },
            _ => false,
        },
        Phase::LogRetrySleep => match e {
            Event::Slept => {
                &&& s2.phase == Phase::LogRedirect
                &&& s2.target == s.target
                &&& reports == Seq::<ReportView>::empty()
                &&& action == ActionView::OpenLogFile
            },
            _ => false,
        },
        Phase::Browser => match e {
            Event::CommandDone { outcome } => {
                &&& s2.phase == Phase::ConsolePrompt
                &&& s2.target == s.target
                &&& reports == outcome_reports(outcome) + seq![
                    line_view("[9/9]: Starting interactive shell"@),
                    line_view("Starting interactive shell. Type commands or Ctrl+C to exit."@),
                ]
                &&& action == ActionView::ReadConsoleLine
            },
            _ => false,
        },
        Phase::ConsolePrompt => match e {
            Event::LineRead { result } => match result {
                LineResult::OpenFailed => {
                    &&& s2.phase == Phase::Finished
                    &&& s2.target == s.target
                    &&& reports == seq![line_view("Failed to open console for input"@)]
                        + finish_reports()
                    &&& action == (ActionView::Exit { code: 0 })
                },
                LineResult::EndOfInput => {
                    &&& s2.phase == Phase::Finished
                    &&& s2.target == s.target
                    &&& reports == finish_reports()
                    &&& action == (ActionView::Exit { code: 0 })
                },
                LineResult::ReadFailed => {
                    &&& s2.phase == Phase::Finished
                    &&& s2.target == s.target
                    &&& reports == seq![line_view("Failed to read command from console"@)]
                        + finish_reports()
                    &&& action == (ActionView::Exit { code: 0 })
                },
                LineResult::Line { text } => {
                    let t = trimmed(text@);
                    if t.len() == 0 {
                        &&& s2.phase == Phase::ConsolePrompt
                        &&& s2.target == s.target
                        &&& reports == Seq::<ReportView>::empty()
                        &&& action == ActionView::ReadConsoleLine
                    } else if t == "exit"@ || t == "quit"@ {
                        &&& s2.phase == Phase::Finished
                        &&& s2.target == s.target
                        &&& reports == seq![line_view("Exiting interactive shell..."@)]
                            + finish_reports()
                        &&& action == (ActionView::Exit { code: 0 })
                    } else {
                        &&& s2.phase == Phase::ConsoleCommand
                        &&& s2.target == s.target
                        &&& reports == Seq::<ReportView>::empty()
                        &&& action == (ActionView::RunCommand { line: t })
                    }
                },
            },
            _ => false,
        },
        Phase::ConsoleCommand => match e {
            Event::CommandDone { outcome } => {
                &&& s2.phase == Phase::ConsolePrompt
                &&& s2.target == s.target
                &&& reports == outcome_reports(outcome)
                &&& action == ActionView::ReadConsoleLine
            },
            _ => false,
        },
        Phase::Finished => false,
    }
}

// === The executable machine ===

fn line_report(text: &str) -> (r: Report)
    ensures
        r@ == line_view(text@),
{
    Report::Line { text: String::from_str(text) }
}

fn push_line(reports: &mut Vec<Report>, text: &str)
    ensures
        final(reports)@.len() == old(reports)@.len() + 1,
        final(reports).deep_view() == old(reports).deep_view().push(line_view(text@)),
{
    reports.push(line_report(text));
    proof {
        assert(reports.deep_view() =~= old(reports).deep_view().push(line_view(text@)));
    }
}

fn push_finish(reports: &mut Vec<Report>)
    ensures
        final(reports).deep_view() == old(reports).deep_view() + finish_reports(),
{
    push_line(reports, "Initialization sequence completed successfully");
    push_line(reports, "System initialization completed successfully");
    proof {
        assert(reports.deep_view() =~= old(reports).deep_view() + finish_reports());
    }
}

/// The machine's starting point: the initial state, the opening reports,
/// and the first action (the first compatibility symbolic link).
pub fn boot_init() -> (r: (BootState, Vec<Report>, Action))
    ensures
        r.0 == (BootState { phase: Phase::Symlinks { idx: 0 }, target: StreamTarget::Inherited }),
        wf(r.0),
        r.1.deep_view() == seq![
            line_view("Starting webgate initializer..."@),
            line_view("Initializing system components..."@),
            line_view("[1/9]: Setting up symbolic links"@),
            line_view("Creating symbolic links..."@),
        ],
        r.2@ == (ActionView::MakeSymlink { target: symlink_pairs()[0].0, link: symlink_pairs()[0].1 }),
{
    let mut reports: Vec<Report> = Vec::new();
    push_line(&mut reports, "Starting webgate initializer...");
    push_line(&mut reports, "Initializing system components...");
    push_line(&mut reports, "[1/9]: Setting up symbolic links");
    push_line(&mut reports, "Creating symbolic links...");
    proof {
        assert(reports.deep_view() =~= seq![
            line_view("Starting webgate initializer..."@),
            line_view("Initializing system components..."@),
            line_view("[1/9]: Setting up symbolic links"@),
            line_view("Creating symbolic links..."@),
        ]);
    }
    let pairs = symlink_plan();
    let target = pairs[0].0.clone();
    let link = pairs[0].1.clone();
    (
        BootState { phase: Phase::Symlinks { idx: 0 }, target: StreamTarget::Inherited },
        reports,
        Action::MakeSymlink { target, link },
    )
}

/// One step of the initialization machine: from the current state and the
/// outcome of the last action, decide the next state, the diagnostic
/// reports to print, and the next action.
pub fn run_initialization(s: BootState, e: Event) -> (r: (BootState, Vec<Report>, Action))
    requires
        wf(s),
        expects(s.phase, e),
    ensures
        transition(s, e, r.0, r.1.deep_view(), r.2@),
        wf(r.0),
{
    match s.phase {
        Phase::Symlinks { idx } => match e {
            Event::SymlinkDone { ok } => {
                let pairs = symlink_plan();
                let mut reports: Vec<Report> = Vec::new();
                let target = pairs[idx].0.clone();
                let link = pairs[idx].1.clone();
                if ok {
                    reports.push(Report::SymlinkCreated { target, link });
                } else {
                    reports.push(Report::SymlinkFailed { target, link });
                }
                proof {
                    assert(reports.deep_view() =~= seq![symlink_report(ok, idx as int)]);
                }
                if idx + 1 < pairs.len() {
                    let next_target = pairs[idx + 1].0.clone();
                    let next_link = pairs[idx + 1].1.clone();
                    (
                        BootState { phase: Phase::Symlinks { idx: idx + 1 }, target: s.target },
                        reports,
                        Action::MakeSymlink { target: next_target, link: next_link },
                    )
                } else {
                    push_line(&mut reports, "[2/9]: Mounting basic filesystems");
                    let cmds = mount_filesystems();
                    let line = cmds[0].clone();
                    proof {
                        assert(line@ == cmds.deep_view()[0]);
                    }
                    proof {
                        assert(reports.deep_view() =~= seq![
                            symlink_report(ok, idx as int),
                            line_view("[2/9]: Mounting basic filesystems"@),
                        ]);
                    }
                    (
                        BootState { phase: Phase::CoreMounts { idx: 0 }, target: s.target },
                        reports,
                        Action::RunCommand { line },
                    )
                }
            },
            _ => unreached(),
        },
        Phase::CoreMounts { idx } => match e {
            Event::CommandDone { outcome } => {
                let mut reports = execute_report(&outcome);
                let cmds = mount_filesystems();
                if idx + 1 < cmds.len() {
                    let line = cmds[idx + 1].clone();
                    proof {
                        assert(line@ == cmds.deep_view()[idx as int + 1]);
                    }
                    (
                        BootState { phase: Phase::CoreMounts { idx: idx + 1 }, target: s.target },
                        reports,
                        Action::RunCommand { line },
                    )
                } else {
                    push_line(&mut reports, "[3/9]: Starting background sync process");
                    (
                        BootState { phase: Phase::SyncFork, target: s.target },
                        reports,
                        Action::ForkSelf,
                    )
                }
            },
            _ => unreached(),
        },
        Phase::SyncFork => match e {
            Event::ForkDone { outcome } => match outcome {
                ForkOutcome::Child => {
                    let reports: Vec<Report> = Vec::new();
                    proof {
                        assert(reports.deep_view() =~= Seq::<ReportView>::empty());
                    }
                    (
                        BootState { phase: Phase::SyncChildDelay, target: s.target },
                        reports,
                        Action::Sleep { seconds: SYNC_INTERVAL_SECONDS },
                    )
                },
                ForkOutcome::Parent => {
                    let mut reports: Vec<Report> = Vec::new();
                    push_line(&mut reports, "Started background sync process");
                    push_line(&mut reports, "[4/9]: Configuring output redirection");
                    proof {
                        assert(reports.deep_view() =~= seq![
                            line_view("Started background sync process"@),
                            line_view("[4/9]: Configuring output redirection"@),
                        ]);
                    }
                    (
                        BootState { phase: Phase::TerminalRedirect, target: s.target },
                        reports,
                        Action::OpenConsole,
                    )
                },
                ForkOutcome::Failed { error } => {
                    let mut reports: Vec<Report> = Vec::new();
                    let ghost error_view = error@;
                    push_line(&mut reports, "Failed to fork sync process");
                    let ghost before = reports@;
                    let ghost before_deep = reports.deep_view();
                    reports.push(Report::InitFailed { error });
                    proof {
                        assert(before_deep[0] == before[0].deep_view());
                        assert(reports.deep_view() =~= seq![
                            line_view("Failed to fork sync process"@),
                            ReportView::InitFailed { error: error_view },
                        ]);
                    }
                    push_line(&mut reports, "Check system configuration and try again");
                    proof {
                        assert(reports.deep_view() =~= seq![
                            line_view("Failed to fork sync process"@),
                            ReportView::InitFailed { error: error_view },
                            line_view("Check system configuration and try again"@),
                        ]);
                    }
                    (
                        BootState { phase: Phase::Finished, target: s.target },
                        reports,
                        Action::Exit { code: 1 },
                    )
                },
            },
            _ => unreached(),
        },
        Phase::SyncChildDelay => match e {
            Event::Slept => {
                let reports: Vec<Report> = Vec::new();
                proof {
                    assert(reports.deep_view() =~= Seq::<ReportView>::empty());
                }
                (
                    BootState { phase: Phase::SyncChildRun, target: s.target },
                    reports,
                    Action::RunCommand { line: String::from_str("sync") },
                )
            },
            _ => unreached(),
        },
        Phase::SyncChildRun => match e {
            Event::CommandDone { outcome } => {
                let reports = execute_report(&outcome);
                (
                    BootState { phase: Phase::SyncChildDelay, target: s.target },
                    reports,
                    Action::Sleep { seconds: SYNC_INTERVAL_SECONDS },
                )
            },
            _ => unreached(),
        },
        Phase::TerminalRedirect => match e {
            Event::ConsoleOpenDone { ok } => if ok {
                let mut reports: Vec<Report> = Vec::new();
                push_line(&mut reports, "[5/9]: Setting up temporary filesystems");
                proof {
                    assert(reports.deep_view() =~= seq![line_view("[5/9]: Setting up temporary filesystems"@)]);
                }
                let cmds = setup_temporary_filesystems();
                proof {
                    assert(cmds@.len() == cmds.deep_view().len());
                }
                let line = cmds[0].clone();
                proof {
                    assert(line@ == cmds.deep_view()[0]);
                }
                (
                    BootState { phase: Phase::TmpMounts { idx: 0 }, target: StreamTarget::Console },
                    reports,
                    Action::RunCommand { line },
                )
            } else {
                let mut reports: Vec<Report> = Vec::new();
                push_line(&mut reports, "Failed to redirect output to the terminal");
                proof {
                    assert(reports.deep_view() =~= seq![line_view("Failed to redirect output to the terminal"@)]);
                }
                (
                    BootState { phase: Phase::TerminalRetrySleep, target: s.target },
                    reports,
                    Action::Sleep { seconds: RETRY_DELAY_SECONDS },
                )
            },
            _ => unreached(),
        },
        Phase::TerminalRetrySleep => match e {
            Event::Slept => {
                let reports: Vec<Report> = Vec::new();
                proof {
                    assert(reports.deep_view() =~= Seq::<ReportView>::empty());
                }
                (
                    BootState { phase: Phase::TerminalRedirect, target: s.target },
                    reports,
                    Action::OpenConsole,
                )
            },
            _ => unreached(),
        },
        Phase::TmpMounts { idx } => match e {
            Event::CommandDone { outcome } => {
                let mut reports = execute_report(&outcome);
                let cmds = setup_temporary_filesystems();
                if idx + 1 < cmds.len() {
                    let line = cmds[idx + 1].clone();
                    proof {
                        assert(line@ == cmds.deep_view()[idx as int + 1]);
                    }
                    (
                        BootState { phase: Phase::TmpMounts { idx: idx + 1 }, target: s.target },
                        reports,
                        Action::RunCommand { line },
                    )
                } else if DEBUG_MODE {
                    push_line(&mut reports, "[6/9]: Mounting log storage device");
                    push_line(&mut reports, "Waiting for log storage device to become available...");
                    proof {
                        assert(reports.deep_view() =~= outcome_reports(outcome) + seq![
                            line_view("[6/9]: Mounting log storage device"@),
                            line_view("Waiting for log storage device to become available..."@),
                        ]);
                    }
                    (
                        BootState { phase: Phase::DeviceWait, target: s.target },
                        reports,
                        Action::CheckDevice { path: String::from_str("/dev/sda1") },
                    )
                } else {
                    push_line(&mut reports, "[6/9]: Mounting log storage device");
                    push_line(&mut reports, "[7/9]: Setting up logging");
                    push_line(&mut reports, "[8/9]: Launching web browser");
                    push_line(&mut reports, "Starting web browser...");
                    proof {
                        assert(reports.deep_view() =~= outcome_reports(outcome) + seq![
                            line_view("[6/9]: Mounting log storage device"@),
                            line_view("[7/9]: Setting up logging"@),
                            line_view("[8/9]: Launching web browser"@),
                            line_view("Starting web browser..."@),
                        ]);
                    }
                    (
                        BootState { phase: Phase::Browser, target: s.target },
                        reports,
                        Action::RunCommand { line: start_browser() },
                    )
                }
            },
            _ => unreached(),
        },
        Phase::DeviceWait => match e {
            Event::DeviceChecked { present } => if present {
                let mut reports: Vec<Report> = Vec::new();
                push_line(&mut reports, "Log storage device detected, proceeding with mount...");
                proof {
                    assert(reports.deep_view() =~= seq![line_view("Log storage device detected, proceeding with mount..."@)]);
                }
                let cmds = mount_log_storage();
                proof {
                    assert(cmds@.len() == cmds.deep_view().len());
                }
                let line = cmds[0].clone();
                proof {
                    assert(line@ == cmds.deep_view()[0]);
                }
                (
                    BootState { phase: Phase::LogMounts { idx: 0 }, target: s.target },
                    reports,
                    Action::RunCommand { line },
                )
            } else {
                let mut reports: Vec<Report> = Vec::new();
                push_line(&mut reports, "Log storage device not ready, waiting...");
                proof {
                    assert(reports.deep_view() =~= seq![line_view("Log storage device not ready, waiting..."@)]);
                }
                (
                    BootState { phase: Phase::DeviceRetrySleep, target: s.target },
                    reports,
                    Action::Sleep { seconds: RETRY_DELAY_SECONDS },
                )
            },
            _ => unreached(),
        },
        Phase::DeviceRetrySleep => match e {
            Event::Slept => {
                let reports: Vec<Report> = Vec::new();
                proof {
                    assert(reports.deep_view() =~= Seq::<ReportView>::empty());
                }
                (
                    BootState { phase: Phase::DeviceWait, target: s.target },
                    reports,
                    Action::CheckDevice { path: String::from_str("/dev/sda1") },
                )
            },
            _ => unreached(),
        },
        Phase::LogMounts { idx } => match e {
            Event::CommandDone { outcome } => {
                let mut reports = execute_report(&outcome);
                let cmds = mount_log_storage();
                if idx + 1 < cmds.len() {
                    let line = cmds[idx + 1].clone();
                    proof {
                        assert(line@ == cmds.deep_view()[idx as int + 1]);
                    }
                    (
                        BootState { phase: Phase::LogMounts { idx: idx + 1 }, target: s.target },
                        reports,
                        Action::RunCommand { line },
                    )
                } else {
                    push_line(&mut reports, "Log storage device mounted successfully");
                    push_line(&mut reports, "[7/9]: Setting up logging");
                    proof {
                        assert(reports.deep_view() =~= outcome_reports(outcome) + seq![
                            line_view("Log storage device mounted successfully"@),
                            line_view("[7/9]: Setting up logging"@),
                        ]);
                    }
                    (
                        BootState { phase: Phase::LogRedirect, target: s.target },
                        reports,
                        Action::OpenLogFile,
                    )
                }
            },
            _ => unreached(),
        },
        Phase::LogRedirect => match e {
            Event::LogOpenDone { ok } => if ok {
                let mut reports: Vec<Report> = Vec::new();
                push_line(&mut reports, "[8/9]: Launching web browser");
                push_line(&mut reports, "Starting web browser...");
                proof {
                    assert(reports.deep_view() =~= seq![
                        line_view("[8/9]: Launching web browser"@),
                        line_view("Starting web browser..."@),
                    ]);
                }
                (
                    BootState { phase: Phase::Browser, target: StreamTarget::LogFile },
                    reports,
                    Action::RunCommand { line: start_browser() },
                )
            } else {
                let mut reports: Vec<Report> = Vec::new();
                push_line(&mut reports, "Failed to redirect to a log file!");
                proof {
                    assert(reports.deep_view() =~= seq![line_view("Failed to redirect to a log file!"@)]);
                }
                (
                    BootState { phase: Phase::LogRetrySleep, target: s.target },
                    reports,
                    Action::Sleep { seconds: RETRY_DELAY_SECONDS },
                )
            },
            _ => unreached(),
        },
        Phase::LogRetrySleep => match e {
            Event::Slept => {
                let reports: Vec<Report> = Vec::new();
                proof {
                    assert(reports.deep_view() =~= Seq::<ReportView>::empty());
                }
                (
                    BootState { phase: Phase::LogRedirect, target: s.target },
                    reports,
                    Action::OpenLogFile,
                )
            },
            _ => unreached(),
        },
        Phase::Browser => match e {
            Event::CommandDone { outcome } => {
                let mut reports = execute_report(&outcome);
                push_line(&mut reports, "[9/9]: Starting interactive shell");
                push_line(&mut reports, "Starting interactive shell. Type commands or Ctrl+C to exit.");
                proof {
                    assert(reports.deep_view() =~= outcome_reports(outcome) + seq![
                        line_view("[9/9]: Starting interactive shell"@),
                        line_view("Starting interactive shell. Type commands or Ctrl+C to exit."@),
                    ]);
                }
                (
                    BootState { phase: Phase::ConsolePrompt, target: s.target },
                    reports,
                    Action::ReadConsoleLine,
                )
            },
            _ => unreached(),
        },
        Phase::ConsolePrompt => match e {
            Event::LineRead { result } => match result {
                LineResult::OpenFailed => {
                    let mut reports: Vec<Report> = Vec::new();
                    push_line(&mut reports, "Failed to open console for input");
                    push_finish(&mut reports);
                    proof {
                        assert(reports.deep_view() =~= seq![
                            line_view("Failed to open console for input"@),
                        ] + finish_reports());
                    }
                    (
                        BootState { phase: Phase::Finished, target: s.target },
                        reports,
                        Action::Exit { code: 0 },
                    )
                },
                LineResult::EndOfInput => {
                    let mut reports: Vec<Report> = Vec::new();
                    push_finish(&mut reports);
                    proof {
                        assert(reports.deep_view() =~= finish_reports());
                    }
                    (
                        BootState { phase: Phase::Finished, target: s.target },
                        reports,
                        Action::Exit { code: 0 },
                    )
                },
                LineResult::ReadFailed => {
                    let mut reports: Vec<Report> = Vec::new();
                    push_line(&mut reports, "Failed to read command from console");
                    push_finish(&mut reports);
                    proof {
                        assert(reports.deep_view() =~= seq![
                            line_view("Failed to read command from console"@),
                        ] + finish_reports());
                    }
                    (
                        BootState { phase: Phase::Finished, target: s.target },
                        reports,
                        Action::Exit { code: 0 },
                    )
                },
                LineResult::Line { text } => {
                    let t = crate::text::trim_line(text.as_str());
                    if t.unicode_len() == 0 {
                        let reports: Vec<Report> = Vec::new();
                        proof {
                            assert(reports.deep_view() =~= Seq::<ReportView>::empty());
                        }
                        (
                            BootState { phase: Phase::ConsolePrompt, target: s.target },
                            reports,
                            Action::ReadConsoleLine,
                        )
                    } else {
                        let exit_word = String::from_str("exit");
                        let quit_word = String::from_str("quit");
                        if t == exit_word || t == quit_word {
                            let mut reports: Vec<Report> = Vec::new();
                            push_line(&mut reports, "Exiting interactive shell...");
                            push_finish(&mut reports);
                            proof {
                                assert(reports.deep_view() =~= seq![
                                    line_view("Exiting interactive shell..."@),
                                ] + finish_reports());
                            }
                            (
                                BootState { phase: Phase::Finished, target: s.target },
                                reports,
                                Action::Exit { code: 0 },
                            )
                        } else {
                            let reports: Vec<Report> = Vec::new();
                            proof {
                                assert(reports.deep_view() =~= Seq::<ReportView>::empty());
                            }
                            (
                                BootState { phase: Phase::ConsoleCommand, target: s.target },
                                reports,
                                Action::RunCommand { line: t },
                            )
                        }
                    }
                },
            },
            _ => unreached(),
        },
        Phase::ConsoleCommand => match e {
            Event::CommandDone { outcome } => {
                let reports = execute_report(&outcome);
                (
                    BootState { phase: Phase::ConsolePrompt, target: s.target },
                    reports,
                    Action::ReadConsoleLine,
                )
            },
            _ => unreached(),
        },
        Phase::Finished => unreached(),
    }
}

// === Laws of the machine ===

/// Law: the command executor never propagates an error outward.  Whatever a
/// spawned command's outcome — the target missing, a non-zero exit, a clean
/// exit — the machine carries on: it never exits the process and never
/// reaches the terminal phase on a command outcome.
pub proof fn lemma_executor_never_fatal(
    s: BootState,
    e: Event,
    s2: BootState,
    reports: Seq<ReportView>,
    action: ActionView,
)
    requires
        wf(s),
        expects(s.phase, e),
        e is CommandDone,
        transition(s, e, s2, reports, action),
    ensures
        !(action is Exit),
        !(s2.phase is Finished),
{
}

/// Law: the log redirection phase is terminal.  Once the standard streams
/// target the log file, no step of the machine ever moves them off it.
pub proof fn lemma_log_target_terminal(
    s: BootState,
    e: Event,
    s2: BootState,
    reports: Seq<ReportView>,
    action: ActionView,
)
    requires
        wf(s),
        expects(s.phase, e),
        transition(s, e, s2, reports, action),
        s.target is LogFile,
    ensures
        s2.target is LogFile,
{
}

/// Law: the sync daemon start is decided in one step.  A parent fork
/// outcome proceeds immediately to the next boot step (the terminal
/// redirection); a fork failure is fatal, exiting with code 1; the child
/// enters its own sync loop.
pub proof fn lemma_fork_outcomes(
    s: BootState,
    e: Event,
    s2: BootState,
    reports: Seq<ReportView>,
    action: ActionView,
)
    requires
        wf(s),
        s.phase is SyncFork,
        expects(s.phase, e),
        transition(s, e, s2, reports, action),
    ensures
        (e matches Event::ForkDone { outcome: ForkOutcome::Parent } ==> s2.phase
            is TerminalRedirect && action is OpenConsole),
        (e matches Event::ForkDone { outcome: ForkOutcome::Failed { .. } } ==> s2.phase
            is Finished && action == (ActionView::Exit { code: 1 })),
        (e matches Event::ForkDone { outcome: ForkOutcome::Child } ==> s2.phase
            is SyncChildDelay),
{
}

/// Law: the forked sync child never returns to the boot flow.  From its
/// two phases it only sleeps and runs the sync command, forever.
pub proof fn lemma_sync_child_stays(
    s: BootState,
    e: Event,
    s2: BootState,
    reports: Seq<ReportView>,
    action: ActionView,
)
    requires
        wf(s),
        s.phase is SyncChildDelay || s.phase is SyncChildRun,
        expects(s.phase, e),
        transition(s, e, s2, reports, action),
    ensures
        s2.phase is SyncChildDelay || s2.phase is SyncChildRun,
        !(action is Exit),
        action is Sleep || action is RunCommand,
{
}

/// Law: while the persistent log device does not appear, the machine stays
/// in the device-wait pair of phases, only sleeping and polling again; it
/// never reaches the log redirection, the browser launch, or the console.
pub proof fn lemma_device_wait_blocks(
    s: BootState,
    e: Event,
    s2: BootState,
    reports: Seq<ReportView>,
    action: ActionView,
)
    requires
        wf(s),
        s.phase is DeviceWait || s.phase is DeviceRetrySleep,
        expects(s.phase, e),
        transition(s, e, s2, reports, action),
        !(e matches Event::DeviceChecked { present: true }),
    ensures
        s2.phase is DeviceWait || s2.phase is DeviceRetrySleep,
        action is Sleep || action is CheckDevice,
{
}


/// Law: the process exit discipline.  The machine tells the driver to exit
/// exactly when it reaches its terminal phase; the code is 1 only for the
/// one fatal step (the sync daemon fork failing) and 0 on every normal end
/// of the console loop.
pub proof fn lemma_exit_codes(
    s: BootState,
    e: Event,
    s2: BootState,
    reports: Seq<ReportView>,
    action: ActionView,
)
    requires
        wf(s),
        expects(s.phase, e),
        transition(s, e, s2, reports, action),
    ensures
        action is Exit <==> s2.phase is Finished,
        action == (ActionView::Exit { code: 1 }) ==> s.phase is SyncFork,
        (action matches ActionView::Exit { code } ==> code == 0 || code == 1),
{
}

} // verus!

//! Shell-command preparation and outcome handling.
//!
//! A raw line is tokenized, its first token qualified against the default
//! binary directory, and the fixed environment attached; the resulting plan
//! is handed to the driver, which spawns the process and reports back a
//! [`CommandOutcome`].  Whatever the outcome — spawn failure, non-zero exit,
//! clean exit — the executor only ever produces log reports; it never
//! surfaces an error to its caller.

use vstd::prelude::*;

use crate::text::parse_shell_command;
use crate::text::tokens_of;

verus! {

/// The command name qualified against the default binary directory: a name
/// that does not begin with the path-root marker is prefixed with `/bin/`.
pub open spec fn qualified_spec(name: Seq<char>) -> Seq<char> {
    if name.len() > 0 && name[0] == '/' {
        name
    } else {
        "/bin/"@ + name
    }
}

/// Qualifies a bare command name by prefixing the default binary directory;
/// an already-rooted name is left unchanged.
pub fn qualify_command(name: &str) -> (r: String)
    ensures
        r@ == qualified_spec(name@),
{
    if name.unicode_len() > 0 && name.get_char(0) == '/' {
        String::from_str(name)
    } else {
        let mut r = String::from_str("/bin/");
        r.append(name);
        r
    }
}

/// The fixed environment injected into every spawned command, as
/// name/value pairs.
pub open spec fn environment_spec() -> Seq<(Seq<char>, Seq<char>)> {
    seq![
        ("EGL_DEBUG"@, "1"@),
        ("EGL_LOG_LEVEL"@, "debug"@),
        ("DRI_DEVICE"@, "/dev/dri/card0"@),
        ("LIBGL_ALWAYS_SOFTWARE"@, "0"@),
        ("LD_LIBRARY_PATH"@, "/lib:/usr/lib:/lib64:/usr/lib/x86_64-linux-gnu"@),
        ("PATH"@, "/bin:/usr/bin"@),
    ]
}

/// The graphics, library-path and search-path variables set on every
/// spawned process, replacing any inherited values for these names.
pub fn command_environment() -> (r: Vec<(String, String)>)
    ensures
        r@.len() == environment_spec().len(),
        forall|i: int|
            0 <= i < r@.len() ==> (#[trigger] r@[i]).0@ == environment_spec()[i].0 && r@[i].1@
                == environment_spec()[i].1,
{
    let mut r: Vec<(String, String)> = Vec::new();
    r.push((String::from_str("EGL_DEBUG"), String::from_str("1")));
    r.push((String::from_str("EGL_LOG_LEVEL"), String::from_str("debug")));
    r.push((String::from_str("DRI_DEVICE"), String::from_str("/dev/dri/card0")));
    r.push((String::from_str("LIBGL_ALWAYS_SOFTWARE"), String::from_str("0")));
    r.push(
        (
            String::from_str("LD_LIBRARY_PATH"),
            String::from_str("/lib:/usr/lib:/lib64:/usr/lib/x86_64-linux-gnu"),
        ),
    );
    r.push((String::from_str("PATH"), String::from_str("/bin:/usr/bin")));
    r
}

/// A command ready to spawn: the qualified program path and the remaining
/// tokens as its arguments.
#[derive(Debug)]
pub struct PreparedCommand {
    pub program: String,
    pub args: Vec<String>,
}

/// A prepared command agrees with the tokens of the line it came from.
pub open spec fn prepared_from(p: PreparedCommand, toks: Seq<Seq<char>>) -> bool {
    &&& toks.len() > 0
    &&& p.program@ == qualified_spec(toks[0])
    &&& p.args.deep_view() == toks.subrange(1, toks.len() as int)
}

/// Tokenizes a line and qualifies its first token; `None` when the line
/// holds no tokens at all.
pub fn prepare_command(line: &str) -> (r: Option<PreparedCommand>)
    ensures
        match r {
            Option::None => tokens_of(line@).len() == 0,
            Option::Some(p) => prepared_from(p, tokens_of(line@)),
        },
{
    let tokens = parse_shell_command(line);
    if tokens.len() == 0 {
        return Option::None;
    }
    let program = qualify_command(tokens[0].as_str());
    let mut args: Vec<String> = Vec::new();
    let mut i: usize = 1;
    while i < tokens.len()
        invariant
            1 <= i <= tokens.len(),
            tokens.deep_view() == tokens_of(line@),
            tokens_of(line@).len() == tokens.len(),
            args.deep_view() =~= tokens_of(line@).subrange(1, i as int),
        decreases tokens.len() - i,
    {
        let ghost old_args = args.deep_view();
        args.push(tokens[i].clone());
        proof {
            assert(args.deep_view() =~= old_args.push(tokens.deep_view()[i as int]));
            assert(args.deep_view() =~= tokens_of(line@).subrange(1, i as int + 1));
        }
        i = i + 1;
    }
    Option::Some(PreparedCommand { program, args })
}

/// The diagnostic trace line for a prepared command: the qualified program,
/// then each argument individually quoted.
pub open spec fn trace_of(program: Seq<char>, args: Seq<Seq<char>>) -> Seq<char>
    decreases args.len(),
{
    if args.len() == 0 {
        "$ "@ + program
    } else {
        trace_of(program, args.drop_last()) + " \""@ + args.last() + "\""@
    }
}

/// Builds the diagnostic trace line emitted before a command is spawned
/// when debug mode is enabled.
pub fn command_trace(p: &PreparedCommand) -> (r: String)
    ensures
        r@ == trace_of(p.program@, p.args.deep_view()),
{
    let mut r = String::from_str("$ ");
    r.append(p.program.as_str());
    proof {
        assert(p.args.deep_view().subrange(0, 0) =~= Seq::<Seq<char>>::empty());
    }
    let mut i: usize = 0;
    while i < p.args.len()
        invariant
            i <= p.args.len(),
            r@ == trace_of(p.program@, p.args.deep_view().subrange(0, i as int)),
        decreases p.args.len() - i,
    {
        r.append(" \"");
        r.append(p.args[i].as_str());
        r.append("\"");
        proof {
            let pre = p.args.deep_view().subrange(0, i as int + 1);
            assert(pre.drop_last() =~= p.args.deep_view().subrange(0, i as int));
            assert(pre.last() == p.args.deep_view()[i as int]);
        }
        i = i + 1;
    }
    proof {
        assert(p.args.deep_view().subrange(0, p.args.len() as int) =~= p.args.deep_view());
    }
    r
}

/// A command ready to run, or nothing at all: the executor's decision for
/// one raw line.
pub enum ExecPlan {
    /// The line held no tokens; the executor succeeds trivially, spawning
    /// nothing.
    Empty,
    /// Spawn `command` with the fixed environment; when debug mode is
    /// enabled, print `trace` first.
    Spawn { command: PreparedCommand, trace: String },
}

/// Decides what to spawn for one raw command line: tokenize, qualify the
/// first token, and build the diagnostic trace.
pub fn execute_plan(line: &str) -> (r: ExecPlan)
    ensures
        match r {
            ExecPlan::Empty => tokens_of(line@).len() == 0,
            ExecPlan::Spawn { command, trace } => {
                &&& prepared_from(command, tokens_of(line@))
                &&& trace@ == trace_of(command.program@, command.args.deep_view())
            },
        },
{
    match prepare_command(line) {
        Option::None => ExecPlan::Empty,
        Option::Some(p) => {
            let trace = command_trace(&p);
            ExecPlan::Spawn { command: p, trace }
        },
    }
}

/// What the operating system reported of one spawned command.
#[derive(Debug, PartialEq, Eq)]
pub enum CommandOutcome {
    /// The program could not be started at all; `error` is the text of the
    /// OS error.
    SpawnFailed { error: String },
    /// The program ran to completion; `success` is whether it exited with
    /// status zero, `code` its exit code if one was available.
    Exited { success: bool, code: Option<i32> },
}

/// A line of diagnostic output decided by the library and rendered by the
/// driver on whichever stream target is currently active.
#[derive(Debug, PartialEq, Eq)]
pub enum Report {
    /// A fixed line of text.
    Line { text: String },
    /// A command exited with a non-zero status.
    CommandFailed { code: Option<i32> },
    /// A command could not be spawned.
    SpawnFailed { error: String },
    /// A compatibility symbolic link was created.
    SymlinkCreated { target: String, link: String },
    /// A compatibility symbolic link could not be created.
    SymlinkFailed { target: String, link: String },
    /// The whole initialization sequence failed with the given OS error.
    InitFailed { error: String },
}

/// The mathematical content of a report.
pub enum ReportView {
    Line { text: Seq<char> },
    CommandFailed { code: Option<i32> },
    SpawnFailed { error: Seq<char> },
    SymlinkCreated { target: Seq<char>, link: Seq<char> },
    SymlinkFailed { target: Seq<char>, link: Seq<char> },
    InitFailed { error: Seq<char> },
}

impl View for Report {
    type V = ReportView;

    open spec fn view(&self) -> ReportView {
        match self {
            Report::Line { text } => ReportView::Line { text: text@ },
            Report::CommandFailed { code } => ReportView::CommandFailed { code: *code },
            Report::SpawnFailed { error } => ReportView::SpawnFailed { error: error@ },
            Report::SymlinkCreated { target, link } => ReportView::SymlinkCreated {
                target: target@,
                link: link@,
            },
            Report::SymlinkFailed { target, link } => ReportView::SymlinkFailed {
                target: target@,
                link: link@,
            },
            Report::InitFailed { error } => ReportView::InitFailed { error: error@ },
        }
    }
}

impl DeepView for Report {
    type V = ReportView;

    open spec fn deep_view(&self) -> ReportView {
        self.view()
    }
}

/// The reports the executor emits for one outcome: silence on a clean exit,
/// one line naming the exit code or the spawn error otherwise.
pub open spec fn outcome_reports(o: CommandOutcome) -> Seq<ReportView> {
    match o {
        CommandOutcome::SpawnFailed { error } => seq![ReportView::SpawnFailed { error: error@ }],
        CommandOutcome::Exited { success, code } => if success {
            Seq::empty()
        } else {
            seq![ReportView::CommandFailed { code }]
        },
    }
}

/// Turns a command outcome into its log reports.  Every outcome — spawn
/// failure, non-zero exit, clean exit — is swallowed into reports; none is
/// surfaced as an error.
pub fn execute_report(outcome: &CommandOutcome) -> (r: Vec<Report>)
    ensures
        r.deep_view() == outcome_reports(*outcome),
{
    let mut r: Vec<Report> = Vec::new();
    match outcome {
        CommandOutcome::SpawnFailed { error } => {
            r.push(Report::SpawnFailed { error: error.clone() });
            proof {
                assert(r.deep_view() =~= outcome_reports(*outcome));
            }
        },
        CommandOutcome::Exited { success, code } => {
            if !*success {
                r.push(Report::CommandFailed { code: *code });
            }
            proof {
                assert(r.deep_view() =~= outcome_reports(*outcome));
            }
        },
    }
    r
}

} // verus!

//! One run of the external program: what to start, and what each thing that
//! can happen to the run leads to. The caller starts the process, reads its
//! streams against the deadline, and reports; the types of this file decide.
//!
//! A run passes through `Invocation` (planned), `Reading` (started) and
//! `Waiting` (output read), and ends in an `Ending`.

use crate::error::{Failure, ScraperError};
use crate::text::{
    decimal, decimal_text, eq_ignore_ascii_case, is_prefix, join2, opt_text,
    same_ignoring_ascii_case, skip_chars, starts_with, texts,
};
use vstd::prelude::*;
use vstd::string::*;

verus! {

/// How long a run may take to exit once its output has been read, in seconds.
pub const EXIT_GRACE_SECS: u64 = 5;

/// The environment variable that holds an override, where one is set.
pub const OVERRIDE_COMMAND_VARIABLE: &'static str = "CLAUDE_SCRAPER_CMD";

/// Where the program to run comes from.
#[derive(Debug, Clone)]
pub enum Target {
    /// A command line that replaces the program, as tests set it.
    Override { command: String },
    /// No program was found; `reason` says what was looked for.
    Missing { reason: String },
    /// The program that was found. `path` is `None` where the path is no valid
    /// UTF-8; `extension` is the file name's extension; `directory` is the
    /// directory that holds the program, where that directory exists.
    Program { path: Option<String>, extension: Option<String>, directory: Option<String> },
}

/// The process to start.
#[derive(Debug, Clone)]
pub struct CommandPlan {
    pub program: String,
    pub args: Vec<String>,
    /// The directory to start the process in, if any.
    pub working_dir: Option<String>,
    /// Whether the error stream is read beside the output stream.
    pub reads_stderr: bool,
    /// Whether the plan comes from an override.
    pub overridden: bool,
}

/// A `CommandPlan` in specifications.
pub struct PlanView {
    pub program: Seq<char>,
    pub args: Seq<Seq<char>>,
    pub working_dir: Option<Seq<char>>,
    pub reads_stderr: bool,
    pub overridden: bool,
}

impl View for CommandPlan {
    type V = PlanView;

    open spec fn view(&self) -> PlanView {
        PlanView {
            program: self.program@,
            args: texts(self.args@),
            working_dir: opt_text(self.working_dir),
            reads_stderr: self.reads_stderr,
            overridden: self.overridden,
        }
    }
}

/// What a run has produced: both streams, read to their end.
#[derive(Debug, Clone)]
pub struct RawOutput {
    pub stdout: String,
    pub stderr: String,
}

/// One of the two streams of the process.
#[derive(Debug, Clone, Copy, PartialEq, Eq, Structural)]
pub enum Stream {
    Stdout,
    Stderr,
}

/// How a run ended: whether the process is to be killed, and the result.
#[derive(Debug)]
pub struct Ending {
    pub kill: bool,
    pub result: Result<RawOutput, ScraperError>,
}

/// A result whose success is a plan, in specifications.
pub open spec fn plan_outcome(r: Result<CommandPlan, ScraperError>) -> Result<PlanView, Failure> {
    match r {
        Ok(p) => Ok(p@),
        Err(e) => Err(e@),
    }
}

/// Whether a file with this extension is run by the Python interpreter.
pub open spec fn is_script(extension: Option<String>) -> bool {
    match extension {
        Some(e) => same_ignoring_ascii_case(e@, "py"@),
        None => false,
    }
}

/// The plan for a target, or the failure that it gives without any process
/// being started.
pub open spec fn planned(target: Target, args: Seq<Seq<char>>) -> Result<PlanView, Failure> {
    match target {
        Target::Override { command } => {
            if is_prefix("python -c "@, command@) {
                Ok(
                    PlanView {
                        program: "python"@,
                        args: seq!["-c"@, command@.skip("python -c "@.len() as int)],
                        working_dir: None,
                        reads_stderr: false,
                        overridden: true,
                    },
                )
            } else {
                Err(Failure::Execution("unsupported CLAUDE_SCRAPER_CMD format"@))
            }
        },
        Target::Missing { reason } => Err(
            Failure::Execution("resource resolution failed: "@ + reason@),
        ),
        Target::Program { path, extension, directory } => match path {
            None => Err(Failure::Execution("scraper path contains invalid UTF-8"@)),
            Some(p) => Ok(
                PlanView {
                    program: if is_script(extension) {
                        "python"@
                    } else {
                        p@
                    },
                    args: if is_script(extension) {
                        seq![p@] + args
                    } else {
                        args
                    },
                    working_dir: opt_text(directory),
                    reads_stderr: true,
                    overridden: false,
                },
            ),
        },
    }
}

/// The message of a run that gave no output in `timeout_secs` seconds.
pub open spec fn timeout_message(timeout_secs: u64) -> Seq<char> {
    "scraper did not produce output in "@ + decimal(timeout_secs as nat) + "s"@
}

/// Decides what process to start for `target` with the arguments `args`.
///
/// An override must begin with `python -c `; what follows is handed to the
/// interpreter as code, and the arguments are dropped. A program whose
/// extension is `py`, in any case of letters, is handed to the interpreter
/// with the arguments after it; any other program is run itself.
pub fn plan_invocation(target: Target, args: Vec<String>) -> (r: Result<CommandPlan, ScraperError>)
    ensures
        plan_outcome(r) == planned(target, texts(args@)),
{
    match target {
        Target::Override { command } => {
            if starts_with(command.as_str(), "python -c ") {
                let skip = "python -c ".unicode_len();
                let code = skip_chars(command.as_str(), skip);
                let mut list: Vec<String> = Vec::new();
                list.push(String::from_str("-c"));
                list.push(String::from_str(code));
                assert(texts(list@) =~= seq!["-c"@, command@.skip("python -c "@.len() as int)]);
                Ok(
                    CommandPlan {
                        program: String::from_str("python"),
                        args: list,
                        working_dir: None,
                        reads_stderr: false,
                        overridden: true,
                    },
                )
            } else {
                Err(ScraperError::Execution(String::from_str("unsupported CLAUDE_SCRAPER_CMD format")))
            }
        },
        Target::Missing { reason } => Err(
            ScraperError::Execution(join2("resource resolution failed: ", reason.as_str())),
        ),
        Target::Program { path, extension, directory } => {
            let script = match &extension {
                Some(e) => eq_ignore_ascii_case(e.as_str(), "py"),
                None => false,
            };
            match path {
                None => Err(
                    ScraperError::Execution(String::from_str("scraper path contains invalid UTF-8")),
                ),
                Some(p) => {
                    if script {
                        let ghost given = texts(args@);
                        let ghost path_text = p@;
                        let mut rest = args;
                        let mut list: Vec<String> = Vec::new();
                        list.push(p);
                        list.append(&mut rest);
                        assert(texts(list@) =~= seq![path_text] + given);
                        Ok(
                            CommandPlan {
                                program: String::from_str("python"),
                                args: list,
                                working_dir: directory,
                                reads_stderr: true,
                                overridden: false,
                            },
                        )
                    } else {
                        Ok(
                            CommandPlan {
                                program: p,
                                args,
                                working_dir: directory,
                                reads_stderr: true,
                                overridden: false,
                            },
                        )
                    }
                },
            }
        },
    }
}

/// A run that is planned and not yet started.
#[derive(Debug)]
pub struct Invocation {
    plan: CommandPlan,
    timeout_secs: u64,
}

/// A run whose process has been started and whose streams are being read.
#[derive(Debug)]
pub struct Reading {
    timeout_secs: u64,
    reads_stderr: bool,
}

/// A run whose output has been read and whose process may still be alive.
#[derive(Debug)]
pub struct Waiting {
    output: RawOutput,
}

impl Invocation {
    pub closed spec fn plan_view(self) -> PlanView {
        self.plan@
    }

    pub closed spec fn deadline(self) -> u64 {
        self.timeout_secs
    }

    /// A run of `plan` that may take `timeout_secs` seconds to give its output.
    pub fn new(plan: CommandPlan, timeout_secs: u64) -> (r: Invocation)
        ensures
            r.plan_view() == plan@,
            r.deadline() == timeout_secs,
    {
        Invocation { plan, timeout_secs }
    }

    /// The process to start.
    pub fn plan(&self) -> (r: &CommandPlan)
        ensures
            r@ == self.plan_view(),
    {
        &self.plan
    }

    pub fn timeout_secs(&self) -> (r: u64)
        ensures
            r == self.deadline(),
    {
        self.timeout_secs
    }

    /// The process was started: its streams are read next, against the
    /// deadline of the run.
    pub fn spawned(self) -> (r: Reading)
        ensures
            r.deadline() == self.deadline(),
            r.with_stderr() == self.plan_view().reads_stderr,
    {
        Reading { timeout_secs: self.timeout_secs, reads_stderr: self.plan.reads_stderr }
    }

    /// The process could not be started, for `reason`.
    pub fn spawn_failed(self, reason: &str) -> (r: Ending)
        ensures
            !r.kill,
            r.result matches Err(e) && e@ == Failure::Execution(
                if self.plan_view().overridden {
                    reason@
                } else {
                    "failed to spawn scraper process: "@ + reason@
                },
            ),
    {
        let message = if self.plan.overridden {
            String::from_str(reason)
        } else {
            join2("failed to spawn scraper process: ", reason)
        };
        Ending { kill: false, result: Err(ScraperError::Execution(message)) }
    }

    /// The process was started without a pipe to one of its streams.
    pub fn pipe_missing(self, stream: Stream) -> (r: Ending)
        ensures
            !r.kill,
            r.result matches Err(e) && e@ == Failure::Io(
                if stream == Stream::Stdout {
                    "failed to capture stdout"@
                } else {
                    "failed to capture stderr"@
                },
            ),
    {
        let message = match stream {
            Stream::Stdout => String::from_str("failed to capture stdout"),
            Stream::Stderr => String::from_str("failed to capture stderr"),
        };
        Ending { kill: false, result: Err(ScraperError::Io(message)) }
    }
}

impl Reading {
    pub closed spec fn deadline(self) -> u64 {
        self.timeout_secs
    }

    pub closed spec fn with_stderr(self) -> bool {
        self.reads_stderr
    }

    /// The seconds that reading both streams to their end may take.
    pub fn timeout_secs(&self) -> (r: u64)
        ensures
            r == self.deadline(),
    {
        self.timeout_secs
    }

    /// Whether the error stream is read; where it is not, it counts as empty.
    pub fn reads_stderr(&self) -> (r: bool)
        ensures
            r == self.with_stderr(),
    {
        self.reads_stderr
    }

    /// Both streams were read to their end in time. The output is kept
    /// whatever becomes of the process afterwards.
    pub fn completed(self, stdout: String, stderr: String) -> (r: Waiting)
        ensures
            r.stdout() == stdout@,
            r.stderr() == stderr@,
    {
        Waiting { output: RawOutput { stdout, stderr } }
    }

    /// Reading a stream failed, for `reason`.
    pub fn failed(self, reason: &str) -> (r: Ending)
        ensures
            !r.kill,
            r.result matches Err(e) && e@ == Failure::Io(reason@),
    {
        Ending { kill: false, result: Err(ScraperError::Io(String::from_str(reason))) }
    }

    /// The deadline passed before the streams ended: the process is killed and
    /// the run ends at once, without waiting for the process to exit.
    pub fn timed_out(self) -> (r: Ending)
        ensures
            r.kill,
            r.result matches Err(e) && e@ == Failure::Timeout(timeout_message(self.deadline())),
    {
        let mut message = join2(
            "scraper did not produce output in ",
            decimal_text(self.timeout_secs).as_str(),
        );
        message.append("s");
        Ending { kill: true, result: Err(ScraperError::Timeout(message)) }
    }
}

impl Waiting {
    pub closed spec fn stdout(self) -> Seq<char> {
        self.output.stdout@
    }

    pub closed spec fn stderr(self) -> Seq<char> {
        self.output.stderr@
    }

    /// The seconds to wait for the process to exit.
    pub fn grace_secs(&self) -> (r: u64)
        ensures
            r == EXIT_GRACE_SECS,
    {
        EXIT_GRACE_SECS
    }

    /// The process exited within the grace time; how it exited is not looked at.
    pub fn exited(self) -> (r: Ending)
        ensures
            !r.kill,
            r.result matches Ok(o) && o.stdout@ == self.stdout() && o.stderr@ == self.stderr(),
    {
        Ending { kill: false, result: Ok(self.output) }
    }

    /// The grace time passed with the process alive: it is killed, and the
    /// output that was read is used all the same.
    pub fn still_running(self) -> (r: Ending)
        ensures
            r.kill,
            r.result matches Ok(o) && o.stdout@ == self.stdout() && o.stderr@ == self.stderr(),
    {
        Ending { kill: true, result: Ok(self.output) }
    }
}

} // verus!

//! The interface to the `git` executable: the command to run, what a run
//! produced, and the typed errors that operations report.
use vstd::prelude::*;

verus! {

/// One invocation of `git`: its working directory and its arguments.
#[derive(Debug, Clone)]
pub struct GitCommand {
    pub dir: String,
    pub args: Vec<String>,
}

pub struct CommandSpec {
    pub dir: Seq<char>,
    pub args: Seq<Seq<char>>,
}

impl View for GitCommand {
    type V = CommandSpec;

    open spec fn view(&self) -> CommandSpec {
        CommandSpec { dir: self.dir@, args: self.args.deep_view() }
    }
}

/// What a finished run of `git` produced.
#[derive(Debug, Clone)]
pub struct CommandOutput {
    /// Whether the process exited with status zero.
    pub success: bool,
    pub stdout: String,
    pub stderr: String,
}

/// The result of trying to run a command.
#[derive(Debug, Clone)]
pub enum RunOutcome {
    /// The process ran to completion; a non-zero exit is reported, not raised.
    Finished(CommandOutput),
    /// The executable could not be started; the text describes why.
    LaunchFailed(String),
}

/// Why an operation failed.
#[derive(Debug, Clone)]
pub enum GitError {
    /// `git` could not be started.
    LaunchFailure(String),
    /// `git` ran and failed; the text is its standard error.
    CommandFailed(String),
    /// The worktree was removed, but deleting its branch then failed; the
    /// text is the complete message.
    BranchDeleteFailed(String),
    /// None of the ways of finding the default branch succeeded.
    NoDefaultBranch,
}

pub enum ErrorSpec {
    LaunchFailure(Seq<char>),
    CommandFailed(Seq<char>),
    BranchDeleteFailed(Seq<char>),
    NoDefaultBranch,
}

impl View for GitError {
    type V = ErrorSpec;

    open spec fn view(&self) -> ErrorSpec {
        match self {
            GitError::LaunchFailure(s) => ErrorSpec::LaunchFailure(s@),
            GitError::CommandFailed(s) => ErrorSpec::CommandFailed(s@),
            GitError::BranchDeleteFailed(s) => ErrorSpec::BranchDeleteFailed(s@),
            GitError::NoDefaultBranch => ErrorSpec::NoDefaultBranch,
        }
    }
}

/// The text that describes an error to a user.
pub open spec fn error_message(e: ErrorSpec) -> Seq<char> {
    match e {
        ErrorSpec::LaunchFailure(s) => "Failed to run git: "@ + s,
        ErrorSpec::CommandFailed(s) => s,
        ErrorSpec::BranchDeleteFailed(s) => s,
        ErrorSpec::NoDefaultBranch => "Could not determine default branch"@,
    }
}

impl GitError {
    /// The text that describes this error to a user.
    pub fn message(&self) -> (r: String)
        ensures
            r@ == error_message(self@),
    {
        match self {
            GitError::LaunchFailure(s) => String::from_str("Failed to run git: ").concat(s.as_str()),
            GitError::CommandFailed(s) => s.clone(),
            GitError::BranchDeleteFailed(s) => s.clone(),
            GitError::NoDefaultBranch => String::from_str("Could not determine default branch"),
        }
    }
}

/// The error that a run reports, if it did not succeed.
pub open spec fn run_error(out: RunOutcome) -> Option<ErrorSpec> {
    match out {
        RunOutcome::LaunchFailed(e) => Some(ErrorSpec::LaunchFailure(e@)),
        RunOutcome::Finished(o) => if o.success {
            None
        } else {
            Some(ErrorSpec::CommandFailed(o.stderr@))
        },
    }
}

pub open spec fn result_view<T: View>(r: Result<T, GitError>) -> Result<T::V, ErrorSpec> {
    match r {
        Ok(v) => Ok(v@),
        Err(e) => Err(e@),
    }
}

/// The output of a successful run, or the error that a failed one reports.
pub fn check_run(out: &RunOutcome) -> (r: Result<&CommandOutput, GitError>)
    ensures
        match run_error(*out) {
            Some(e) => r matches Err(x) && x@ == e,
            None => out matches RunOutcome::Finished(o) && r matches Ok(p) && *p == o,
        },
{
    match out {
        RunOutcome::LaunchFailed(e) => Err(GitError::LaunchFailure(e.clone())),
        RunOutcome::Finished(o) => {
            if o.success {
                Ok(o)
            } else {
                Err(GitError::CommandFailed(o.stderr.clone()))
            }
        },
    }
}

/// Turns literal arguments into owned strings.
pub fn owned_args(args: &[&str]) -> (r: Vec<String>)
    ensures
        r.deep_view() == args@.map_values(|a: &str| a@),
{
    let mut out: Vec<String> = Vec::new();
    let mut i: usize = 0;
    while i < args.len()
        invariant
            i <= args@.len(),
            out.deep_view() == args@.take(i as int).map_values(|a: &str| a@),
        decreases args.len() - i,
    {
        let ghost before = out.deep_view();
        out.push(String::from_str(args[i]));
        assert(out.deep_view() =~= before.push(args@[i as int]@));
        assert(args@.take(i + 1).map_values(|a: &str| a@) =~= args@.take(i as int).map_values(
            |a: &str| a@,
        ).push(args@[i as int]@));
        i = i + 1;
    }
    assert(args@.take(args@.len() as int) =~= args@);
    out
}

/// A command that runs `git` with `args` in `dir`.
pub fn git_command(dir: &str, args: &[&str]) -> (r: GitCommand)
    ensures
        r@ == (CommandSpec { dir: dir@, args: args@.map_values(|a: &str| a@) }),
{
    GitCommand { dir: String::from_str(dir), args: owned_args(args) }
}

/// What an operation asks for next: run another command, or stop with its result.
#[derive(Debug)]
pub enum Step<T> {
    Run(GitCommand),
    Finish(Result<T, GitError>),
}

pub enum StepSpec<V> {
    Run(CommandSpec),
    Finish(Result<V, ErrorSpec>),
}

impl<T: View> View for Step<T> {
    type V = StepSpec<T::V>;

    open spec fn view(&self) -> StepSpec<T::V> {
        match self {
            Step::Run(c) => StepSpec::Run(c@),
            Step::Finish(r) => StepSpec::Finish(result_view(*r)),
        }
    }
}

} // verus!

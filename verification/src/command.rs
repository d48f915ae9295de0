//! An external program invocation, what comes back from running one, and the
//! capability of running one.

use vstd::prelude::*;
use vstd::string::StringExecFns;

verus! {

/// The views of a slice of texts, in order.
pub open spec fn texts(values: Seq<&str>) -> Seq<Seq<char>> {
    Seq::new(values.len(), |i: int| values[i]@)
}

/// Copies a list of texts.
pub fn clone_texts(values: &Vec<String>) -> (copy: Vec<String>)
    ensures
        copy.deep_view() == values.deep_view(),
{
    let mut copy: Vec<String> = Vec::new();
    let mut i: usize = 0;
    while i < values.len()
        invariant
            i <= values.len(),
            copy.deep_view() == values.deep_view().take(i as int),
        decreases values.len() - i,
    {
        let ghost before = copy.deep_view();
        copy.push(values[i].clone());
        assert(values.deep_view().take(i + 1) =~= before.push(values@[i as int]@));
        i = i + 1;
    }
    copy
}

/// Adds a copy of `value` at the end of `values`.
pub fn push_text(values: &mut Vec<String>, value: &str)
    ensures
        final(values).deep_view() == old(values).deep_view().push(value@),
{
    values.push(String::from_str(value));
}

/// A program and the arguments to run it with.
#[derive(Debug)]
pub struct CommandSpec {
    pub program: String,
    pub args: Vec<String>,
}

/// What a command is, as the contracts see it.
pub struct CommandSpecView {
    pub program: Seq<char>,
    pub args: Seq<Seq<char>>,
}

/// The invocation of `program` with `args`.
pub open spec fn command(program: Seq<char>, args: Seq<Seq<char>>) -> CommandSpecView {
    CommandSpecView { program, args }
}

impl View for CommandSpec {
    type V = CommandSpecView;

    open spec fn view(&self) -> CommandSpecView {
        command(self.program@, self.args.deep_view())
    }
}

impl DeepView for CommandSpec {
    type V = CommandSpecView;

    open spec fn deep_view(&self) -> CommandSpecView {
        self.view()
    }
}

impl Clone for CommandSpec {
    fn clone(&self) -> (copy: Self)
        ensures
            copy@ == self@,
    {
        CommandSpec { program: self.program.clone(), args: clone_texts(&self.args) }
    }
}

impl CommandSpec {
    /// The invocation of `program` with `args`.
    pub fn new(program: &str, args: Vec<String>) -> (spec: Self)
        ensures
            spec@ == command(program@, args.deep_view()),
    {
        CommandSpec { program: String::from_str(program), args }
    }

    /// Adds one argument at the end.
    pub fn arg(self, value: &str) -> (spec: Self)
        ensures
            spec@ == command(self@.program, self@.args.push(value@)),
    {
        let mut spec = self;
        spec.args.push(String::from_str(value));
        assert(spec.args.deep_view() =~= self.args.deep_view().push(value@));
        spec
    }

    /// Adds the given arguments at the end, in order.
    pub fn with_args(self, values: &[&str]) -> (spec: Self)
        ensures
            spec@ == command(self@.program, self@.args + texts(values@)),
    {
        let mut spec = self;
        let mut i: usize = 0;
        while i < values.len()
            invariant
                i <= values.len(),
                spec.program == self.program,
                spec.args.deep_view() == self.args.deep_view() + texts(values@).take(i as int),
            decreases values.len() - i,
        {
            let ghost before = spec.args.deep_view();
            spec.args.push(String::from_str(values[i]));
            assert(spec.args.deep_view() =~= before.push(values@[i as int]@));
            i = i + 1;
        }
        assert(texts(values@).take(values.len() as int) =~= texts(values@));
        spec
    }
}

/// Adds `next` at the end of `commands`.
pub fn push_command(commands: &mut Vec<CommandSpec>, next: CommandSpec)
    ensures
        final(commands).deep_view() == old(commands).deep_view().push(next@),
{
    commands.push(next);
}

/// What running a command gave: the invocation it answers, the captured
/// output, and the exit code (none where the process ended without one).
#[derive(Debug)]
pub struct CommandOutput {
    pub program: String,
    pub args: Vec<String>,
    pub stdout: String,
    pub stderr: String,
    pub status: Option<i32>,
}

/// What running a command gave, as the contracts see it.
pub struct CommandOutputView {
    pub program: Seq<char>,
    pub args: Seq<Seq<char>>,
    pub stdout: Seq<char>,
    pub stderr: Seq<char>,
    pub status: Option<i32>,
}

impl View for CommandOutput {
    type V = CommandOutputView;

    open spec fn view(&self) -> CommandOutputView {
        CommandOutputView {
            program: self.program@,
            args: self.args.deep_view(),
            stdout: self.stdout@,
            stderr: self.stderr@,
            status: self.status,
        }
    }
}

impl Clone for CommandOutput {
    fn clone(&self) -> (copy: Self)
        ensures
            copy@ == self@,
    {
        CommandOutput {
            program: self.program.clone(),
            args: clone_texts(&self.args),
            stdout: self.stdout.clone(),
            stderr: self.stderr.clone(),
            status: self.status,
        }
    }
}

impl CommandOutput {
    /// The result of running `spec`.
    pub fn new(spec: &CommandSpec, stdout: String, stderr: String, status: Option<i32>) -> (out:
        Self)
        ensures
            out@ == (CommandOutputView {
                program: spec@.program,
                args: spec@.args,
                stdout: stdout@,
                stderr: stderr@,
                status,
            }),
    {
        CommandOutput {
            program: spec.program.clone(),
            args: clone_texts(&spec.args),
            stdout,
            stderr,
            status,
        }
    }

    /// A command succeeded when it exited with code zero.
    pub fn success(&self) -> (ok: bool)
        ensures
            ok == (self@.status == Some(0i32)),
    {
        match self.status {
            Some(code) => code == 0,
            None => false,
        }
    }

    /// The program that was run.
    pub fn program(&self) -> (program: &str)
        ensures
            program@ == self@.program,
    {
        self.program.as_str()
    }

    /// The arguments that the program was run with.
    pub fn args(&self) -> (args: &[String])
        ensures
            args@ == self.args@,
    {
        self.args.as_slice()
    }
}

/// The command could not be run at all: the program is missing, or may not
/// be started. A command that ran and failed is no such error.
#[derive(Debug)]
pub struct CommandError {
    pub message: String,
}

impl View for CommandError {
    type V = Seq<char>;

    open spec fn view(&self) -> Seq<char> {
        self.message@
    }
}

impl Clone for CommandError {
    fn clone(&self) -> (copy: Self)
        ensures
            copy@ == self@,
    {
        CommandError { message: self.message.clone() }
    }
}

/// What one attempt to run a command came to.
pub type CommandOutcome = Result<CommandOutput, CommandError>;

/// The capability of running a command and waiting for its result.
pub trait CommandExecutor {
    fn run(&self, spec: &CommandSpec) -> CommandOutcome;
}

} // verus!

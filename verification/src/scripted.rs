//! An executor that runs nothing: it answers each command with what a
//! script says, so that a plan can be run without touching the machine.

use vstd::prelude::*;
use vstd::string::StringExecFns;
use crate::command::{
    CommandError, CommandExecutor, CommandOutcome, CommandOutput, CommandOutputView, CommandSpec,
    CommandSpecView,
};
use crate::engine::OutcomeView;

verus! {

/// What a scripted command comes to: its output and exit code, or the
/// reason why it cannot be run.
#[derive(Debug)]
pub enum ScriptedResult {
    Ran { stdout: String, stderr: String, status: Option<i32> },
    Refused { reason: String },
}

/// A scripted result, as the contracts see it.
pub enum ScriptedResultView {
    Ran { stdout: Seq<char>, stderr: Seq<char>, status: Option<i32> },
    Refused { reason: Seq<char> },
}

impl View for ScriptedResult {
    type V = ScriptedResultView;

    open spec fn view(&self) -> ScriptedResultView {
        match self {
            ScriptedResult::Ran { stdout, stderr, status } => ScriptedResultView::Ran {
                stdout: stdout@,
                stderr: stderr@,
                status: *status,
            },
            ScriptedResult::Refused { reason } => ScriptedResultView::Refused { reason: reason@ },
        }
    }
}

/// One line of a script: a command, and what running it comes to.
#[derive(Debug)]
pub struct ScriptedCommand {
    pub spec: CommandSpec,
    pub result: ScriptedResult,
}

/// A line of a script, as the contracts see it.
pub struct ScriptedCommandView {
    pub spec: CommandSpecView,
    pub result: ScriptedResultView,
}

impl View for ScriptedCommand {
    type V = ScriptedCommandView;

    open spec fn view(&self) -> ScriptedCommandView {
        ScriptedCommandView { spec: self.spec@, result: self.result@ }
    }
}

impl DeepView for ScriptedCommand {
    type V = ScriptedCommandView;

    open spec fn deep_view(&self) -> ScriptedCommandView {
        self.view()
    }
}

/// The outcome that a scripted result stands for, as the answer to `spec`.
pub open spec fn outcome_for(spec: CommandSpecView, result: ScriptedResultView) -> OutcomeView {
    match result {
        ScriptedResultView::Ran { stdout, stderr, status } => Ok(
            CommandOutputView { program: spec.program, args: spec.args, stdout, stderr, status },
        ),
        ScriptedResultView::Refused { reason } => Err(reason),
    }
}

/// The reason given for a command that the script does not know.
pub open spec fn unscripted_reason(spec: CommandSpecView) -> Seq<char> {
    "no scripted result for "@ + spec.program
}

/// The answer of the first `n` lines of `script` to `spec`: that of the
/// first line that holds the same program and arguments.
pub open spec fn scripted_answer(
    script: Seq<ScriptedCommandView>,
    spec: CommandSpecView,
    n: int,
) -> Option<OutcomeView>
    decreases n,
{
    if n <= 0 {
        None
    } else {
        match scripted_answer(script, spec, n - 1) {
            Some(outcome) => Some(outcome),
            None => if script[n - 1].spec == spec {
                Some(outcome_for(spec, script[n - 1].result))
            } else {
                None
            },
        }
    }
}

/// The answer of `script` to `spec`. A command that the script does not
/// know cannot be run.
pub open spec fn answer_of(script: Seq<ScriptedCommandView>, spec: CommandSpecView) -> OutcomeView {
    match scripted_answer(script, spec, script.len() as int) {
        Some(outcome) => outcome,
        None => Err(unscripted_reason(spec)),
    }
}

/// An answer found among the first `k` lines is the one found among any
/// longer prefix.
pub proof fn lemma_scripted_answer_stays(
    script: Seq<ScriptedCommandView>,
    spec: CommandSpecView,
    k: int,
    n: int,
)
    requires
        k <= n,
        scripted_answer(script, spec, k) is Some,
    ensures
        scripted_answer(script, spec, n) == scripted_answer(script, spec, k),
    decreases n - k,
{
    if k < n {
        lemma_scripted_answer_stays(script, spec, k, n - 1);
    }
}

/// Whether two lists hold the same texts in the same order.
pub fn same_texts(a: &Vec<String>, b: &Vec<String>) -> (same: bool)
    ensures
        same == (a.deep_view() == b.deep_view()),
{
    if a.len() != b.len() {
        assert(a.deep_view().len() != b.deep_view().len());
        return false;
    }
    let mut i: usize = 0;
    while i < a.len()
        invariant
            i <= a.len(),
            a.len() == b.len(),
            forall|j: int| 0 <= j < i ==> a@[j]@ == b@[j]@,
        decreases a.len() - i,
    {
        if !(a[i] == b[i]) {
            assert(a.deep_view()[i as int] != b.deep_view()[i as int]);
            return false;
        }
        i = i + 1;
    }
    assert(a.deep_view() =~= b.deep_view());
    true
}

/// Whether two commands hold the same program and arguments.
pub fn same_command(a: &CommandSpec, b: &CommandSpec) -> (same: bool)
    ensures
        same == (a@ == b@),
{
    a.program == b.program && same_texts(&a.args, &b.args)
}

/// An executor that answers from a script.
#[derive(Debug)]
pub struct ScriptedExecutor {
    pub script: Vec<ScriptedCommand>,
}

impl View for ScriptedExecutor {
    type V = Seq<ScriptedCommandView>;

    open spec fn view(&self) -> Seq<ScriptedCommandView> {
        self.script.deep_view()
    }
}

impl ScriptedExecutor {
    /// An executor that knows no command.
    pub fn new() -> (executor: Self)
        ensures
            executor@ == Seq::<ScriptedCommandView>::empty(),
    {
        let executor = ScriptedExecutor { script: Vec::new() };
        executor
    }

    /// Adds a line at the end of the script: `spec` runs and gives the
    /// output and exit code that are named.
    pub fn on(self, spec: CommandSpec, stdout: &str, stderr: &str, status: Option<i32>) -> (executor:
        Self)
        ensures
            executor@ == self@.push(
                ScriptedCommandView {
                    spec: spec@,
                    result: ScriptedResultView::Ran { stdout: stdout@, stderr: stderr@, status },
                },
            ),
    {
        let mut executor = self;
        let line = ScriptedCommand {
            spec,
            result: ScriptedResult::Ran {
                stdout: String::from_str(stdout),
                stderr: String::from_str(stderr),
                status,
            },
        };
        executor.script.push(line);
        executor
    }

    /// Adds a line at the end of the script: `spec` cannot be run, for the
    /// reason that is named.
    pub fn refuse(self, spec: CommandSpec, reason: &str) -> (executor: Self)
        ensures
            executor@ == self@.push(
                ScriptedCommandView {
                    spec: spec@,
                    result: ScriptedResultView::Refused { reason: reason@ },
                },
            ),
    {
        let mut executor = self;
        let line = ScriptedCommand {
            spec,
            result: ScriptedResult::Refused { reason: String::from_str(reason) },
        };
        executor.script.push(line);
        executor
    }
}

impl CommandExecutor for ScriptedExecutor {
    fn run(&self, spec: &CommandSpec) -> (outcome: CommandOutcome)
        ensures
            crate::engine::outcome_view(outcome) == answer_of(self@, spec@),
    {
        let count: usize = self.script.len();
        let mut i: usize = 0;
        while i < count
            invariant
                i <= count,
                count == self.script.len(),
                scripted_answer(self@, spec@, i as int) is None,
            decreases count - i,
        {
            let line = &self.script[i];
            if same_command(&line.spec, spec) {
                proof {
                    lemma_scripted_answer_stays(self@, spec@, i + 1, count as int);
                }
                return match &line.result {
                    ScriptedResult::Ran { stdout, stderr, status } => Ok(
                        CommandOutput::new(spec, stdout.clone(), stderr.clone(), *status),
                    ),
                    ScriptedResult::Refused { reason } => Err(
                        CommandError { message: reason.clone() },
                    ),
                };
            }
            i = i + 1;
        }
        Err(
            CommandError {
                message: String::from_str("no scripted result for ").concat(
                    spec.program.as_str(),
                ),
            },
        )
    }
}

} // verus!

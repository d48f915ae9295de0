//! The execution engine: runs the commands of a plan in order, reports
//! what happens line by line, and stops at the first command that fails.

use vstd::prelude::*;
use vstd::string::StringExecFns;
use crate::command::{
    CommandExecutor, CommandOutcome, CommandOutputView, CommandSpec, CommandSpecView,
};
use crate::error::{ValidationError, ValidationErrorView};
use crate::state::InstallerState;
use crate::tasks::{build_plan, plan_steps, stage_name, InstallPlan, InstallStepView, TARGET_ROOT};
use crate::text::{
    blank, is_blank, join, join_with, lines, lines_of, signed_decimal, signed_decimal_string,
};

verus! {

/// Something that takes the lines of a log, one after the other.
pub trait LogSink {
    /// The lines taken so far, oldest first.
    spec fn lines(&self) -> Seq<Seq<char>>;

    /// The sink can take a line, whatever the line holds.
    spec fn ready(&self) -> bool;

    /// Takes `line` as the newest line.
    fn emit(&mut self, line: String)
        requires
            old(self).ready(),
        ensures
            final(self).ready(),
            final(self).lines() == old(self).lines().push(line@),
    ;
}

/// A log that is kept in memory.
#[derive(Debug)]
pub struct LogBuffer {
    pub entries: Vec<String>,
}

impl LogBuffer {
    /// A log without lines.
    pub fn new() -> (log: Self)
        ensures
            log.ready(),
            log.lines() == Seq::<Seq<char>>::empty(),
    {
        let log = LogBuffer { entries: Vec::new() };
        log
    }
}

impl LogSink for LogBuffer {
    open spec fn lines(&self) -> Seq<Seq<char>> {
        self.entries.deep_view()
    }

    open spec fn ready(&self) -> bool {
        true
    }

    fn emit(&mut self, line: String) {
        self.entries.push(line);
    }
}

/// A log that hands every line on to a callback as soon as it is taken.
pub struct LogStream<F: FnMut(String)> {
    callback: F,
    delivered: Ghost<Seq<Seq<char>>>,
}

impl<F: FnMut(String)> LogStream<F> {
    /// A log that hands its lines to `callback`, and has handed it none yet.
    /// The callback must take every line.
    pub fn new(callback: F) -> (log: Self)
        requires
            forall|callback: F, line: String| call_requires(callback, (line,)),
        ensures
            log.ready(),
            log.lines() == Seq::<Seq<char>>::empty(),
    {
        LogStream { callback, delivered: Ghost(Seq::empty()) }
    }
}

impl<F: FnMut(String)> LogSink for LogStream<F> {
    closed spec fn lines(&self) -> Seq<Seq<char>> {
        self.delivered@
    }

    closed spec fn ready(&self) -> bool {
        forall|callback: F, line: String| call_requires(callback, (line,))
    }

    fn emit(&mut self, line: String) {
        let ghost text = line@;
        (self.callback)(line);
        proof {
            self.delivered@ = self.delivered@.push(text);
        }
    }
}

/// What an attempt to run a command came to, as the log sees it: the result
/// of the command, or the reason why it could not be run.
pub type OutcomeView = Result<CommandOutputView, Seq<char>>;

/// The view of an outcome.
pub open spec fn outcome_view(outcome: CommandOutcome) -> OutcomeView {
    match outcome {
        Ok(output) => Ok(output@),
        Err(error) => Err(error@),
    }
}

/// A command succeeded when it ran and exited with code zero.
pub open spec fn outcome_ok(outcome: OutcomeView) -> bool {
    outcome matches Ok(output) && output.status == Some(0i32)
}

/// The line that opens a stage in the log: its name, and below it its
/// summary.
pub open spec fn stage_header(step: InstallStepView) -> Seq<char> {
    "== "@ + stage_name(step.stage) + " ==\n"@ + step.summary
}

/// The line that shows a command before it runs.
pub open spec fn invocation_line(spec: CommandSpecView) -> Seq<char> {
    "$ "@ + spec.program + " "@ + join_with(spec.args, " "@)
}

/// The lines of `text` that are worth showing, each behind `prefix`: blank
/// lines are left out.
pub open spec fn shown_lines(text: Seq<char>, prefix: Seq<char>) -> Seq<Seq<char>> {
    lines_of(text).filter(|line: Seq<char>| !is_blank(line)).map_values(
        |line: Seq<char>| prefix + line,
    )
}

/// An exit code as the log shows it.
pub open spec fn status_text(status: Option<i32>) -> Seq<char> {
    match status {
        Some(code) => "Some("@ + signed_decimal(code as int) + ")"@,
        None => "None"@,
    }
}

/// The lines that report the outcome of running `spec`: the output of the
/// command, then its error output marked as such, then, where it failed,
/// one line that says so. A command that could not be run leaves that one
/// line only.
pub open spec fn outcome_lines(spec: CommandSpecView, outcome: OutcomeView) -> Seq<Seq<char>> {
    match outcome {
        Ok(output) => {
            let shown = shown_lines(output.stdout, Seq::empty()) + shown_lines(
                output.stderr,
                "stderr: "@,
            );
            if output.status == Some(0i32) {
                shown
            } else {
                shown.push("command exited with status "@ + status_text(output.status))
            }
        },
        Err(reason) => seq!["error: failed to run "@ + spec.program + ": "@ + reason],
    }
}

/// Whether the command of `outcome` ran and succeeded.
pub fn outcome_succeeded(outcome: &CommandOutcome) -> (ok: bool)
    ensures
        ok == outcome_ok(outcome_view(*outcome)),
{
    match outcome {
        Ok(output) => output.success(),
        Err(_) => false,
    }
}

/// Hands the lines of `text` that are not blank to `sink`, each behind
/// `prefix`.
pub fn emit_shown_lines<S: LogSink>(text: &str, prefix: &str, sink: &mut S)
    requires
        old(sink).ready(),
    ensures
        final(sink).ready(),
        final(sink).lines() == old(sink).lines() + shown_lines(text@, prefix@),
{
    let all = lines(text);
    let ghost visible = |line: Seq<char>| !is_blank(line);
    let ghost marked = |line: Seq<char>| prefix@ + line;
    let mut i: usize = 0;
    proof {
        reveal(Seq::filter);
    }
    while i < all.len()
        invariant
            i <= all.len(),
            all.deep_view() == lines_of(text@),
            visible == |line: Seq<char>| !is_blank(line),
            marked == |line: Seq<char>| prefix@ + line,
            sink.ready(),
            sink.lines() == old(sink).lines() + all.deep_view().take(i as int).filter(
                visible,
            ).map_values(marked),
        decreases all.len() - i,
    {
        let ghost done = all.deep_view().take(i as int);
        let ghost next = all.deep_view().take(i + 1);
        proof {
            reveal(Seq::filter);
            assert(next.drop_last() =~= done);
        }
        if !blank(all[i].as_str()) {
            let line = String::from_str(prefix).concat(all[i].as_str());
            sink.emit(line);
        }
        i = i + 1;
    }
    assert(all.deep_view().take(all.len() as int) =~= all.deep_view());
}

/// An exit code as the log shows it.
pub fn status_string(status: Option<i32>) -> (text: String)
    ensures
        text@ == status_text(status),
{
    match status {
        Some(code) => {
            let number = signed_decimal_string(code);
            String::from_str("Some(").concat(number.as_str()).concat(")")
        },
        None => String::from_str("None"),
    }
}

/// Reports the outcome of running `spec` to `sink`, and says whether the
/// command succeeded.
pub fn report_outcome<S: LogSink>(spec: &CommandSpec, outcome: &CommandOutcome, sink: &mut S) -> (ok:
    bool)
    requires
        old(sink).ready(),
    ensures
        final(sink).ready(),
        ok == outcome_ok(outcome_view(*outcome)),
        final(sink).lines() == old(sink).lines() + outcome_lines(spec@, outcome_view(*outcome)),
{
    match outcome {
        Ok(output) => {
            emit_shown_lines(output.stdout.as_str(), "", sink);
            emit_shown_lines(output.stderr.as_str(), "stderr: ", sink);
            proof {
                reveal_strlit("");
            }
            if !output.success() {
                let status = status_string(output.status);
                sink.emit(String::from_str("command exited with status ").concat(status.as_str()));
                false
            } else {
                true
            }
        },
        Err(error) => {
            let line = String::from_str("error: failed to run ").concat(
                spec.program.as_str(),
            ).concat(": ").concat(error.message.as_str());
            sink.emit(line);
            false
        },
    }
}

/// The lines that working through a stage leaves, where its first commands
/// came to `outcomes`, outcome `i` being that of command `i`: each command
/// is shown, then reported.
pub open spec fn step_log(commands: Seq<CommandSpecView>, outcomes: Seq<OutcomeView>) -> Seq<
    Seq<char>,
>
    decreases outcomes.len(),
{
    if outcomes.len() == 0 {
        Seq::empty()
    } else {
        let i = outcomes.len() - 1;
        step_log(commands, outcomes.drop_last()).push(invocation_line(commands[i])) + outcome_lines(
            commands[i],
            outcomes[i],
        )
    }
}

/// The lines that a run leaves, where `record[s]` holds the outcomes of the
/// commands that were run in stage `s`: each stage that was entered is
/// opened by its header, which the lines of its commands follow.
pub open spec fn run_log(steps: Seq<InstallStepView>, record: Seq<Seq<OutcomeView>>) -> Seq<
    Seq<char>,
>
    decreases record.len(),
{
    if record.len() == 0 {
        Seq::empty()
    } else {
        let s = record.len() - 1;
        run_log(steps, record.drop_last()).push(stage_header(steps[s])) + step_log(
            steps[s].commands,
            record[s],
        )
    }
}

/// Every command of the stage was run, and succeeded.
pub open spec fn step_completed(step: InstallStepView, outcomes: Seq<OutcomeView>) -> bool {
    &&& outcomes.len() == step.commands.len()
    &&& forall|i: int| 0 <= i < outcomes.len() ==> outcome_ok(#[trigger] outcomes[i])
}

/// The commands of the stage were run in order up to one that failed, and
/// none behind it.
pub open spec fn step_failed(step: InstallStepView, outcomes: Seq<OutcomeView>) -> bool {
    &&& 0 < outcomes.len() <= step.commands.len()
    &&& forall|i: int| 0 <= i < outcomes.len() - 1 ==> outcome_ok(#[trigger] outcomes[i])
    &&& !outcome_ok(outcomes.last())
}

/// Every stage of the plan was worked through, and every command succeeded.
pub open spec fn run_completed(steps: Seq<InstallStepView>, record: Seq<Seq<OutcomeView>>) -> bool {
    &&& record.len() == steps.len()
    &&& forall|s: int| 0 <= s < record.len() ==> step_completed(steps[s], #[trigger] record[s])
}

/// The stages were worked through in order up to one in which a command
/// failed. Nothing behind that command was run, and no later stage was
/// entered.
pub open spec fn run_stopped(steps: Seq<InstallStepView>, record: Seq<Seq<OutcomeView>>) -> bool {
    &&& 0 < record.len() <= steps.len()
    &&& forall|s: int|
        0 <= s < record.len() - 1 ==> step_completed(steps[s], #[trigger] record[s])
    &&& step_failed(steps[record.len() - 1], record.last())
}

/// One attempt to run a command: what was handed to the executor, and what
/// came back.
pub struct Attempt {
    pub command: CommandSpec,
    pub outcome: CommandOutcome,
}

/// The outcomes of `attempts`, in order.
pub open spec fn outcomes_of(attempts: Seq<Attempt>) -> Seq<OutcomeView> {
    Seq::new(attempts.len(), |c: int| outcome_view(attempts[c].outcome))
}

/// The record of a run: for each stage that was entered, the outcomes of
/// the attempts made in it.
pub open spec fn record_of(attempts: Seq<Seq<Attempt>>) -> Seq<Seq<OutcomeView>> {
    Seq::new(attempts.len(), |s: int| outcomes_of(attempts[s]))
}

/// Every attempt handed `executor` the command that stands at its place in
/// the plan, and holds an answer that `executor` gives to that command.
pub open spec fn made_by<E: CommandExecutor>(
    executor: &E,
    steps: Seq<InstallStepView>,
    attempts: Seq<Seq<Attempt>>,
) -> bool {
    forall|s: int, c: int|
        #![trigger attempts[s][c]]
        0 <= s < attempts.len() && 0 <= c < attempts[s].len() ==> {
            &&& attempts[s][c].command@ == steps[s].commands[c]
            &&& call_ensures(E::run, (executor, &attempts[s][c].command), attempts[s][c].outcome)
        }
}

/// The configuration of one installation attempt, and the executor that
/// runs its commands.
pub struct Backend<E: CommandExecutor> {
    pub state: InstallerState,
    pub executor: E,
}

impl<E: CommandExecutor> Backend<E> {
    /// A backend that installs what `state` asks for through `executor`.
    pub fn with_executor(state: InstallerState, executor: E) -> (backend: Self)
        ensures
            backend.state == state,
            backend.executor == executor,
    {
        Backend { state, executor }
    }

    /// Builds the plan of the installation that the configuration asks for.
    /// Nothing is run.
    pub fn begin_installation(&self) -> (res: Result<InstallPlan, ValidationError>)
        ensures
            match res {
                Ok(plan) => plan_steps(self.state@, TARGET_ROOT@) == Ok::<
                    Seq<InstallStepView>,
                    ValidationErrorView,
                >(plan@),
                Err(error) => plan_steps(self.state@, TARGET_ROOT@) == Err::<
                    Seq<InstallStepView>,
                    ValidationErrorView,
                >(error@),
            },
    {
        build_plan(&self.state)
    }

    /// Runs the commands of `plan` through the executor, stage by stage and
    /// in order, and reports to `sink` as it goes. The first command that
    /// fails, or cannot be run, ends the run: nothing behind it is run, and
    /// no later stage is entered. The result says whether every command
    /// succeeded.
    #[verifier::loop_isolation(false)]
    pub fn execute_plan_stream<S: LogSink>(&self, plan: InstallPlan, sink: &mut S) -> (success:
        bool)
        requires
            old(sink).ready(),
        ensures
            final(sink).ready(),
            exists|attempts: Seq<Seq<Attempt>>|
                {
                    &&& made_by(&self.executor, plan@, attempts)
                    &&& final(sink).lines() == old(sink).lines() + #[trigger] run_log(
                        plan@,
                        record_of(attempts),
                    )
                    &&& if success {
                        run_completed(plan@, record_of(attempts))
                    } else {
                        run_stopped(plan@, record_of(attempts))
                    }
                },
    {
        let steps = plan.steps();
        let ghost mut attempts: Seq<Seq<Attempt>> = Seq::empty();
        let mut s: usize = 0;
        while s < steps.len()
            invariant
                s <= steps.len(),
                sink.ready(),
                attempts.len() == s,
                made_by(&self.executor, plan@, attempts),
                forall|k: int|
                    0 <= k < s ==> step_completed(plan@[k], #[trigger] record_of(attempts)[k]),
                sink.lines() == old(sink).lines() + run_log(plan@, record_of(attempts)),
            decreases steps.len() - s,
        {
            let step = &steps[s];
            let header = String::from_str("== ").concat(step.stage.name()).concat(
                " ==\n",
            ).concat(step.summary.as_str());
            sink.emit(header);
            let ghost entered = sink.lines();
            let ghost mut current: Seq<Attempt> = Seq::empty();

            let mut c: usize = 0;
            while c < step.commands.len()
                invariant
                    c <= step.commands.len(),
                    sink.ready(),
                    current.len() == c,
                    forall|i: int|
                        0 <= i < c ==> {
                            &&& (#[trigger] current[i]).command@ == step@.commands[i]
                            &&& call_ensures(
                                E::run,
                                (&self.executor, &current[i].command),
                                current[i].outcome,
                            )
                            &&& outcome_ok(outcome_view(current[i].outcome))
                        },
                    sink.lines() == entered + step_log(step@.commands, outcomes_of(current)),
                decreases step.commands.len() - c,
            {
                let command = &step.commands[c];
                let arguments = join(&command.args, " ");
                let invocation = String::from_str("$ ").concat(command.program.as_str()).concat(
                    " ",
                ).concat(arguments.as_str());
                sink.emit(invocation);
                let outcome = self.executor.run(command);
                let ok = report_outcome(command, &outcome, sink);
                proof {
                    let before = current;
                    current = current.push(Attempt { command: *command, outcome });
                    assert(outcomes_of(current).drop_last() =~= outcomes_of(before));
                }
                if !ok {
                    proof {
                        let stopped = attempts.push(current);
                        assert(record_of(stopped).drop_last() =~= record_of(attempts));
                        assert(sink.lines() =~= old(sink).lines() + run_log(
                            plan@,
                            record_of(stopped),
                        ));
                        assert forall|k: int| 0 <= k < stopped.len() - 1 implies step_completed(
                            plan@[k],
                            #[trigger] record_of(stopped)[k],
                        ) by {
                            assert(record_of(stopped)[k] == record_of(attempts)[k]);
                        }
                    }
                    return false;
                }
                c = c + 1;
            }
            proof {
                let finished = attempts;
                attempts = attempts.push(current);
                assert(record_of(attempts).drop_last() =~= record_of(finished));
                assert forall|k: int| 0 <= k < s + 1 implies step_completed(
                    plan@[k],
                    #[trigger] record_of(attempts)[k],
                ) by {
                    if k < s {
                        assert(record_of(attempts)[k] == record_of(finished)[k]);
                    }
                }
            }
            s = s + 1;
        }
        true
    }
}

} // verus!

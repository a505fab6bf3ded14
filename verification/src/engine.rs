//! The pipeline execution engine: variable substitution, the per-task status
//! messages, and the worker that interprets steps strictly in declaration
//! order against one variable store.
//!
//! Builtin and custom actions run outside the engine. The worker is driven as
//! a state machine: `step` executes internal work until it either needs an
//! external action's outcome, finishes, or dies on an undeclared variable;
//! the caller performs the requested action and hands the outcome back.
use vstd::prelude::*;
use crate::pipeline::{Command, CommandModel, Step, Task, TaskModel, BuiltinRegistry,
    create_builtin_registry, contains_name, not_found_msg};
use crate::scalar::{Scalar, ScalarVal, scalar_display};
use crate::store::VariableStore;
use crate::text;

verus! {

/// The reserved marker that makes a command argument a variable reference.
pub open spec fn var_marker() -> Seq<char> {
    seq!['v', 'a', 'r', ':', ':']
}

/// What one argument substitutes to: itself when it is a literal, the display
/// form of the named variable when it carries the marker, and nothing — a
/// fatal error — when the referenced variable is undeclared or unset.
pub open spec fn subst_arg(arg: Seq<char>, store: Map<Seq<char>, Option<ScalarVal>>) -> Option<
    Seq<char>,
> {
    if text::has_prefix(arg, var_marker()) {
        let name = arg.subrange(var_marker().len() as int, arg.len() as int);
        if store.contains_key(name) && store[name] is Some {
            Some(scalar_display(store[name]->0))
        } else {
            None
        }
    } else {
        Some(arg)
    }
}

/// What a whole argument list substitutes to, or nothing when any entry
/// references an undeclared or unset variable.
pub open spec fn subst_args(args: Seq<Seq<char>>, store: Map<Seq<char>, Option<ScalarVal>>) -> Option<
    Seq<Seq<char>>,
> {
    if forall|j: int| 0 <= j < args.len() ==> (#[trigger] subst_arg(args[j], store)) is Some {
        Some(Seq::new(args.len(), |j: int| subst_arg(args[j], store)->0))
    } else {
        None
    }
}

/// Replaces every variable reference in the arguments by the referenced
/// variable's current value. Nothing comes back when a referenced variable is
/// undeclared or unset; the caller must stop the entire run.
pub fn substitute_args(args: &Vec<String>, store: &VariableStore) -> (r: Option<Vec<String>>)
    ensures
        match r {
            Some(v) => subst_args(args.deep_view(), store@) == Some(v.deep_view()),
            None => subst_args(args.deep_view(), store@) is None,
        },
{
    let mut out: Vec<String> = Vec::new();
    let mut i: usize = 0;
    proof {
        reveal_strlit("var::");
        assert("var::"@ =~= var_marker());
    }
    while i < args.len()
        invariant
            i <= args.len(),
            out@.len() == i,
            "var::"@ == var_marker(),
            forall|j: int|
                0 <= j < i ==> (#[trigger] subst_arg(args.deep_view()[j], store@)) is Some
                    && out.deep_view()[j] == subst_arg(args.deep_view()[j], store@)->0,
        decreases args.len() - i,
    {
        let arg: &String = &args[i];
        proof {
            assert(args.deep_view()[i as int] == arg@);
        }
        if text::starts_with_str(arg.as_str(), "var::") {
            let n = arg.as_str().unicode_len();
            let name = arg.as_str().substring_char(5, n);
            match store.lookup_display(name) {
                Some(s) => {
                    out.push(s);
                },
                None => {
                    proof {
                        assert(subst_arg(args.deep_view()[i as int], store@) is None);
                    }
                    return None;
                },
            }
        } else {
            out.push(arg.clone());
        }
        i = i + 1;
    }
    proof {
        let a = args.deep_view();
        let s = store@;
        assert(subst_args(a, s) == Some(out.deep_view())) by {
            assert(forall|j: int| 0 <= j < a.len() ==> (#[trigger] subst_arg(a[j], s)) is Some);
            assert(out.deep_view() =~= Seq::new(a.len(), |j: int| subst_arg(a[j], s)->0));
        }
    }
    Some(out)
}

/// The bracketed task label that opens every status message.
pub open spec fn label_of(name: Seq<char>) -> Seq<char> {
    seq!['['] + name + seq![']']
}

/// One aligned status line: the label padded right to ten columns, a space,
/// the status padded left to twenty columns, and a newline.
pub open spec fn status_line(name: Seq<char>, status: Seq<char>) -> Seq<char> {
    text::left_just(label_of(name), 10) + seq![' '] + text::right_just(status, 20) + seq!['\n']
}

/// The message of a task that ran every command without failure.
pub open spec fn passed_msg(name: Seq<char>) -> Seq<char> {
    status_line(name, "Passed"@)
}

/// The message of a task ended by a failing command whose abort flag is off.
pub open spec fn failed_msg(name: Seq<char>, e: Seq<char>) -> Seq<char> {
    status_line(name, "Failed"@) + e
}

/// The message of a task ended by a failing command whose abort flag is on:
/// the failure, and notice that the whole run stops here.
pub open spec fn abort_msg(name: Seq<char>, e: Seq<char>) -> Seq<char> {
    status_line(name, "Failed"@) + e + "\nTest aborted.\n"@
}

/// The message of a task whose custom command could not be spawned, with the
/// abort flag off.
pub open spec fn spawn_fail_msg(name: Seq<char>, e: Seq<char>) -> Seq<char> {
    label_of(name) + " execution failed due to: "@ + e + seq!['\n']
}

/// The message of a task whose custom command could not be spawned, with the
/// abort flag on.
pub open spec fn spawn_abort_msg(name: Seq<char>, e: Seq<char>) -> Seq<char> {
    label_of(name) + " aborted due to failure: "@ + e + seq!['\n']
}

fn label_string(name: &str) -> (r: String)
    ensures
        r@ == label_of(name@),
{
    let mut r = String::new();
    text::push_char(&mut r, '[');
    text::append_str(&mut r, name);
    text::push_char(&mut r, ']');
    proof {
        assert(r@ =~= label_of(name@));
    }
    r
}

fn status_line_string(name: &str, status: &str) -> (r: String)
    ensures
        r@ == status_line(name@, status@),
{
    let label = label_string(name);
    let mut r = text::left_justify(label.as_str(), 10);
    text::push_char(&mut r, ' ');
    let right = text::right_justify(status, 20);
    text::append_str(&mut r, right.as_str());
    text::push_char(&mut r, '\n');
    proof {
        assert(r@ =~= status_line(name@, status@));
    }
    r
}

fn passed_message(name: &str) -> (r: String)
    ensures
        r@ == passed_msg(name@),
{
    status_line_string(name, "Passed")
}

fn failed_message(name: &str, e: &str) -> (r: String)
    ensures
        r@ == failed_msg(name@, e@),
{
    let mut r = status_line_string(name, "Failed");
    text::append_str(&mut r, e);
    r
}

fn abort_message(name: &str, e: &str) -> (r: String)
    ensures
        r@ == abort_msg(name@, e@),
{
    let mut r = failed_message(name, e);
    text::append_str(&mut r, "\nTest aborted.\n");
    proof {
        assert(r@ =~= abort_msg(name@, e@));
    }
    r
}

fn spawn_fail_message(name: &str, e: &str) -> (r: String)
    ensures
        r@ == spawn_fail_msg(name@, e@),
{
    let mut r = label_string(name);
    text::append_str(&mut r, " execution failed due to: ");
    text::append_str(&mut r, e);
    text::push_char(&mut r, '\n');
    proof {
        assert(r@ =~= spawn_fail_msg(name@, e@));
    }
    r
}

fn spawn_abort_message(name: &str, e: &str) -> (r: String)
    ensures
        r@ == spawn_abort_msg(name@, e@),
{
    let mut r = label_string(name);
    text::append_str(&mut r, " aborted due to failure: ");
    text::append_str(&mut r, e);
    text::push_char(&mut r, '\n');
    proof {
        assert(r@ =~= spawn_abort_msg(name@, e@));
    }
    r
}

/// How an externally executed command came out: it succeeded, it ran and
/// failed (a builtin action's error, or a custom command's non-zero exit with
/// its output), or a custom command could not be spawned at all.
pub enum CommandOutcome {
    Success,
    Failure(String),
    SpawnFailure(String),
}

/// The mathematical value of a command outcome.
pub enum OutcomeModel {
    SuccessM,
    FailureM(Seq<char>),
    SpawnFailureM(Seq<char>),
}

impl CommandOutcome {
    /// The mathematical value of this outcome.
    pub open spec fn view_val(&self) -> OutcomeModel {
        match self {
            CommandOutcome::Success => OutcomeModel::SuccessM,
            CommandOutcome::Failure(e) => OutcomeModel::FailureM(e@),
            CommandOutcome::SpawnFailure(e) => OutcomeModel::SpawnFailureM(e@),
        }
    }
}

/// The optional outcome seen as its mathematical value.
pub open spec fn opt_outcome_val(o: Option<CommandOutcome>) -> Option<OutcomeModel> {
    match o {
        Some(out) => Some(out.view_val()),
        None => None,
    }
}

/// Where a worker stands: executing internal work, waiting for an external
/// command's outcome, finished, or dead on an undeclared variable.
pub enum Phase {
    Ready,
    Awaiting,
    Done,
    Fatal,
}

/// The mathematical state of a worker.
#[verifier::ext_equal]
pub struct WorkerModel {
    pub tasks: Seq<TaskModel>,
    pub results: Seq<(Seq<char>, Seq<char>)>,
    pub store: Map<Seq<char>, Option<ScalarVal>>,
    pub registry: Seq<Seq<char>>,
    pub task_idx: int,
    pub cmd_idx: int,
    pub phase: Phase,
}

/// The store after a variable operation: `+` adds the delta to a declared,
/// set, integer-typed variable in place (wrapping on overflow); any other
/// case leaves the store untouched.
pub open spec fn var_op_store(
    store: Map<Seq<char>, Option<ScalarVal>>,
    operation: Seq<char>,
    name: Seq<char>,
    delta: i32,
) -> Map<Seq<char>, Option<ScalarVal>> {
    if operation == "+"@ && store.contains_key(name) && store[name] is Some && store[name]->0
        is IntV {
        store.insert(
            name,
            Some(
                ScalarVal::IntV(
                    vstd::wrapping::i64_specs::wrapping_add(store[name]->0->IntV_0, delta as i64),
                ),
            ),
        )
    } else {
        store
    }
}

/// The parts of a dispatched command: whether it is custom, its action, its
/// declared arguments, and its abort flag.
pub open spec fn run_parts(c: CommandModel) -> (bool, Seq<char>, Seq<Seq<char>>, bool) {
    match c {
        CommandModel::Run { custom, action, args, abort } => (custom, action, args, abort),
        CommandModel::VarOp { .. } => (false, Seq::empty(), Seq::empty(), false),
    }
}

/// One transition of the worker. In `Ready` it interprets the current
/// position: past the last task it finishes; past a task's last command it
/// records that task as passed; a variable operation applies to the store; a
/// builtin or custom command substitutes its arguments — dying on an
/// undeclared or unset variable — then either fails at once on an
/// unregistered builtin name or waits for the outcome. In `Awaiting` the
/// handed-back outcome decides: success resumes after the command, while any
/// failure ends the task at once, the abort flag alone choosing between
/// halting the whole run and moving to the next task. Terminal phases absorb.
pub open spec fn model_step(m: WorkerModel, input: Option<OutcomeModel>) -> WorkerModel {
    match m.phase {
        Phase::Done => m,
        Phase::Fatal => m,
        Phase::Awaiting => match input {
            None => m,
            Some(out) => {
                let t = m.tasks[m.task_idx];
                let abort = run_parts(t.commands[m.cmd_idx]).3;
                match out {
                    OutcomeModel::SuccessM => WorkerModel {
                        cmd_idx: m.cmd_idx + 1,
                        phase: Phase::Ready,
                        ..m
                    },
                    OutcomeModel::FailureM(e) => if abort {
                        WorkerModel {
                            results: m.results.push((t.name, abort_msg(t.name, e))),
                            phase: Phase::Done,
                            ..m
                        }
                    } else {
                        WorkerModel {
                            results: m.results.push((t.name, failed_msg(t.name, e))),
                            task_idx: m.task_idx + 1,
                            cmd_idx: 0,
                            phase: Phase::Ready,
                            ..m
                        }
                    },
                    OutcomeModel::SpawnFailureM(e) => if abort {
                        WorkerModel {
                            results: m.results.push((t.name, spawn_abort_msg(t.name, e))),
                            phase: Phase::Done,
                            ..m
                        }
                    } else {
                        WorkerModel {
                            results: m.results.push((t.name, spawn_fail_msg(t.name, e))),
                            task_idx: m.task_idx + 1,
                            cmd_idx: 0,
                            phase: Phase::Ready,
                            ..m
                        }
                    },
                }
            },
        },
        Phase::Ready => {
            if m.task_idx >= m.tasks.len() {
                WorkerModel { phase: Phase::Done, ..m }
            } else {
                let t = m.tasks[m.task_idx];
                if m.cmd_idx >= t.commands.len() {
                    WorkerModel {
                        results: m.results.push((t.name, passed_msg(t.name))),
                        task_idx: m.task_idx + 1,
                        cmd_idx: 0,
                        ..m
                    }
                } else {
                    match t.commands[m.cmd_idx] {
                        CommandModel::VarOp { operation, name, delta } => WorkerModel {
                            store: var_op_store(m.store, operation, name, delta),
                            cmd_idx: m.cmd_idx + 1,
                            ..m
                        },
                        CommandModel::Run { custom, action, args, abort } => match subst_args(
                            args,
                            m.store,
                        ) {
                            None => WorkerModel { phase: Phase::Fatal, ..m },
                            Some(sargs) => if !custom && !contains_name(m.registry, action) {
                                if abort {
                                    WorkerModel {
                                        results: m.results.push(
                                            (t.name, abort_msg(t.name, not_found_msg(action))),
                                        ),
                                        phase: Phase::Done,
                                        ..m
                                    }
                                } else {
                                    WorkerModel {
                                        results: m.results.push(
                                            (t.name, failed_msg(t.name, not_found_msg(action))),
                                        ),
                                        task_idx: m.task_idx + 1,
                                        cmd_idx: 0,
                                        ..m
                                    }
                                }
                            } else {
                                WorkerModel { phase: Phase::Awaiting, ..m }
                            },
                        },
                    }
                }
            }
        },
    }
}

/// The worker model after a whole sequence of transitions, each fed its
/// input: nothing while the worker runs internally, the handed-back outcome
/// while it waits.
pub open spec fn model_run(m: WorkerModel, inputs: Seq<Option<OutcomeModel>>) -> WorkerModel
    decreases inputs.len(),
{
    if inputs.len() == 0 {
        m
    } else {
        model_run(model_step(m, inputs[0]), inputs.drop_first())
    }
}

/// The results ledger stays true to the task list: one result per finished
/// task, each under the task's own name, in declaration order.
pub open spec fn results_inv(m: WorkerModel) -> bool {
    &&& m.results.len() <= m.tasks.len()
    &&& (m.phase is Ready || m.phase is Awaiting ==> m.results.len() == m.task_idx)
    &&& (m.phase is Fatal ==> m.results.len() == m.task_idx)
    &&& forall|i: int| 0 <= i < m.results.len() ==> (#[trigger] m.results[i]).0 == m.tasks[i].name
}

/// One transition keeps the worker well formed, keeps its task list and
/// registry, never moves backwards, and keeps the results ledger true.
pub proof fn lemma_step_preserves_inv(m: WorkerModel, input: Option<OutcomeModel>)
    requires
        wf_model(m),
        results_inv(m),
    ensures
        wf_model(model_step(m, input)),
        results_inv(model_step(m, input)),
        model_step(m, input).tasks == m.tasks,
        model_step(m, input).registry == m.registry,
        model_step(m, input).task_idx >= m.task_idx,
        model_step(m, input).results.len() >= m.results.len(),
        forall|i: int|
            0 <= i < m.results.len() ==> model_step(m, input).results[i] == m.results[i],
{
}

/// A whole run keeps the worker well formed, keeps its task list and
/// registry, never moves backwards, and only appends to the results.
pub proof fn lemma_run_preserves_inv(m: WorkerModel, inputs: Seq<Option<OutcomeModel>>)
    requires
        wf_model(m),
        results_inv(m),
    ensures
        wf_model(model_run(m, inputs)),
        results_inv(model_run(m, inputs)),
        model_run(m, inputs).tasks == m.tasks,
        model_run(m, inputs).registry == m.registry,
        model_run(m, inputs).task_idx >= m.task_idx,
        model_run(m, inputs).results.len() >= m.results.len(),
        forall|i: int|
            0 <= i < m.results.len() ==> model_run(m, inputs).results[i] == m.results[i],
    decreases inputs.len(),
{
    if inputs.len() > 0 {
        lemma_step_preserves_inv(m, inputs[0]);
        lemma_run_preserves_inv(model_step(m, inputs[0]), inputs.drop_first());
    }
}

/// Law: task results always appear in declaration order. However a freshly
/// started run proceeds — whatever outcomes its external commands produce —
/// the i-th recorded result belongs to the i-th declared task.
pub proof fn lemma_results_in_declaration_order(m: WorkerModel, inputs: Seq<Option<OutcomeModel>>)
    requires
        wf_model(m),
        m.results.len() == 0,
        m.task_idx == 0,
        m.phase is Ready,
    ensures
        forall|i: int|
            0 <= i < model_run(m, inputs).results.len() ==> (#[trigger] model_run(
                m,
                inputs,
            ).results[i]).0 == m.tasks[i].name,
{
    lemma_run_preserves_inv(m, inputs);
}

/// A finished worker stays exactly as it is, whatever it is fed.
pub proof fn lemma_done_absorbing(m: WorkerModel, inputs: Seq<Option<OutcomeModel>>)
    requires
        m.phase is Done,
    ensures
        model_run(m, inputs) == m,
    decreases inputs.len(),
{
    if inputs.len() > 0 {
        lemma_done_absorbing(model_step(m, inputs[0]), inputs.drop_first());
    }
}

/// A worker dead on an undeclared variable stays exactly as it is.
pub proof fn lemma_fatal_absorbing(m: WorkerModel, inputs: Seq<Option<OutcomeModel>>)
    requires
        m.phase is Fatal,
    ensures
        model_run(m, inputs) == m,
    decreases inputs.len(),
{
    if inputs.len() > 0 {
        lemma_fatal_absorbing(model_step(m, inputs[0]), inputs.drop_first());
    }
}

/// Law: once a task fails with `abort_on_failure` set, nothing further runs.
/// The failing task's abort message is recorded under its name, the run is
/// over, and no continuation — whatever outcomes it would feed — changes the
/// worker again: no subsequent task executes or reports.
pub proof fn lemma_abort_halts(
    m: WorkerModel,
    out: OutcomeModel,
    rest: Seq<Option<OutcomeModel>>,
)
    requires
        wf_model(m),
        m.phase is Awaiting,
        run_parts(m.tasks[m.task_idx].commands[m.cmd_idx]).3,
        out is FailureM || out is SpawnFailureM,
    ensures
        ({
            let m1 = model_step(m, Some(out));
            let name = m.tasks[m.task_idx].name;
            &&& m1.phase is Done
            &&& m1.results == m.results.push(
                (
                    name,
                    match out {
                        OutcomeModel::FailureM(e) => abort_msg(name, e),
                        OutcomeModel::SpawnFailureM(e) => spawn_abort_msg(name, e),
                        OutcomeModel::SuccessM => Seq::<char>::empty(),
                    },
                ),
            )
            &&& model_run(m1, rest) == m1
        }),
{
    let m1 = model_step(m, Some(out));
    lemma_done_absorbing(m1, rest);
}

/// Law: a task whose failing command carries no abort flag is itself over —
/// marked failed under its own name, with no later command of that task ever
/// running — but the pipeline moves on to the next task, same store in hand.
/// With `lemma_run_preserves_inv`, the task index never returns to the failed
/// task, so no command after the failing one within it executes.
pub proof fn lemma_failure_moves_to_next_task(m: WorkerModel, out: OutcomeModel)
    requires
        wf_model(m),
        m.phase is Awaiting,
        !run_parts(m.tasks[m.task_idx].commands[m.cmd_idx]).3,
        out is FailureM || out is SpawnFailureM,
    ensures
        ({
            let m1 = model_step(m, Some(out));
            let name = m.tasks[m.task_idx].name;
            &&& m1.phase is Ready
            &&& m1.task_idx == m.task_idx + 1
            &&& m1.cmd_idx == 0
            &&& m1.store == m.store
            &&& m1.tasks == m.tasks
            &&& m1.results == m.results.push(
                (
                    name,
                    match out {
                        OutcomeModel::FailureM(e) => failed_msg(name, e),
                        OutcomeModel::SpawnFailureM(e) => spawn_fail_msg(name, e),
                        OutcomeModel::SuccessM => Seq::<char>::empty(),
                    },
                ),
            )
        }),
{
}

/// An argument list holding one reference to an undeclared or unset variable
/// substitutes to nothing as a whole.
pub proof fn lemma_subst_args_none(
    args: Seq<Seq<char>>,
    store: Map<Seq<char>, Option<ScalarVal>>,
    j: int,
)
    requires
        0 <= j < args.len(),
        subst_arg(args[j], store) is None,
    ensures
        subst_args(args, store) is None,
{
}

/// Law: substituting an undeclared (or unset) variable aborts the pipeline.
/// A worker about to dispatch a command whose arguments reference such a
/// variable goes fatal: nothing is recorded, the store is untouched, and no
/// continuation changes the worker again.
pub proof fn lemma_undeclared_reference_is_fatal(
    m: WorkerModel,
    j: int,
    rest: Seq<Option<OutcomeModel>>,
)
    requires
        wf_model(m),
        m.phase is Ready,
        m.task_idx < m.tasks.len(),
        m.cmd_idx < m.tasks[m.task_idx].commands.len(),
        m.tasks[m.task_idx].commands[m.cmd_idx] is Run,
        0 <= j < run_parts(m.tasks[m.task_idx].commands[m.cmd_idx]).2.len(),
        subst_arg(run_parts(m.tasks[m.task_idx].commands[m.cmd_idx]).2[j], m.store) is None,
    ensures
        ({
            let m1 = model_step(m, None);
            &&& m1.phase is Fatal
            &&& m1.results == m.results
            &&& m1.store == m.store
            &&& model_run(m1, rest) == m1
        }),
{
    lemma_subst_args_none(run_parts(m.tasks[m.task_idx].commands[m.cmd_idx]).2, m.store, j);
    let m1 = model_step(m, None);
    lemma_fatal_absorbing(m1, rest);
}

/// A worker state the engine can act on: indices within bounds, and a waiting
/// worker really standing at a dispatched command.
pub open spec fn wf_model(m: WorkerModel) -> bool {
    &&& 0 <= m.task_idx <= m.tasks.len()
    &&& 0 <= m.cmd_idx
    &&& (m.phase is Ready && m.task_idx < m.tasks.len() ==> m.cmd_idx
        <= m.tasks[m.task_idx].commands.len())
    &&& (m.phase is Ready && m.task_idx == m.tasks.len() ==> m.cmd_idx == 0)
    &&& (m.phase is Awaiting ==> m.task_idx < m.tasks.len() && m.cmd_idx
        < m.tasks[m.task_idx].commands.len() && m.tasks[m.task_idx].commands[m.cmd_idx] is Run)
}

/// An external action the worker asks its caller to perform: a builtin action
/// or a custom executable, with its substituted arguments.
pub struct ActionRequest {
    pub custom: bool,
    pub action: String,
    pub args: Vec<String>,
}

/// What one call of `step` led to: plain internal progress, a request to
/// perform an external action, the end of the run, or a fatal undeclared
/// variable.
pub enum StepStatus {
    Progress,
    Requested(ActionRequest),
    Finished,
    FatalVariable,
}

/// The initial variable store built from the declaration list, later
/// declarations of the same name winning.
pub open spec fn store_of(entries: Seq<(String, Option<Scalar>)>) -> Map<
    Seq<char>,
    Option<ScalarVal>,
>
    decreases entries.len(),
{
    if entries.len() == 0 {
        Map::empty()
    } else {
        store_of(entries.drop_last()).insert(
            entries.last().0@,
            crate::store::opt_val(entries.last().1),
        )
    }
}

/// The tasks a list of named steps gives rise to, in declaration order.
pub open spec fn tasks_of(steps: Seq<(String, Step)>) -> Seq<TaskModel> {
    steps.map_values(
        |p: (String, Step)|
            TaskModel {
                name: p.0@,
                commands: p.1.commands@.map_values(|c: Command| c.view_val()),
            },
    )
}

/// The final report: every task's status message, concatenated in step
/// declaration order.
pub open spec fn comment_of(rs: Seq<(Seq<char>, Seq<char>)>) -> Seq<char>
    decreases rs.len(),
{
    if rs.len() == 0 {
        Seq::empty()
    } else {
        comment_of(rs.drop_last()) + rs.last().1
    }
}

/// How reading the final score from the store comes out: the `score` variable
/// coerced to an integer, or the fatal error saying how it is missing.
pub open spec fn final_score_spec(store: Map<Seq<char>, Option<ScalarVal>>) -> Result<
    u32,
    ScoreError,
> {
    if !store.contains_key("score"@) {
        Err(ScoreError::Undeclared)
    } else {
        match store["score"@] {
            None => Err(ScoreError::Unset),
            Some(v) => match v {
                ScalarVal::IntV(n) => Ok(n as u32),
                _ => Err(ScoreError::NotInteger),
            },
        }
    }
}

/// The fatal error of a pipeline run that ends without a usable score.
#[derive(Debug, PartialEq, Eq)]
pub enum ScoreError {
    Undeclared,
    Unset,
    NotInteger,
}

/// Interprets an ordered set of tasks against one variable store, producing a
/// per-task result and an aggregate report. Execution is strictly sequential:
/// task order, then command order, one external action outstanding at a time.
pub struct Worker {
    pub tasks: Vec<Task>,
    pub results: Vec<(String, String)>,
    pub variables: VariableStore,
    pub registry: BuiltinRegistry,
    pub task_idx: usize,
    pub cmd_idx: usize,
    pub phase: Phase,
}

impl View for Worker {
    type V = WorkerModel;

    open spec fn view(&self) -> WorkerModel {
        WorkerModel {
            tasks: self.tasks@.map_values(|t: Task| t@),
            results: self.results.deep_view(),
            store: self.variables@,
            registry: self.registry@,
            task_idx: self.task_idx as int,
            cmd_idx: self.cmd_idx as int,
            phase: self.phase,
        }
    }
}

impl Worker {
    /// A worker state the engine can act on.
    pub open spec fn wf(&self) -> bool {
        wf_model(self@)
    }

    /// A fresh worker over the given variable declarations, with no tasks yet
    /// and the builtin registry populated.
    pub fn new(vars: Vec<(String, Option<Scalar>)>) -> (w: Worker)
        ensures
            w@.tasks == Seq::<TaskModel>::empty(),
            w@.results == Seq::<(Seq<char>, Seq<char>)>::empty(),
            w@.store == store_of(vars@),
            w@.registry == seq!["download_and_extract_7z"@, "diff_file"@, "compile_cmake"@],
            w@.task_idx == 0,
            w@.cmd_idx == 0,
            w@.phase is Ready,
            w.wf(),
    {
        let mut store = VariableStore::new();
        let mut i: usize = 0;
        while i < vars.len()
            invariant
                i <= vars.len(),
                store@ == store_of(vars@.subrange(0, i as int)),
            decreases vars.len() - i,
        {
            let value: Option<Scalar> = match &vars[i].1 {
                Some(s) => Some(s.duplicate()),
                None => None,
            };
            store.declare(vars[i].0.clone(), value);
            i = i + 1;
            proof {
                let pre = vars@.subrange(0, i - 1);
                let cur = vars@.subrange(0, i as int);
                assert(cur.drop_last() =~= pre);
                assert(cur.last() == vars@[i - 1]);
            }
        }
        proof {
            assert(vars@.subrange(0, vars@.len() as int) =~= vars@);
        }
        let w = Worker {
            tasks: Vec::new(),
            results: Vec::new(),
            variables: store,
            registry: create_builtin_registry(),
            task_idx: 0,
            cmd_idx: 0,
            phase: Phase::Ready,
        };
        proof {
            assert(w@.tasks =~= Seq::<TaskModel>::empty());
            assert(w@.results =~= Seq::<(Seq<char>, Seq<char>)>::empty());
        }
        w
    }

    /// Appends one task, to run after those already added.
    pub fn add_task(&mut self, task: Task)
        requires
            old(self).wf(),
        ensures
            final(self)@ == (WorkerModel { tasks: old(self)@.tasks.push(task@), ..old(self)@ }),
            final(self).wf(),
    {
        self.tasks.push(task);
        proof {
            assert(self@ =~~= (WorkerModel { tasks: old(self)@.tasks.push(task@), ..old(self)@ }));
        }
    }

    /// Sets a declared variable to the given value; an undeclared name leaves
    /// the store untouched.
    pub fn modify_variable(&mut self, name: &str, value: Scalar)
        ensures
            final(self)@ == (WorkerModel {
                store: if old(self)@.store.contains_key(name@) {
                    old(self)@.store.insert(name@, Some(value.view_val()))
                } else {
                    old(self)@.store
                },
                ..old(self)@
            }),
            old(self).wf() ==> final(self).wf(),
    {
        let _ = self.variables.set(name, value);
        proof {
            assert(self@ =~~= (WorkerModel {
                store: if old(self)@.store.contains_key(name@) {
                    old(self)@.store.insert(name@, Some(value.view_val()))
                } else {
                    old(self)@.store
                },
                ..old(self)@
            }));
        }
    }

    /// Appends one task per named step, in declaration order.
    pub fn load_tasks(&mut self, steps: Vec<(String, Step)>)
        requires
            old(self).wf(),
        ensures
            final(self)@ == (WorkerModel {
                tasks: old(self)@.tasks + tasks_of(steps@),
                ..old(self)@
            }),
            final(self).wf(),
    {
        let ghost orig = steps@;
        let mut remaining = steps;
        proof {
            assert(old(self)@.tasks + tasks_of(orig) =~= self@.tasks + tasks_of(remaining@));
        }
        while remaining.len() > 0
            invariant
                self.wf(),
                self@.tasks + tasks_of(remaining@) =~= old(self)@.tasks + tasks_of(orig),
                self@.results == old(self)@.results,
                self@.store == old(self)@.store,
                self@.registry == old(self)@.registry,
                self@.task_idx == old(self)@.task_idx,
                self@.cmd_idx == old(self)@.cmd_idx,
                self@.phase == old(self)@.phase,
            decreases remaining.len(),
        {
            let ghost before = remaining@;
            let (name, step) = remaining.remove(0);
            let task = Task::new(name, step.commands);
            proof {
                assert(tasks_of(before)[0] == task@);
                assert(tasks_of(before).drop_first() =~= tasks_of(remaining@));
                assert((self@.tasks.push(task@)) + tasks_of(remaining@) =~= self@.tasks + tasks_of(
                    before,
                ));
            }
            self.add_task(task);
        }
        proof {
            assert(tasks_of(remaining@) =~= Seq::<TaskModel>::empty());
            assert(self@.tasks =~= old(self)@.tasks + tasks_of(orig));
            assert(self@ =~~= (WorkerModel {
                tasks: old(self)@.tasks + tasks_of(orig),
                ..old(self)@
            }));
        }
    }

    /// The final report: every task's status message concatenated in order,
    /// or nothing when no task produced a result.
    pub fn comment(&self) -> (r: Option<String>)
        ensures
            match r {
                Some(s) => self@.results.len() > 0 && s@ == comment_of(self@.results),
                None => self@.results.len() == 0,
            },
    {
        if self.results.len() == 0 {
            return None;
        }
        let mut s = String::new();
        let mut i: usize = 0;
        proof {
            assert(s@ =~= comment_of(self@.results.subrange(0, 0)));
        }
        while i < self.results.len()
            invariant
                i <= self.results.len(),
                self@.results.len() == self.results@.len(),
                s@ == comment_of(self@.results.subrange(0, i as int)),
            decreases self.results.len() - i,
        {
            text::append_str(&mut s, self.results[i].1.as_str());
            i = i + 1;
            proof {
                let cur = self@.results.subrange(0, i as int);
                assert(cur.drop_last() =~= self@.results.subrange(0, i - 1));
                assert(cur.last() == self@.results[i - 1]);
                assert(self@.results[i - 1].1 == self.results@[i - 1].1@);
            }
        }
        proof {
            assert(self@.results.subrange(0, self@.results.len() as int) =~= self@.results);
        }
        Some(s)
    }

    /// Drives the run one transition forward. A waiting worker must be handed
    /// the outcome of the requested action, and only a waiting one. The
    /// returned status says what to do next: on `Requested`, perform the
    /// action and call again with its outcome; on `Progress`, call again with
    /// nothing; `Finished` and `FatalVariable` end the run.
    pub fn step(&mut self, outcome: Option<CommandOutcome>) -> (st: StepStatus)
        requires
            old(self).wf(),
            (outcome is Some) <==> (old(self).phase is Awaiting),
        ensures
            final(self)@ == model_step(old(self)@, opt_outcome_val(outcome)),
            final(self).wf(),
            match st {
                StepStatus::Requested(req) => final(self)@.phase is Awaiting && {
                    let p = run_parts(
                        final(self)@.tasks[final(self)@.task_idx].commands[final(self)@.cmd_idx],
                    );
                    &&& req.custom == p.0
                    &&& req.action@ == p.1
                    &&& Some(req.args.deep_view()) == subst_args(p.2, final(self)@.store)
                },
                StepStatus::Progress => final(self)@.phase is Ready,
                StepStatus::Finished => final(self)@.phase is Done,
                StepStatus::FatalVariable => final(self)@.phase is Fatal,
            },
    {
        let ghost m0 = self@;
        match self.phase {
            Phase::Done => StepStatus::Finished,
            Phase::Fatal => StepStatus::FatalVariable,
            Phase::Awaiting => {
                let task_count = self.tasks.len();
                let cmd_count = self.tasks[self.task_idx].commands.len();
                assert(self.task_idx < task_count);
                assert(self.cmd_idx < cmd_count);
                let out = match outcome {
                    Some(o) => o,
                    None => {
                        proof {
                            assert(false);
                        }
                        CommandOutcome::Success
                    },
                };
                match out {
                    CommandOutcome::Success => {
                        self.cmd_idx = self.cmd_idx + 1;
                        self.phase = Phase::Ready;
                        proof {
                            assert(self@ =~~= model_step(m0, opt_outcome_val(outcome)));
                        }
                        StepStatus::Progress
                    },
                    CommandOutcome::Failure(e) => {
                        let abort: bool = match &self.tasks[self.task_idx].commands[self.cmd_idx] {
                            Command::Builtin { abort_on_failure, .. } => match abort_on_failure {
                                Some(b) => *b,
                                None => false,
                            },
                            Command::Custom { abort_on_failure, .. } => match abort_on_failure {
                                Some(b) => *b,
                                None => false,
                            },
                            Command::Variable { .. } => {
                                proof {
                                    assert(false);
                                }
                                false
                            },
                        };
                        let name = self.tasks[self.task_idx].name.clone();
                        let ghost nm = name@;
                        if abort {
                            let msg = abort_message(name.as_str(), e.as_str());
                            let ghost mg = msg@;
                            self.results.push((name, msg));
                            self.phase = Phase::Done;
                            proof {
                                assert(self.results.deep_view() =~= m0.results.push((nm, mg)));
                                assert(self@ =~~= model_step(m0, opt_outcome_val(outcome)));
                            }
                            StepStatus::Finished
                        } else {
                            let msg = failed_message(name.as_str(), e.as_str());
                            let ghost mg = msg@;
                            self.results.push((name, msg));
                            self.task_idx = self.task_idx + 1;
                            self.cmd_idx = 0;
                            self.phase = Phase::Ready;
                            proof {
                                assert(self.results.deep_view() =~= m0.results.push((nm, mg)));
                                assert(self@ =~~= model_step(m0, opt_outcome_val(outcome)));
                            }
                            StepStatus::Progress
                        }
                    },
                    CommandOutcome::SpawnFailure(e) => {
                        let abort: bool = match &self.tasks[self.task_idx].commands[self.cmd_idx] {
                            Command::Builtin { abort_on_failure, .. } => match abort_on_failure {
                                Some(b) => *b,
                                None => false,
                            },
                            Command::Custom { abort_on_failure, .. } => match abort_on_failure {
                                Some(b) => *b,
                                None => false,
                            },
                            Command::Variable { .. } => {
                                proof {
                                    assert(false);
                                }
                                false
                            },
                        };
                        let name = self.tasks[self.task_idx].name.clone();
                        let ghost nm = name@;
                        if abort {
                            let msg = spawn_abort_message(name.as_str(), e.as_str());
                            let ghost mg = msg@;
                            self.results.push((name, msg));
                            self.phase = Phase::Done;
                            proof {
                                assert(self.results.deep_view() =~= m0.results.push((nm, mg)));
                                assert(self@ =~~= model_step(m0, opt_outcome_val(outcome)));
                            }
                            StepStatus::Finished
                        } else {
                            let msg = spawn_fail_message(name.as_str(), e.as_str());
                            let ghost mg = msg@;
                            self.results.push((name, msg));
                            self.task_idx = self.task_idx + 1;
                            self.cmd_idx = 0;
                            self.phase = Phase::Ready;
                            proof {
                                assert(self.results.deep_view() =~= m0.results.push((nm, mg)));
                                assert(self@ =~~= model_step(m0, opt_outcome_val(outcome)));
                            }
                            StepStatus::Progress
                        }
                    },
                }
            },
            Phase::Ready => {
                if self.task_idx >= self.tasks.len() {
                    self.phase = Phase::Done;
                    proof {
                        assert(self@ =~~= model_step(m0, opt_outcome_val(outcome)));
                    }
                    return StepStatus::Finished;
                }
                if self.cmd_idx >= self.tasks[self.task_idx].commands.len() {
                    let name = self.tasks[self.task_idx].name.clone();
                    let ghost nm = name@;
                    let msg = passed_message(name.as_str());
                    let ghost mg = msg@;
                    self.results.push((name, msg));
                    self.task_idx = self.task_idx + 1;
                    self.cmd_idx = 0;
                    proof {
                        assert(self.results.deep_view() =~= m0.results.push((nm, mg)));
                        assert(self@ =~~= model_step(m0, opt_outcome_val(outcome)));
                    }
                    return StepStatus::Progress;
                }
                match &self.tasks[self.task_idx].commands[self.cmd_idx] {
                    Command::Variable { operation, name, value } => {
                        let is_plus = text::str_eq(operation.as_str(), "+");
                        let nm = name.clone();
                        let dv = *value;
                        if is_plus {
                            let _ = self.variables.add_to_int(nm.as_str(), dv);
                        }
                        self.cmd_idx = self.cmd_idx + 1;
                        proof {
                            assert(self@ =~~= model_step(m0, opt_outcome_val(outcome)));
                        }
                        StepStatus::Progress
                    },
                    Command::Builtin { action, args, abort_on_failure } => {
                        let abort: bool = match abort_on_failure {
                            Some(b) => *b,
                            None => false,
                        };
                        let action_c = action.clone();
                        let subst: Option<Vec<String>> = match args {
                            Some(a) => substitute_args(a, &self.variables),
                            None => {
                                let empty: Vec<String> = Vec::new();
                                proof {
                                    assert(empty.deep_view() =~= Seq::<Seq<char>>::empty());
                                    assert(subst_args(Seq::<Seq<char>>::empty(), self@.store)
                                        =~= Some(empty.deep_view()));
                                }
                                Some(empty)
                            },
                        };
                        match subst {
                            None => {
                                self.phase = Phase::Fatal;
                                proof {
                                    assert(self@ =~~= model_step(m0, opt_outcome_val(outcome)));
                                }
                                StepStatus::FatalVariable
                            },
                            Some(sargs) => {
                                if !self.registry.is_registered(action_c.as_str()) {
                                    let e = match self.registry.execute(action_c.as_str(), sargs) {
                                        Err(m) => m,
                                        Ok(_) => {
                                            proof {
                                                assert(false);
                                            }
                                            String::new()
                                        },
                                    };
                                    let name = self.tasks[self.task_idx].name.clone();
                                    let ghost nm = name@;
                                    if abort {
                                        let msg = abort_message(name.as_str(), e.as_str());
                                        let ghost mg = msg@;
                                        self.results.push((name, msg));
                                        self.phase = Phase::Done;
                                        proof {
                                            assert(self.results.deep_view() =~= m0.results.push(
                                                (nm, mg),
                                            ));
                                            assert(self@ =~~= model_step(
                                                m0,
                                                opt_outcome_val(outcome),
                                            ));
                                        }
                                        StepStatus::Finished
                                    } else {
                                        let msg = failed_message(name.as_str(), e.as_str());
                                        let ghost mg = msg@;
                                        self.results.push((name, msg));
                                        self.task_idx = self.task_idx + 1;
                                        self.cmd_idx = 0;
                                        proof {
                                            assert(self.results.deep_view() =~= m0.results.push(
                                                (nm, mg),
                                            ));
                                            assert(self@ =~~= model_step(
                                                m0,
                                                opt_outcome_val(outcome),
                                            ));
                                        }
                                        StepStatus::Progress
                                    }
                                } else {
                                    self.phase = Phase::Awaiting;
                                    proof {
                                        assert(self@ =~~= model_step(m0, opt_outcome_val(outcome)));
                                    }
                                    StepStatus::Requested(
                                        ActionRequest { custom: false, action: action_c, args: sargs },
                                    )
                                }
                            },
                        }
                    },
                    Command::Custom { action, args, abort_on_failure } => {
                        let action_c = action.clone();
                        let subst: Option<Vec<String>> = match args {
                            Some(a) => substitute_args(a, &self.variables),
                            None => {
                                let empty: Vec<String> = Vec::new();
                                proof {
                                    assert(empty.deep_view() =~= Seq::<Seq<char>>::empty());
                                    assert(subst_args(Seq::<Seq<char>>::empty(), self@.store)
                                        =~= Some(empty.deep_view()));
                                }
                                Some(empty)
                            },
                        };
                        match subst {
                            None => {
                                self.phase = Phase::Fatal;
                                proof {
                                    assert(self@ =~~= model_step(m0, opt_outcome_val(outcome)));
                                }
                                StepStatus::FatalVariable
                            },
                            Some(sargs) => {
                                self.phase = Phase::Awaiting;
                                proof {
                                    assert(self@ =~~= model_step(m0, opt_outcome_val(outcome)));
                                }
                                StepStatus::Requested(
                                    ActionRequest { custom: true, action: action_c, args: sargs },
                                )
                            },
                        }
                    },
                }
            },
        }
    }

    /// Reads the designated `score` variable at the end of a run, coerced to
    /// an unsigned integer; its absence or wrong type is a fatal error.
    pub fn final_score(&self) -> (r: Result<u32, ScoreError>)
        ensures
            r == final_score_spec(self@.store),
    {
        match self.variables.lookup_int("score") {
            crate::store::IntLookup::Value(n) => Ok(#[verifier::truncate] (n as u32)),
            crate::store::IntLookup::Unset => Err(ScoreError::Unset),
            crate::store::IntLookup::NotInt => Err(ScoreError::NotInteger),
            crate::store::IntLookup::Undeclared => Err(ScoreError::Undeclared),
        }
    }
}

} // verus!

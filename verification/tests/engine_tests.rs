use canvasbot::engine::{ActionRequest, CommandOutcome, ScoreError, StepStatus, Worker};
use canvasbot::pipeline::{Command, Step, Task};
use canvasbot::scalar::Scalar;

fn custom(action: &str, args: Vec<&str>, abort: bool) -> Command {
    Command::Custom {
        action: action.to_string(),
        args: Some(args.into_iter().map(|a| a.to_string()).collect()),
        abort_on_failure: Some(abort),
    }
}

fn builtin(action: &str, args: Vec<&str>, abort: bool) -> Command {
    Command::Builtin {
        action: action.to_string(),
        args: Some(args.into_iter().map(|a| a.to_string()).collect()),
        abort_on_failure: Some(abort),
    }
}

fn var_add(name: &str, value: i32) -> Command {
    Command::Variable { operation: "+".to_string(), name: name.to_string(), value }
}

fn worker_with(vars: Vec<(&str, Option<Scalar>)>, tasks: Vec<(&str, Vec<Command>)>) -> Worker {
    let mut w = Worker::new(
        vars.into_iter().map(|(n, v)| (n.to_string(), v)).collect(),
    );
    for (name, commands) in tasks {
        w.add_task(Task::new(name.to_string(), commands));
    }
    w
}

/// Runs the worker, answering every external request from the script, and
/// returns the requests seen, the final score lookup left aside.
fn drive(w: &mut Worker, mut script: Vec<CommandOutcome>) -> (Vec<ActionRequest>, bool) {
    let mut requests = Vec::new();
    let mut pending: Option<CommandOutcome> = None;
    loop {
        match w.step(pending.take()) {
            StepStatus::Progress => {}
            StepStatus::Requested(req) => {
                requests.push(req);
                assert!(!script.is_empty(), "script exhausted");
                pending = Some(script.remove(0));
            }
            StepStatus::Finished => return (requests, false),
            StepStatus::FatalVariable => return (requests, true),
        }
    }
}

#[test]
fn substituting_a_declared_int_yields_its_decimal_text() {
    let mut w = worker_with(
        vec![("count", Some(Scalar::Int(5)))],
        vec![("t1", vec![custom("echo", vec!["var::count", "plain"], false)])],
    );
    let (requests, fatal) = drive(&mut w, vec![CommandOutcome::Success]);
    assert!(!fatal);
    assert_eq!(requests.len(), 1);
    assert!(requests[0].custom);
    assert_eq!(requests[0].action, "echo");
    assert_eq!(requests[0].args, vec!["5".to_string(), "plain".to_string()]);
}

#[test]
fn substituting_an_undeclared_variable_aborts_the_pipeline() {
    let mut w = worker_with(
        vec![("count", Some(Scalar::Int(5)))],
        vec![
            ("t1", vec![custom("echo", vec!["var::missing"], false)]),
            ("t2", vec![var_add("count", 1)]),
        ],
    );
    let (requests, fatal) = drive(&mut w, vec![]);
    assert!(fatal);
    assert!(requests.is_empty());
    assert!(w.results.is_empty());
}

#[test]
fn substituting_an_unset_variable_is_fatal_too() {
    let mut w = worker_with(
        vec![("url", None)],
        vec![("t1", vec![custom("echo", vec!["var::url"], false)])],
    );
    let (_, fatal) = drive(&mut w, vec![]);
    assert!(fatal);
}

#[test]
fn results_appear_in_declaration_order() {
    let mut w = worker_with(
        vec![],
        vec![
            ("alpha", vec![custom("a", vec![], false)]),
            ("beta", vec![custom("b", vec![], false)]),
            ("gamma", vec![]),
        ],
    );
    let (_, fatal) = drive(&mut w, vec![CommandOutcome::Success, CommandOutcome::Success]);
    assert!(!fatal);
    let names: Vec<&str> = w.results.iter().map(|(n, _)| n.as_str()).collect();
    assert_eq!(names, vec!["alpha", "beta", "gamma"]);
}

#[test]
fn abort_on_failure_stops_every_later_step() {
    let mut w = worker_with(
        vec![],
        vec![
            ("t1", vec![custom("a", vec![], true)]),
            ("t2", vec![custom("b", vec![], false)]),
        ],
    );
    let (requests, fatal) = drive(&mut w, vec![CommandOutcome::Failure("boom".to_string())]);
    assert!(!fatal);
    assert_eq!(requests.len(), 1, "the second step must never be dispatched");
    assert_eq!(w.results.len(), 1);
    assert_eq!(w.results[0].0, "t1");
    assert_eq!(
        w.results[0].1,
        format!(
            "{:<width$} {:>width2$}\n{}\nTest aborted.\n",
            "[t1]",
            "Failed",
            "boom",
            width = 10,
            width2 = 20
        )
    );
}

#[test]
fn failure_without_abort_skips_the_rest_of_the_task_but_not_the_next_step() {
    let mut w = worker_with(
        vec![],
        vec![
            ("t1", vec![custom("a", vec![], false), custom("never", vec![], false)]),
            ("t2", vec![custom("b", vec![], false)]),
        ],
    );
    let (requests, fatal) = drive(
        &mut w,
        vec![CommandOutcome::Failure("oops".to_string()), CommandOutcome::Success],
    );
    assert!(!fatal);
    // the failing command and then t2's command: the command after the
    // failure inside t1 is never dispatched
    assert_eq!(requests.len(), 2);
    assert_eq!(requests[0].action, "a");
    assert_eq!(requests[1].action, "b");
    assert_eq!(w.results.len(), 2);
    assert_eq!(w.results[0].0, "t1");
    assert_eq!(
        w.results[0].1,
        format!("{:<10} {:>20}\n{}", "[t1]", "Failed", "oops")
    );
    assert_eq!(w.results[1].0, "t2");
    assert_eq!(
        w.results[1].1,
        format!("{:<10} {:>20}\n", "[t2]", "Passed")
    );
}

#[test]
fn spawn_failure_messages_have_their_own_shape() {
    let mut w = worker_with(
        vec![],
        vec![
            ("t1", vec![custom("a", vec![], false)]),
            ("t2", vec![custom("b", vec![], true)]),
        ],
    );
    let (_, fatal) = drive(
        &mut w,
        vec![
            CommandOutcome::SpawnFailure("no such file".to_string()),
            CommandOutcome::SpawnFailure("gone".to_string()),
        ],
    );
    assert!(!fatal);
    assert_eq!(w.results.len(), 2);
    assert_eq!(
        w.results[0].1,
        "[t1] execution failed due to: no such file\n"
    );
    assert_eq!(w.results[1].1, "[t2] aborted due to failure: gone\n");
}

#[test]
fn unknown_builtin_fails_the_owning_task() {
    let mut w = worker_with(
        vec![],
        vec![
            ("t1", vec![builtin("no_such_action", vec![], false)]),
            ("t2", vec![]),
        ],
    );
    let (requests, fatal) = drive(&mut w, vec![]);
    assert!(!fatal);
    assert!(requests.is_empty());
    assert_eq!(w.results.len(), 2);
    assert_eq!(
        w.results[0].1,
        format!(
            "{:<10} {:>20}\n{}",
            "[t1]", "Failed", "Builtin command 'no_such_action' not found."
        )
    );
    assert_eq!(w.results[1].1, format!("{:<10} {:>20}\n", "[t2]", "Passed"));
}

#[test]
fn known_builtin_is_dispatched_with_substituted_args() {
    let mut w = worker_with(
        vec![("dir", Some(Scalar::Str("/work".to_string())))],
        vec![("t1", vec![builtin("compile_cmake", vec!["var::dir"], true)])],
    );
    let (requests, fatal) = drive(&mut w, vec![CommandOutcome::Success]);
    assert!(!fatal);
    assert_eq!(requests.len(), 1);
    assert!(!requests[0].custom);
    assert_eq!(requests[0].action, "compile_cmake");
    assert_eq!(requests[0].args, vec!["/work".to_string()]);
}

#[test]
fn variable_plus_updates_the_store_in_place() {
    let mut w = worker_with(
        vec![("score", Some(Scalar::Int(0)))],
        vec![("t1", vec![var_add("score", 40), var_add("score", 20)])],
    );
    let (_, fatal) = drive(&mut w, vec![]);
    assert!(!fatal);
    assert_eq!(w.final_score(), Ok(60));
}

#[test]
fn variable_op_on_missing_or_non_integer_only_passes_over() {
    let mut w = worker_with(
        vec![("name", Some(Scalar::Str("x".to_string())))],
        vec![("t1", vec![var_add("name", 1), var_add("ghostly", 1)])],
    );
    let (_, fatal) = drive(&mut w, vec![]);
    assert!(!fatal);
    assert_eq!(w.results.len(), 1);
    assert_eq!(w.results[0].1, format!("{:<10} {:>20}\n", "[t1]", "Passed"));
}

#[test]
fn other_variable_operations_are_ignored() {
    let mut w = worker_with(
        vec![("score", Some(Scalar::Int(7)))],
        vec![("t1", vec![Command::Variable {
            operation: "-".to_string(),
            name: "score".to_string(),
            value: 5,
        }])],
    );
    let (_, fatal) = drive(&mut w, vec![]);
    assert!(!fatal);
    assert_eq!(w.final_score(), Ok(7));
}

#[test]
fn modify_variable_sets_only_declared_names() {
    let mut w = worker_with(
        vec![("url", None)],
        vec![("t1", vec![custom("fetch", vec!["var::url"], false)])],
    );
    // an undeclared name is left alone; the declared one takes the value
    w.modify_variable("nope", Scalar::Int(3));
    w.modify_variable("url", Scalar::Str("http://a/b.7z".to_string()));
    let (requests, fatal) = drive(&mut w, vec![CommandOutcome::Success]);
    assert!(!fatal);
    assert_eq!(requests[0].args, vec!["http://a/b.7z".to_string()]);
    assert_eq!(w.final_score(), Err(ScoreError::Undeclared));
}

#[test]
fn missing_args_and_flag_default_to_empty_and_non_aborting() {
    let mut w = worker_with(
        vec![],
        vec![
            ("t1", vec![Command::Custom {
                action: "probe".to_string(),
                args: None,
                abort_on_failure: None,
            }]),
            ("t2", vec![]),
        ],
    );
    let (requests, fatal) = drive(&mut w, vec![CommandOutcome::Failure("x".to_string())]);
    assert!(!fatal);
    assert!(requests[0].args.is_empty());
    // the missing flag reads as false: the next step still ran
    assert_eq!(w.results.len(), 2);
    assert_eq!(w.results[1].0, "t2");
}

#[test]
fn final_score_requires_a_set_integer() {
    let w = worker_with(vec![("score", Some(Scalar::Int(95)))], vec![]);
    assert_eq!(w.final_score(), Ok(95));
    let w = worker_with(vec![("score", None)], vec![]);
    assert_eq!(w.final_score(), Err(ScoreError::Unset));
    let w = worker_with(vec![("score", Some(Scalar::Str("high".to_string())))], vec![]);
    assert_eq!(w.final_score(), Err(ScoreError::NotInteger));
    let w = worker_with(vec![], vec![]);
    assert_eq!(w.final_score(), Err(ScoreError::Undeclared));
}

#[test]
fn comment_concatenates_every_result_in_order() {
    let mut w = worker_with(
        vec![],
        vec![("t1", vec![]), ("t2", vec![custom("x", vec![], false)])],
    );
    let (_, fatal) = drive(&mut w, vec![CommandOutcome::Failure("bad".to_string())]);
    assert!(!fatal);
    let expected = format!("{:<10} {:>20}\n", "[t1]", "Passed")
        + &format!("{:<10} {:>20}\n{}", "[t2]", "Failed", "bad");
    assert_eq!(w.comment(), Some(expected));
    let w2 = worker_with(vec![], vec![]);
    assert_eq!(w2.comment(), None);
}

#[test]
fn load_tasks_keeps_step_order() {
    let mut w = Worker::new(vec![]);
    w.load_tasks(vec![
        ("one".to_string(), Step { commands: vec![] }),
        ("two".to_string(), Step { commands: vec![] }),
    ]);
    let (_, fatal) = drive(&mut w, vec![]);
    assert!(!fatal);
    let names: Vec<&str> = w.results.iter().map(|(n, _)| n.as_str()).collect();
    assert_eq!(names, vec!["one", "two"]);
}

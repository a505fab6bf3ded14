use canvasbot::canvas::{Attachment, Submission};
use canvasbot::config::{default_fetch_filter, Config};
use canvasbot::sandbox::{plan_cycle, SandboxAction, SandboxEvent, SandboxRun};

fn config() -> Config {
    Config {
        lab_name: "lab3".to_string(),
        api_key: "SECRET-REDACTED".to_string(),
        api_url: "https://oc.example.edu".to_string(),
        sep_course_id: 77,
        lab_assignment_id: 123,
        docker_image: "runner:latest".to_string(),
        docker_cmd: vec!["/grade.sh".to_string(), "--strict".to_string()],
        lab_timeout: 600,
        fetch_filter: default_fetch_filter(),
    }
}

fn with_attachment(user_id: u32) -> Submission {
    Submission {
        user_id,
        workflow_state: "submitted".to_string(),
        attachments: Some(vec![Attachment { url: "https://files/1".to_string() }]),
    }
}

#[test]
fn no_attachments_reports_zero_and_never_creates() {
    let sub = Submission {
        user_id: 9,
        workflow_state: "submitted".to_string(),
        attachments: None,
    };
    let (mut run, actions) = SandboxRun::begin(&sub, &config());
    assert_eq!(actions.len(), 1);
    match &actions[0] {
        SandboxAction::Report { user_id, score, comment } => {
            assert_eq!(*user_id, 9);
            assert_eq!(*score, 0);
            assert_eq!(comment, "No attachments found");
        }
        other => panic!("expected a report, got {:?}", action_name(other)),
    }
    // whatever arrives later, nothing more happens — no create call ever
    for ev in [SandboxEvent::CreateOk, SandboxEvent::WaitTimeout, SandboxEvent::StartErr] {
        assert!(run.step(ev, &config()).is_empty());
    }
}

#[test]
fn an_empty_attachment_list_names_the_missing_url() {
    let sub = Submission {
        user_id: 9,
        workflow_state: "submitted".to_string(),
        attachments: Some(vec![]),
    };
    let (_, actions) = SandboxRun::begin(&sub, &config());
    assert_eq!(actions.len(), 1);
    match &actions[0] {
        SandboxAction::Report { score, comment, .. } => {
            assert_eq!(*score, 0);
            assert_eq!(comment, "No attachment URL found");
        }
        other => panic!("expected a report, got {:?}", action_name(other)),
    }
}

fn action_name(a: &SandboxAction) -> &'static str {
    match a {
        SandboxAction::Create { .. } => "create",
        SandboxAction::Start { .. } => "start",
        SandboxAction::Wait { .. } => "wait",
        SandboxAction::Stop { .. } => "stop",
        SandboxAction::Remove { .. } => "remove",
        SandboxAction::Report { .. } => "report",
    }
}

#[test]
fn provisioning_carries_image_command_owner_and_limits() {
    let (run, actions) = SandboxRun::begin(&with_attachment(42), &config());
    assert_eq!(run.container_name, "lab3-42");
    assert_eq!(actions.len(), 1);
    match &actions[0] {
        SandboxAction::Create { name, image, cmd, memory, auto_remove } => {
            assert_eq!(name, "lab3-42");
            assert_eq!(image, "runner:latest");
            assert_eq!(
                cmd,
                &vec!["/grade.sh".to_string(), "--strict".to_string(), "42".to_string()]
            );
            assert_eq!(*memory, 1_073_741_824);
            assert!(*auto_remove);
        }
        other => panic!("expected a create, got {:?}", action_name(other)),
    }
}

fn run_to_running(run: &mut SandboxRun, cfg: &Config) {
    let a = run.step(SandboxEvent::CreateOk, cfg);
    assert_eq!(a.len(), 1);
    assert_eq!(action_name(&a[0]), "start");
    let a = run.step(SandboxEvent::StartOk, cfg);
    assert_eq!(a.len(), 1);
    match &a[0] {
        SandboxAction::Wait { name, timeout_secs } => {
            assert_eq!(name, &run.container_name);
            assert_eq!(*timeout_secs, 600);
        }
        other => panic!("expected a wait, got {:?}", action_name(other)),
    }
}

#[test]
fn a_timeout_stops_removes_and_reports_exactly_once() {
    let cfg = config();
    let (mut run, _) = SandboxRun::begin(&with_attachment(7), &cfg);
    run_to_running(&mut run, &cfg);
    let actions = run.step(SandboxEvent::WaitTimeout, &cfg);
    let names: Vec<&str> = actions.iter().map(action_name).collect();
    assert_eq!(names, vec!["stop", "remove", "report"]);
    match &actions[2] {
        SandboxAction::Report { user_id, score, comment } => {
            assert_eq!(*user_id, 7);
            assert_eq!(*score, 0);
            assert_eq!(comment, "Test timeout");
        }
        _ => unreachable!(),
    }
    // terminal thereafter: no second stop, remove or report
    for ev in [SandboxEvent::WaitTimeout, SandboxEvent::WaitExited, SandboxEvent::CreateOk] {
        assert!(run.step(ev, &cfg).is_empty());
    }
}

#[test]
fn a_clean_exit_reports_nothing() {
    let cfg = config();
    let (mut run, _) = SandboxRun::begin(&with_attachment(7), &cfg);
    run_to_running(&mut run, &cfg);
    assert!(run.step(SandboxEvent::WaitExited, &cfg).is_empty());
    assert!(run.step(SandboxEvent::WaitTimeout, &cfg).is_empty());
}

#[test]
fn a_wait_error_is_terminal_without_a_score_report() {
    let cfg = config();
    let (mut run, _) = SandboxRun::begin(&with_attachment(7), &cfg);
    run_to_running(&mut run, &cfg);
    assert!(run.step(SandboxEvent::WaitError, &cfg).is_empty());
    let (mut run2, _) = SandboxRun::begin(&with_attachment(8), &cfg);
    run_to_running(&mut run2, &cfg);
    assert!(run2.step(SandboxEvent::WaitStreamEnd, &cfg).is_empty());
}

#[test]
fn create_and_start_failures_report_their_own_diagnostics() {
    let cfg = config();
    let (mut run, _) = SandboxRun::begin(&with_attachment(5), &cfg);
    let actions = run.step(SandboxEvent::CreateErr, &cfg);
    match &actions[0] {
        SandboxAction::Report { score, comment, .. } => {
            assert_eq!(*score, 0);
            assert_eq!(comment, "Test environment startup error");
        }
        _ => unreachable!(),
    }
    let (mut run2, _) = SandboxRun::begin(&with_attachment(6), &cfg);
    run2.step(SandboxEvent::CreateOk, &cfg);
    let actions = run2.step(SandboxEvent::StartErr, &cfg);
    match &actions[0] {
        SandboxAction::Report { score, comment, .. } => {
            assert_eq!(*score, 0);
            assert_eq!(comment, "Failed to start container");
        }
        _ => unreachable!(),
    }
}

#[test]
fn a_cycle_launches_one_lifecycle_per_eligible_submission() {
    let cfg = config();
    let launches = plan_cycle(
        Ok(vec![with_attachment(1), with_attachment(2), with_attachment(3)]),
        &cfg,
    );
    assert_eq!(launches.len(), 3);
    for (i, (run, actions)) in launches.iter().enumerate() {
        assert_eq!(run.user_id, (i + 1) as u32);
        assert_eq!(run.container_name, format!("lab3-{}", i + 1));
        assert_eq!(actions.len(), 1);
        assert_eq!(action_name(&actions[0]), "create");
    }
}

#[test]
fn a_failed_fetch_skips_the_whole_cycle() {
    let launches = plan_cycle(Err("connection refused".to_string()), &config());
    assert!(launches.is_empty());
}

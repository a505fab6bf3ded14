//! The per-submission sandbox lifecycle: provision, start, bounded wait, and
//! forced teardown on timeout — as a state machine whose actions (container
//! calls, score reports) the caller performs outside.
use vstd::prelude::*;
use crate::canvas::{Submission, SubmissionModel, subs_model};
use crate::config::Config;
use crate::text;

verus! {

/// Where one submission's sandboxed execution stands. `Creating` and
/// `Starting` wait for the container runtime's answer to the provision and
/// start calls; the instant between a successful create and the start call it
/// triggers is not observable from outside. The remaining states are
/// terminal: `Rejected` never touched the runtime at all.
pub enum SandboxState {
    Creating,
    Starting,
    Running,
    Exited,
    TimedOut,
    Rejected,
    CreateFailed,
    StartFailed,
    WaitFailed,
}

/// What the bounded wait or a runtime call came back with.
pub enum SandboxEvent {
    CreateOk,
    CreateErr,
    StartOk,
    StartErr,
    WaitExited,
    WaitError,
    WaitStreamEnd,
    WaitTimeout,
}

/// A call the lifecycle asks its driver to perform: a container-runtime call
/// or a score report upstream.
pub enum SandboxAction {
    Create { name: String, image: String, cmd: Vec<String>, memory: i64, auto_remove: bool },
    Start { name: String },
    Wait { name: String, timeout_secs: u64 },
    Stop { name: String },
    Remove { name: String },
    Report { user_id: u32, score: u32, comment: String },
}

/// The mathematical value of a requested action.
pub enum ActionModel {
    CreateM { name: Seq<char>, image: Seq<char>, cmd: Seq<Seq<char>>, memory: i64, auto_remove: bool },
    StartM(Seq<char>),
    WaitM(Seq<char>, u64),
    StopM(Seq<char>),
    RemoveM(Seq<char>),
    ReportM(u32, u32, Seq<char>),
}

impl SandboxAction {
    /// The mathematical value of this action.
    pub open spec fn view_val(&self) -> ActionModel {
        match self {
            SandboxAction::Create { name, image, cmd, memory, auto_remove } => ActionModel::CreateM {
                name: name@,
                image: image@,
                cmd: cmd.deep_view(),
                memory: *memory,
                auto_remove: *auto_remove,
            },
            SandboxAction::Start { name } => ActionModel::StartM(name@),
            SandboxAction::Wait { name, timeout_secs } => ActionModel::WaitM(name@, *timeout_secs),
            SandboxAction::Stop { name } => ActionModel::StopM(name@),
            SandboxAction::Remove { name } => ActionModel::RemoveM(name@),
            SandboxAction::Report { user_id, score, comment } => ActionModel::ReportM(
                *user_id,
                *score,
                comment@,
            ),
        }
    }
}

/// The mathematical value of a requested action list.
pub open spec fn actions_model(v: Seq<SandboxAction>) -> Seq<ActionModel> {
    v.map_values(|a: SandboxAction| a.view_val())
}

/// The container name one submission's sandbox runs under.
pub open spec fn container_name_of(uid: u32) -> Seq<char> {
    "lab3-"@ + text::dec_chars(uid as nat)
}

/// The fixed memory ceiling of a sandbox, in bytes.
pub open spec fn memory_limit() -> i64 {
    1073741824
}

/// Whether a sandbox state is terminal: nothing further ever happens in it.
pub open spec fn is_terminal(s: SandboxState) -> bool {
    match s {
        SandboxState::Creating => false,
        SandboxState::Starting => false,
        SandboxState::Running => false,
        _ => true,
    }
}

/// How a lifecycle opens for a submission: without attachments it is rejected
/// at once — score zero reported, the missing attachment named, no container
/// call made; otherwise provisioning is requested, the submission's owner id
/// appended to the configured command, under the fixed memory ceiling, with
/// automatic removal on exit.
pub open spec fn begin_model(
    sub: SubmissionModel,
    image: Seq<char>,
    docker_cmd: Seq<Seq<char>>,
) -> (SandboxState, Seq<ActionModel>) {
    let uid = sub.user_id;
    match sub.attachments {
        None => (
            SandboxState::Rejected,
            seq![ActionModel::ReportM(uid, 0, "No attachments found"@)],
        ),
        Some(att) => if att.len() == 0 {
            (SandboxState::Rejected, seq![ActionModel::ReportM(uid, 0, "No attachment URL found"@)])
        } else {
            (
                SandboxState::Creating,
                seq![
                    ActionModel::CreateM {
                        name: container_name_of(uid),
                        image: image,
                        cmd: docker_cmd.push(text::dec_chars(uid as nat)),
                        memory: memory_limit(),
                        auto_remove: true,
                    },
                ],
            )
        },
    }
}

/// One lifecycle transition. Provisioning or start failure is terminal, score
/// zero reported with the matching diagnostic. A sandbox that exits before
/// the deadline is done, its exit status not inspected for scoring. An error
/// or end of the wait stream is logged only — no score report. The deadline
/// elapsing triggers the forced stop, the forced removal, and the zero-score
/// timeout report, in that order. Terminal states absorb every event.
pub open spec fn sandbox_step_model(
    state: SandboxState,
    ev: SandboxEvent,
    name: Seq<char>,
    uid: u32,
    timeout_secs: u64,
) -> (SandboxState, Seq<ActionModel>) {
    match (state, ev) {
        (SandboxState::Creating, SandboxEvent::CreateOk) => (
            SandboxState::Starting,
            seq![ActionModel::StartM(name)],
        ),
        (SandboxState::Creating, SandboxEvent::CreateErr) => (
            SandboxState::CreateFailed,
            seq![ActionModel::ReportM(uid, 0, "Test environment startup error"@)],
        ),
        (SandboxState::Starting, SandboxEvent::StartOk) => (
            SandboxState::Running,
            seq![ActionModel::WaitM(name, timeout_secs)],
        ),
        (SandboxState::Starting, SandboxEvent::StartErr) => (
            SandboxState::StartFailed,
            seq![ActionModel::ReportM(uid, 0, "Failed to start container"@)],
        ),
        (SandboxState::Running, SandboxEvent::WaitExited) => (SandboxState::Exited, Seq::empty()),
        (SandboxState::Running, SandboxEvent::WaitError) => (
            SandboxState::WaitFailed,
            Seq::empty(),
        ),
        (SandboxState::Running, SandboxEvent::WaitStreamEnd) => (
            SandboxState::WaitFailed,
            Seq::empty(),
        ),
        (SandboxState::Running, SandboxEvent::WaitTimeout) => (
            SandboxState::TimedOut,
            seq![
                ActionModel::StopM(name),
                ActionModel::RemoveM(name),
                ActionModel::ReportM(uid, 0, "Test timeout"@),
            ],
        ),
        _ => (state, Seq::empty()),
    }
}

/// One submission's sandbox lifecycle, driven event by event.
pub struct SandboxRun {
    pub user_id: u32,
    pub container_name: String,
    pub state: SandboxState,
}

impl SandboxRun {
    /// Opens the lifecycle for a submission: either the immediate zero-score
    /// rejection for missing attachments, or the provisioning request.
    pub fn begin(submission: &Submission, config: &Config) -> (r: (SandboxRun, Vec<SandboxAction>))
        ensures
            r.0.user_id == submission.user_id,
            r.0.container_name@ == container_name_of(submission.user_id),
            (r.0.state, actions_model(r.1@)) == begin_model(
                submission@,
                config.docker_image@,
                config.docker_cmd.deep_view(),
            ),
    {
        let uid = submission.user_id;
        let mut name = "lab3-".to_owned();
        let uid_text = text::u32_to_string(uid);
        text::append_str(&mut name, uid_text.as_str());
        proof {
            assert(name@ =~= container_name_of(uid));
        }
        match &submission.attachments {
            None => {
                let mut actions: Vec<SandboxAction> = Vec::new();
                actions.push(
                    SandboxAction::Report {
                        user_id: uid,
                        score: 0,
                        comment: "No attachments found".to_owned(),
                    },
                );
                let run = SandboxRun { user_id: uid, container_name: name, state: SandboxState::Rejected };
                proof {
                    assert(actions_model(actions@) =~= seq![
                        ActionModel::ReportM(uid, 0, "No attachments found"@),
                    ]);
                }
                (run, actions)
            },
            Some(att) => {
                if att.len() == 0 {
                    let mut actions: Vec<SandboxAction> = Vec::new();
                    actions.push(
                        SandboxAction::Report {
                            user_id: uid,
                            score: 0,
                            comment: "No attachment URL found".to_owned(),
                        },
                    );
                    let run = SandboxRun {
                        user_id: uid,
                        container_name: name,
                        state: SandboxState::Rejected,
                    };
                    proof {
                        assert(att@.map_values(|a: crate::canvas::Attachment| a.url@).len() == 0);
                        assert(actions_model(actions@) =~= seq![
                            ActionModel::ReportM(uid, 0, "No attachment URL found"@),
                        ]);
                    }
                    (run, actions)
                } else {
                    let mut cmd: Vec<String> = Vec::new();
                    let mut i: usize = 0;
                    while i < config.docker_cmd.len()
                        invariant
                            i <= config.docker_cmd.len(),
                            cmd@.len() == i,
                            forall|j: int|
                                0 <= j < i ==> cmd.deep_view()[j] == config.docker_cmd.deep_view()[j],
                        decreases config.docker_cmd.len() - i,
                    {
                        let ghost prev = cmd.deep_view();
                        cmd.push(config.docker_cmd[i].clone());
                        i = i + 1;
                        proof {
                            assert(cmd.deep_view() =~= prev.push(
                                config.docker_cmd.deep_view()[i - 1],
                            ));
                        }
                    }
                    let ghost prev = cmd.deep_view();
                    cmd.push(uid_text.clone());
                    proof {
                        assert(cmd.deep_view() =~= prev.push(text::dec_chars(uid as nat)));
                    }
                    proof {
                        assert(cmd.deep_view() =~= config.docker_cmd.deep_view().push(
                            text::dec_chars(uid as nat),
                        ));
                        assert(att@.map_values(|a: crate::canvas::Attachment| a.url@).len() > 0);
                    }
                    let mut actions: Vec<SandboxAction> = Vec::new();
                    actions.push(
                        SandboxAction::Create {
                            name: name.clone(),
                            image: config.docker_image.clone(),
                            cmd,
                            memory: 1073741824,
                            auto_remove: true,
                        },
                    );
                    let run = SandboxRun {
                        user_id: uid,
                        container_name: name,
                        state: SandboxState::Creating,
                    };
                    proof {
                        assert(actions_model(actions@) =~= begin_model(
                            submission@,
                            config.docker_image@,
                            config.docker_cmd.deep_view(),
                        ).1);
                    }
                    (run, actions)
                }
            },
        }
    }

    /// Feeds one event into the lifecycle and hands back the calls to perform
    /// next, in order.
    pub fn step(&mut self, event: SandboxEvent, config: &Config) -> (actions: Vec<SandboxAction>)
        ensures
            final(self).user_id == old(self).user_id,
            final(self).container_name == old(self).container_name,
            (final(self).state, actions_model(actions@)) == sandbox_step_model(
                old(self).state,
                event,
                old(self).container_name@,
                old(self).user_id,
                config.lab_timeout,
            ),
    {
        let mut actions: Vec<SandboxAction> = Vec::new();
        match (&self.state, &event) {
            (SandboxState::Creating, SandboxEvent::CreateOk) => {
                actions.push(SandboxAction::Start { name: self.container_name.clone() });
                self.state = SandboxState::Starting;
            },
            (SandboxState::Creating, SandboxEvent::CreateErr) => {
                actions.push(
                    SandboxAction::Report {
                        user_id: self.user_id,
                        score: 0,
                        comment: "Test environment startup error".to_owned(),
                    },
                );
                self.state = SandboxState::CreateFailed;
            },
            (SandboxState::Starting, SandboxEvent::StartOk) => {
                actions.push(
                    SandboxAction::Wait {
                        name: self.container_name.clone(),
                        timeout_secs: config.lab_timeout,
                    },
                );
                self.state = SandboxState::Running;
            },
            (SandboxState::Starting, SandboxEvent::StartErr) => {
                actions.push(
                    SandboxAction::Report {
                        user_id: self.user_id,
                        score: 0,
                        comment: "Failed to start container".to_owned(),
                    },
                );
                self.state = SandboxState::StartFailed;
            },
            (SandboxState::Running, SandboxEvent::WaitExited) => {
                self.state = SandboxState::Exited;
            },
            (SandboxState::Running, SandboxEvent::WaitError) => {
                self.state = SandboxState::WaitFailed;
            },
            (SandboxState::Running, SandboxEvent::WaitStreamEnd) => {
                self.state = SandboxState::WaitFailed;
            },
            (SandboxState::Running, SandboxEvent::WaitTimeout) => {
                actions.push(SandboxAction::Stop { name: self.container_name.clone() });
                actions.push(SandboxAction::Remove { name: self.container_name.clone() });
                actions.push(
                    SandboxAction::Report {
                        user_id: self.user_id,
                        score: 0,
                        comment: "Test timeout".to_owned(),
                    },
                );
                self.state = SandboxState::TimedOut;
            },
            _ => {},
        }
        proof {
            assert(actions_model(actions@) =~= sandbox_step_model(
                old(self).state,
                event,
                old(self).container_name@,
                old(self).user_id,
                config.lab_timeout,
            ).1);
        }
        actions
    }
}

/// Every call a lifecycle performs over a whole event sequence, in order.
pub open spec fn sandbox_trace(
    state: SandboxState,
    events: Seq<SandboxEvent>,
    name: Seq<char>,
    uid: u32,
    timeout_secs: u64,
) -> Seq<ActionModel>
    decreases events.len(),
{
    if events.len() == 0 {
        Seq::empty()
    } else {
        let next = sandbox_step_model(state, events[0], name, uid, timeout_secs);
        next.1 + sandbox_trace(next.0, events.drop_first(), name, uid, timeout_secs)
    }
}

/// A terminal lifecycle never performs another call, whatever arrives.
pub proof fn lemma_terminal_emits_nothing(
    state: SandboxState,
    events: Seq<SandboxEvent>,
    name: Seq<char>,
    uid: u32,
    timeout_secs: u64,
)
    requires
        is_terminal(state),
    ensures
        sandbox_trace(state, events, name, uid, timeout_secs) =~= Seq::<ActionModel>::empty(),
    decreases events.len(),
{
    if events.len() > 0 {
        let next = sandbox_step_model(state, events[0], name, uid, timeout_secs);
        assert(next.0 == state && next.1 =~= Seq::<ActionModel>::empty());
        lemma_terminal_emits_nothing(state, events.drop_first(), name, uid, timeout_secs);
        assert(sandbox_trace(state, events, name, uid, timeout_secs) =~= Seq::<
            ActionModel,
        >::empty());
    }
}

/// Law: a submission with no attachments yields score zero and a comment
/// naming the missing attachments, and no sandbox creation call — not at the
/// opening, and never after, whatever events would follow.
pub proof fn lemma_no_attachments_never_creates(
    sub: SubmissionModel,
    image: Seq<char>,
    docker_cmd: Seq<Seq<char>>,
    events: Seq<SandboxEvent>,
    name: Seq<char>,
    timeout_secs: u64,
)
    requires
        sub.attachments is None,
    ensures
        begin_model(sub, image, docker_cmd).1 == seq![
            ActionModel::ReportM(sub.user_id, 0, "No attachments found"@),
        ],
        forall|k: int|
            0 <= k < begin_model(sub, image, docker_cmd).1.len() ==> !(#[trigger] begin_model(
                sub,
                image,
                docker_cmd,
            ).1[k] is CreateM),
        sandbox_trace(begin_model(sub, image, docker_cmd).0, events, name, sub.user_id, timeout_secs)
            =~= Seq::<ActionModel>::empty(),
{
    lemma_terminal_emits_nothing(
        begin_model(sub, image, docker_cmd).0,
        events,
        name,
        sub.user_id,
        timeout_secs,
    );
}

/// Law: a wait that outruns the configured deadline triggers exactly one stop
/// call, one remove call, and one score report of zero with the timeout
/// comment — in that order, and nothing further however the lifecycle is
/// prodded afterwards.
pub proof fn lemma_timeout_cleanup(
    rest: Seq<SandboxEvent>,
    name: Seq<char>,
    uid: u32,
    timeout_secs: u64,
)
    ensures
        sandbox_trace(
            SandboxState::Running,
            seq![SandboxEvent::WaitTimeout] + rest,
            name,
            uid,
            timeout_secs,
        ) =~= seq![
            ActionModel::StopM(name),
            ActionModel::RemoveM(name),
            ActionModel::ReportM(uid, 0, "Test timeout"@),
        ],
{
    let evs = seq![SandboxEvent::WaitTimeout] + rest;
    assert(evs[0] == SandboxEvent::WaitTimeout);
    assert(evs.drop_first() =~= rest);
    lemma_terminal_emits_nothing(SandboxState::TimedOut, rest, name, uid, timeout_secs);
}

/// Law: no transition but the timeout one ever stops a container, removes
/// one, or reports the timeout comment.
pub proof fn lemma_stop_remove_only_on_timeout(
    state: SandboxState,
    ev: SandboxEvent,
    name: Seq<char>,
    uid: u32,
    timeout_secs: u64,
)
    requires
        !(state is Running && ev is WaitTimeout),
    ensures
        forall|k: int|
            0 <= k < sandbox_step_model(state, ev, name, uid, timeout_secs).1.len() ==> {
                let a = #[trigger] sandbox_step_model(state, ev, name, uid, timeout_secs).1[k];
                &&& !(a is StopM)
                &&& !(a is RemoveM)
                &&& !(a matches ActionModel::ReportM(_, _, c) && c == "Test timeout"@)
            },
{
    reveal_strlit("Test timeout");
    reveal_strlit("Test environment startup error");
    reveal_strlit("Failed to start container");
    assert("Test environment startup error"@.len() != "Test timeout"@.len());
    assert("Failed to start container"@.len() != "Test timeout"@.len());
    let acts = sandbox_step_model(state, ev, name, uid, timeout_secs).1;
    assert forall|k: int| 0 <= k < acts.len() implies {
        let a = #[trigger] acts[k];
        &&& !(a is StopM)
        &&& !(a is RemoveM)
        &&& !(a matches ActionModel::ReportM(_, _, c) && c == "Test timeout"@)
    } by {
        match state {
            SandboxState::Creating => {
                assert(!(acts[k] is StopM) && !(acts[k] is RemoveM));
            },
            SandboxState::Starting => {
                assert(!(acts[k] is StopM) && !(acts[k] is RemoveM));
            },
            SandboxState::Running => {
                assert(acts.len() == 0);
            },
            _ => {
                assert(acts.len() == 0);
            },
        }
    }
}

/// The launches one poll cycle fans out: nothing at all when the fetch
/// failed — the cycle is skipped entirely, retried next tick — and otherwise
/// one freshly opened, independent sandbox lifecycle per eligible submission,
/// in fetch order.
pub fn plan_cycle(fetch: Result<Vec<Submission>, String>, config: &Config) -> (r: Vec<
    (SandboxRun, Vec<SandboxAction>),
>)
    ensures
        fetch is Err ==> r@.len() == 0,
        fetch matches Ok(subs) ==> {
            &&& r@.len() == subs@.len()
            &&& forall|i: int|
                0 <= i < r@.len() ==> {
                    let (run, acts) = #[trigger] r@[i];
                    &&& run.user_id == subs@[i]@.user_id
                    &&& run.container_name@ == container_name_of(subs@[i]@.user_id)
                    &&& (run.state, actions_model(acts@)) == begin_model(
                        subs@[i]@,
                        config.docker_image@,
                        config.docker_cmd.deep_view(),
                    )
                }
        },
{
    match fetch {
        Err(_) => Vec::new(),
        Ok(subs) => {
            let mut r: Vec<(SandboxRun, Vec<SandboxAction>)> = Vec::new();
            let mut i: usize = 0;
            while i < subs.len()
                invariant
                    i <= subs.len(),
                    r@.len() == i,
                    forall|k: int|
                        0 <= k < i ==> {
                            let (run, acts) = #[trigger] r@[k];
                            &&& run.user_id == subs@[k]@.user_id
                            &&& run.container_name@ == container_name_of(subs@[k]@.user_id)
                            &&& (run.state, actions_model(acts@)) == begin_model(
                                subs@[k]@,
                                config.docker_image@,
                                config.docker_cmd.deep_view(),
                            )
                        },
                decreases subs.len() - i,
            {
                let launch = SandboxRun::begin(&subs[i], config);
                r.push(launch);
                i = i + 1;
            }
            r
        },
    }
}

} // verus!

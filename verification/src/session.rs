use vstd::prelude::*;
use vstd::string::StringExecFns;
use crate::agent::PmChatAgent;
use crate::agent::spec_display_name;
use crate::aggregate::ResponseAggregator;
use crate::normalize::NormalizedEvent;
use crate::normalize::process_line;
use crate::normalize::spec_line_step;

verus! {

/// The phases of one session's lifecycle. They are entered in this order
/// and never revisited; a failure skips ahead to `Terminated`.
#[derive(Clone, Copy, PartialEq, Eq, Structural, Debug)]
pub enum Phase {
    Provisioning,
    Spawning,
    Streaming,
    Finalizing,
    Terminated,
}

/// Where a phase stands in the lifecycle order.
pub open spec fn spec_phase_rank(p: Phase) -> int {
    match p {
        Phase::Provisioning => 0,
        Phase::Spawning => 1,
        Phase::Streaming => 2,
        Phase::Finalizing => 3,
        Phase::Terminated => 4,
    }
}

/// What the caller supplies for one session.
pub struct SessionContext {
    pub session_id: String,
    pub model: String,
    pub system_prompt: String,
    pub user_message: String,
    pub agent: PmChatAgent,
}

/// The outcome of writing the ephemeral config file.
pub enum ProvisionOutcome {
    Written,
    WriteFailed(String),
}

/// The outcome of resolving and spawning the agent process.
pub enum SpawnOutcome {
    Spawned,
    ExecutableMissing,
    SpawnError(String),
}

/// The outcome of waiting for the agent process to exit: the success flag
/// and rendered form of its exit status, or the wait failure.
pub enum WaitOutcome {
    Exited(bool, String),
    WaitError(String),
}

/// One stimulus handed to the session state machine by its driver. Each
/// phase expects one kind of stimulus; any other is ignored.
pub enum SessionInput {
    Provisioned(ProvisionOutcome),
    Launched(SpawnOutcome),
    Line(String),
    StdoutClosed,
    Waited(WaitOutcome),
}

/// One side effect the driver must perform after a step, in order.
#[derive(Debug, PartialEq, Eq)]
pub enum SessionAction {
    LaunchProcess,
    ReadLine,
    AwaitExit,
    RemoveConfig,
    Persist(String, String),
    CloseStream,
}

/// The error text reported when the ephemeral config cannot be written.
pub open spec fn spec_config_error(e: Seq<char>) -> Seq<char> {
    "Failed to create MCP config: "@ + e
}

/// The error text reported when the agent executable cannot be resolved.
pub open spec fn spec_missing_error(a: PmChatAgent) -> Seq<char> {
    spec_display_name(a) + " not found. Please install it first."@
}

/// The error text reported when spawning the agent process fails.
pub open spec fn spec_spawn_error(e: Seq<char>) -> Seq<char> {
    "Failed to spawn CLI: "@ + e
}

/// The error text reported when the agent process exits unsuccessfully.
pub open spec fn spec_exit_error(st: Seq<char>) -> Seq<char> {
    "CLI exited with status: "@ + st
}

/// The error text reported when waiting for the agent process fails.
pub open spec fn spec_wait_error(e: Seq<char>) -> Seq<char> {
    "CLI error: "@ + e
}

fn config_error_message(e: &str) -> (m: String)
    ensures
        m@ == spec_config_error(e@),
{
    let mut m = "Failed to create MCP config: ".to_owned();
    m.append(e);
    m
}

fn missing_error_message(a: PmChatAgent) -> (m: String)
    ensures
        m@ == spec_missing_error(a),
{
    let mut m = a.display_name().to_owned();
    m.append(" not found. Please install it first.");
    m
}

fn spawn_error_message(e: &str) -> (m: String)
    ensures
        m@ == spec_spawn_error(e@),
{
    let mut m = "Failed to spawn CLI: ".to_owned();
    m.append(e);
    m
}

fn exit_error_message(st: &str) -> (m: String)
    ensures
        m@ == spec_exit_error(st@),
{
    let mut m = "CLI exited with status: ".to_owned();
    m.append(st);
    m
}

fn wait_error_message(e: &str) -> (m: String)
    ensures
        m@ == spec_wait_error(e@),
{
    let mut m = "CLI error: ".to_owned();
    m.append(e);
    m
}

/// A step that ignores its stimulus: nothing observed, nothing changed.
pub open spec fn spec_ignored(
    s_old: Session,
    s_new: Session,
    evs: Seq<NormalizedEvent>,
    acts: Seq<SessionAction>,
) -> bool {
    &&& s_new.phase == s_old.phase
    &&& s_new.agg@ == s_old.agg@
    &&& evs.len() == 0
    &&& acts.len() == 0
}

/// The observable shape of a failure that ends the session before its
/// process ran: one Error then the final Done, and cleanup of the
/// ephemeral config before the stream closes.
pub open spec fn spec_terminal_failure(
    evs: Seq<NormalizedEvent>,
    acts: Seq<SessionAction>,
    msg: Seq<char>,
) -> bool {
    &&& evs.len() == 2
    &&& evs[0] is Error
    &&& evs[0]->Error_0@ == msg
    &&& evs[1] is Done
    &&& acts.len() == 2
    &&& acts[0] is RemoveConfig
    &&& acts[1] is CloseStream
}

/// The actions of the finalize step: the config is removed first; the
/// aggregated reply is persisted exactly when it is non-empty; the stream
/// closes last.
pub open spec fn spec_finalize_actions(
    acts: Seq<SessionAction>,
    agg: Seq<char>,
    model: Seq<char>,
) -> bool {
    if agg.len() > 0 {
        &&& acts.len() == 3
        &&& acts[0] is RemoveConfig
        &&& acts[1] is Persist
        &&& acts[1]->Persist_0@ == agg
        &&& acts[1]->Persist_1@ == model
        &&& acts[2] is CloseStream
    } else {
        &&& acts.len() == 2
        &&& acts[0] is RemoveConfig
        &&& acts[1] is CloseStream
    }
}

/// The events of the finalize step: one Error when the process failed or
/// the wait itself failed, then unconditionally the single Done.
pub open spec fn spec_finalize_events(evs: Seq<NormalizedEvent>, wait: WaitOutcome) -> bool {
    match wait {
        WaitOutcome::Exited(true, _) => evs.len() == 1 && evs[0] is Done,
        WaitOutcome::Exited(false, st) => {
            &&& evs.len() == 2
            &&& evs[0] is Error
            &&& evs[0]->Error_0@ == spec_exit_error(st@)
            &&& evs[1] is Done
        },
        WaitOutcome::WaitError(e) => {
            &&& evs.len() == 2
            &&& evs[0] is Error
            &&& evs[0]->Error_0@ == spec_wait_error(e@)
            &&& evs[1] is Done
        },
    }
}

/// The state machine coordinating one session:
/// provision, spawn, stream, finalize, terminate.
pub struct Session {
    pub agent: PmChatAgent,
    pub model: String,
    pub fallback: bool,
    pub phase: Phase,
    pub agg: ResponseAggregator,
}

impl Session {
    /// A fresh session for one agent, about to provision its config.
    /// `fallback` selects the plain-text mode in which non-JSON lines are
    /// forwarded rather than dropped.
    pub fn new(agent: PmChatAgent, model: String, fallback: bool) -> (s: Session)
        ensures
            s.agent == agent,
            s.model == model,
            s.fallback == fallback,
            s.phase is Provisioning,
            s.agg@ == Seq::<char>::empty(),
    {
        Session {
            agent,
            model,
            fallback,
            phase: Phase::Provisioning,
            agg: ResponseAggregator::new(),
        }
    }

    /// Advances the lifecycle by one stimulus, returning the events to
    /// forward to the caller and the side effects the driver must perform,
    /// each in order. Phases only move forward; every failure path still
    /// removes the config and ends in the single Done.
    pub fn step(&mut self, input: SessionInput) -> (r: (Vec<NormalizedEvent>, Vec<SessionAction>))
        ensures
            final(self).agent == old(self).agent,
            final(self).model == old(self).model,
            final(self).fallback == old(self).fallback,
            spec_phase_rank(final(self).phase) >= spec_phase_rank(old(self).phase),
            old(self).phase is Provisioning ==> match input {
                SessionInput::Provisioned(ProvisionOutcome::Written) => {
                    &&& final(self).phase is Spawning
                    &&& final(self).agg@ == old(self).agg@
                    &&& r.0@.len() == 0
                    &&& r.1@.len() == 1 && r.1@[0] is LaunchProcess
                },
                SessionInput::Provisioned(ProvisionOutcome::WriteFailed(e)) => {
                    &&& final(self).phase is Terminated
                    &&& final(self).agg@ == old(self).agg@
                    &&& spec_terminal_failure(r.0@, r.1@, spec_config_error(e@))
                },
                _ => spec_ignored(*old(self), *final(self), r.0@, r.1@),
            },
            old(self).phase is Spawning ==> match input {
                SessionInput::Launched(SpawnOutcome::Spawned) => {
                    &&& final(self).phase is Streaming
                    &&& final(self).agg@ == old(self).agg@
                    &&& r.0@.len() == 0
                    &&& r.1@.len() == 1 && r.1@[0] is ReadLine
                },
                SessionInput::Launched(SpawnOutcome::ExecutableMissing) => {
                    &&& final(self).phase is Terminated
                    &&& final(self).agg@ == old(self).agg@
                    &&& spec_terminal_failure(r.0@, r.1@, spec_missing_error(old(self).agent))
                },
                SessionInput::Launched(SpawnOutcome::SpawnError(e)) => {
                    &&& final(self).phase is Terminated
                    &&& final(self).agg@ == old(self).agg@
                    &&& spec_terminal_failure(r.0@, r.1@, spec_spawn_error(e@))
                },
                _ => spec_ignored(*old(self), *final(self), r.0@, r.1@),
            },
            old(self).phase is Streaming ==> match input {
                SessionInput::Line(l) => {
                    let step = spec_line_step(l@, old(self).agg@, old(self).fallback);
                    &&& final(self).phase is Streaming
                    &&& final(self).agg@ == step.1
                    &&& (step.0 is Some ==> r.0@.len() == 1 && r.0@[0] is Content
                        && r.0@[0]->Content_0@ == step.0->0)
                    &&& (step.0 is None ==> r.0@.len() == 0)
                    &&& r.1@.len() == 1 && r.1@[0] is ReadLine
                },
                SessionInput::StdoutClosed => {
                    &&& final(self).phase is Finalizing
                    &&& final(self).agg@ == old(self).agg@
                    &&& r.0@.len() == 0
                    &&& r.1@.len() == 1 && r.1@[0] is AwaitExit
                },
                _ => spec_ignored(*old(self), *final(self), r.0@, r.1@),
            },
            old(self).phase is Finalizing ==> match input {
                SessionInput::Waited(w) => {
                    &&& final(self).phase is Terminated
                    &&& final(self).agg@ == old(self).agg@
                    &&& spec_finalize_events(r.0@, w)
                    &&& spec_finalize_actions(r.1@, old(self).agg@, old(self).model@)
                },
                _ => spec_ignored(*old(self), *final(self), r.0@, r.1@),
            },
            old(self).phase is Terminated ==> spec_ignored(
                *old(self),
                *final(self),
                r.0@,
                r.1@,
            ),
    {
        let mut evs: Vec<NormalizedEvent> = Vec::new();
        let mut acts: Vec<SessionAction> = Vec::new();
        match self.phase {
            Phase::Provisioning => match input {
                SessionInput::Provisioned(ProvisionOutcome::Written) => {
                    self.phase = Phase::Spawning;
                    acts.push(SessionAction::LaunchProcess);
                },
                SessionInput::Provisioned(ProvisionOutcome::WriteFailed(e)) => {
                    self.phase = Phase::Terminated;
                    evs.push(NormalizedEvent::Error(config_error_message(e.as_str())));
                    evs.push(NormalizedEvent::Done);
                    acts.push(SessionAction::RemoveConfig);
                    acts.push(SessionAction::CloseStream);
                },
                _ => {},
            },
            Phase::Spawning => match input {
                SessionInput::Launched(SpawnOutcome::Spawned) => {
                    self.phase = Phase::Streaming;
                    acts.push(SessionAction::ReadLine);
                },
                SessionInput::Launched(SpawnOutcome::ExecutableMissing) => {
                    self.phase = Phase::Terminated;
                    evs.push(NormalizedEvent::Error(missing_error_message(self.agent)));
                    evs.push(NormalizedEvent::Done);
                    acts.push(SessionAction::RemoveConfig);
                    acts.push(SessionAction::CloseStream);
                },
                SessionInput::Launched(SpawnOutcome::SpawnError(e)) => {
                    self.phase = Phase::Terminated;
                    evs.push(NormalizedEvent::Error(spawn_error_message(e.as_str())));
                    evs.push(NormalizedEvent::Done);
                    acts.push(SessionAction::RemoveConfig);
                    acts.push(SessionAction::CloseStream);
                },
                _ => {},
            },
            Phase::Streaming => match input {
                SessionInput::Line(l) => {
                    let fallback = self.fallback;
                    let ev = process_line(l.as_str(), fallback, &mut self.agg);
                    if let Some(e) = ev {
                        evs.push(e);
                    }
                    acts.push(SessionAction::ReadLine);
                },
                SessionInput::StdoutClosed => {
                    self.phase = Phase::Finalizing;
                    acts.push(SessionAction::AwaitExit);
                },
                _ => {},
            },
            Phase::Finalizing => match input {
                SessionInput::Waited(w) => {
                    self.phase = Phase::Terminated;
                    acts.push(SessionAction::RemoveConfig);
                    if !self.agg.is_empty() {
                        acts.push(
                            SessionAction::Persist(self.agg.snapshot(), self.model.clone()),
                        );
                    }
                    acts.push(SessionAction::CloseStream);
                    match w {
                        WaitOutcome::Exited(true, _) => {},
                        WaitOutcome::Exited(false, st) => {
                            evs.push(NormalizedEvent::Error(exit_error_message(st.as_str())));
                        },
                        WaitOutcome::WaitError(e) => {
                            evs.push(NormalizedEvent::Error(wait_error_message(e.as_str())));
                        },
                    }
                    evs.push(NormalizedEvent::Done);
                },
                _ => {},
            },
            Phase::Terminated => {},
        }
        (evs, acts)
    }
}

/// The record of one completed session drive: the events the caller
/// observed and the side effects performed, each in order.
pub struct SessionRun {
    pub events: Vec<NormalizedEvent>,
    pub actions: Vec<SessionAction>,
}

/// How many of the actions remove the ephemeral config.
pub open spec fn spec_removes(s: Seq<SessionAction>) -> nat
    decreases s.len(),
{
    if s.len() == 0 {
        0
    } else {
        spec_removes(s.drop_last()) + if s.last() is RemoveConfig {
            1nat
        } else {
            0nat
        }
    }
}

/// How many of the actions persist the aggregated reply.
pub open spec fn spec_persists(s: Seq<SessionAction>) -> nat
    decreases s.len(),
{
    if s.len() == 0 {
        0
    } else {
        spec_persists(s.drop_last()) + if s.last() is Persist {
            1nat
        } else {
            0nat
        }
    }
}

proof fn lemma_removes_concat(a: Seq<SessionAction>, b: Seq<SessionAction>)
    ensures
        spec_removes(a + b) == spec_removes(a) + spec_removes(b),
    decreases b.len(),
{
    if b.len() == 0 {
        assert(a + b =~= a);
    } else {
        lemma_removes_concat(a, b.drop_last());
        assert((a + b).drop_last() =~= a + b.drop_last());
        assert((a + b).last() == b.last());
    }
}

proof fn lemma_persists_concat(a: Seq<SessionAction>, b: Seq<SessionAction>)
    ensures
        spec_persists(a + b) == spec_persists(a) + spec_persists(b),
    decreases b.len(),
{
    if b.len() == 0 {
        assert(a + b =~= a);
    } else {
        lemma_persists_concat(a, b.drop_last());
        assert((a + b).drop_last() =~= a + b.drop_last());
        assert((a + b).last() == b.last());
    }
}

proof fn lemma_removes_none(s: Seq<SessionAction>)
    requires
        forall|i: int| 0 <= i < s.len() ==> !((#[trigger] s[i]) is RemoveConfig),
    ensures
        spec_removes(s) == 0,
    decreases s.len(),
{
    if s.len() > 0 {
        lemma_removes_none(s.drop_last());
    }
}

proof fn lemma_persists_none(s: Seq<SessionAction>)
    requires
        forall|i: int| 0 <= i < s.len() ==> !((#[trigger] s[i]) is Persist),
    ensures
        spec_persists(s) == 0,
    decreases s.len(),
{
    if s.len() > 0 {
        lemma_persists_none(s.drop_last());
    }
}

proof fn lemma_removes_single(s: Seq<SessionAction>, j: int)
    requires
        0 <= j < s.len(),
        s[j] is RemoveConfig,
        forall|i: int| 0 <= i < s.len() && i != j ==> !((#[trigger] s[i]) is RemoveConfig),
    ensures
        spec_removes(s) == 1,
    decreases s.len(),
{
    if j == s.len() - 1 {
        lemma_removes_none(s.drop_last());
    } else {
        lemma_removes_single(s.drop_last(), j);
    }
}

proof fn lemma_persists_single(s: Seq<SessionAction>, j: int)
    requires
        0 <= j < s.len(),
        s[j] is Persist,
        forall|i: int| 0 <= i < s.len() && i != j ==> !((#[trigger] s[i]) is Persist),
    ensures
        spec_persists(s) == 1,
    decreases s.len(),
{
    if j == s.len() - 1 {
        lemma_persists_none(s.drop_last());
    } else {
        lemma_persists_single(s.drop_last(), j);
    }
}

/// The fold of the normalizer over a whole stdout stream: the ordered
/// Content payloads forwarded to the caller, and the final aggregate.
pub open spec fn spec_drain(lines: Seq<Seq<char>>, fallback: bool) -> (Seq<Seq<char>>, Seq<char>)
    decreases lines.len(),
{
    if lines.len() == 0 {
        (Seq::<Seq<char>>::empty(), Seq::<char>::empty())
    } else {
        let prev = spec_drain(lines.drop_last(), fallback);
        let st = spec_line_step(lines.last(), prev.1, fallback);
        (
            match st.0 {
                Some(t) => prev.0.push(t),
                None => prev.0,
            },
            st.1,
        )
    }
}

/// The fold that joins forwarded payloads into one reply, in forwarding
/// order.
pub open spec fn spec_joined_contents(contents: Seq<Seq<char>>) -> Seq<char>
    decreases contents.len(),
{
    if contents.len() == 0 {
        Seq::<char>::empty()
    } else {
        crate::aggregate::spec_append(spec_joined_contents(contents.drop_last()), contents.last())
    }
}

/// Law: outside fallback mode, the aggregate a stream leaves behind is
/// exactly the space-join of the Content payloads the caller observed, in
/// order — the persisted record can never disagree with the stream.
pub proof fn lemma_persisted_matches_observed(lines: Seq<Seq<char>>)
    ensures
        spec_drain(lines, false).1 == spec_joined_contents(spec_drain(lines, false).0),
    decreases lines.len(),
{
    if lines.len() > 0 {
        lemma_persisted_matches_observed(lines.drop_last());
        let prev = spec_drain(lines.drop_last(), false);
        let st = spec_line_step(lines.last(), prev.1, false);
        match st.0 {
            Some(t) => {
                assert(prev.0.push(t).drop_last() =~= prev.0);
            },
            None => {},
        }
    }
}

/// Drives one whole session through the state machine against recorded
/// collaborator outcomes: the config-write outcome, the spawn outcome, the
/// stdout lines up to end of stream, and the process-wait outcome.
///
/// The contract states the stream invariants: the event sequence ends with
/// exactly one Done whatever the path; the ephemeral config is removed
/// exactly once on every path; on the streaming path the Content events
/// are exactly the normalized payloads in stdout order, a failed exit adds
/// one Error before the Done, and the aggregated reply is persisted with
/// the model name exactly when it is non-empty.
pub fn run_session(
    agent: PmChatAgent,
    model: String,
    fallback: bool,
    prov: ProvisionOutcome,
    spawn: SpawnOutcome,
    lines: &Vec<String>,
    wait: WaitOutcome,
) -> (r: SessionRun)
    ensures
        r.events@.len() >= 1,
        r.events@.last() is Done,
        forall|i: int| 0 <= i < r.events@.len() - 1 ==> !((#[trigger] r.events@[i]) is Done),
        spec_removes(r.actions@) == 1,
        prov matches ProvisionOutcome::WriteFailed(e) ==> {
            &&& r.events@.len() == 2
            &&& r.events@[0] is Error
            &&& r.events@[0]->Error_0@ == spec_config_error(e@)
            &&& spec_persists(r.actions@) == 0
        },
        prov is Written && spawn is ExecutableMissing ==> {
            &&& r.events@.len() == 2
            &&& r.events@[0] is Error
            &&& r.events@[0]->Error_0@ == spec_missing_error(agent)
            &&& spec_persists(r.actions@) == 0
        },
        prov is Written ==> (spawn matches SpawnOutcome::SpawnError(e) ==> {
            &&& r.events@.len() == 2
            &&& r.events@[0] is Error
            &&& r.events@[0]->Error_0@ == spec_spawn_error(e@)
            &&& spec_persists(r.actions@) == 0
        }),
        prov is Written && spawn is Spawned ==> {
            let d = spec_drain(lines.deep_view(), fallback);
            let nerr: int = match wait {
                WaitOutcome::Exited(true, _) => 0,
                _ => 1,
            };
            &&& r.events@.len() == d.0.len() + nerr + 1
            &&& forall|i: int|
                0 <= i < d.0.len() ==> (#[trigger] r.events@[i]) is Content
                    && r.events@[i]->Content_0@ == d.0[i]
            &&& (wait matches WaitOutcome::Exited(false, st) ==> r.events@[d.0.len() as int]
                is Error && r.events@[d.0.len() as int]->Error_0@ == spec_exit_error(st@))
            &&& (wait matches WaitOutcome::WaitError(e) ==> r.events@[d.0.len() as int] is Error
                && r.events@[d.0.len() as int]->Error_0@ == spec_wait_error(e@))
            &&& spec_persists(r.actions@) == (if d.1.len() > 0 {
                1nat
            } else {
                0nat
            })
            &&& forall|j: int|
                0 <= j < r.actions@.len() && (#[trigger] r.actions@[j]) is Persist
                    ==> r.actions@[j]->Persist_0@ == d.1 && r.actions@[j]->Persist_1@ == model@
        },
{
    let mut s = Session::new(agent, model, fallback);
    let mut events: Vec<NormalizedEvent> = Vec::new();
    let mut actions: Vec<SessionAction> = Vec::new();

    let (mut e1, mut a1) = s.step(SessionInput::Provisioned(prov));
    events.append(&mut e1);
    actions.append(&mut a1);

    if s.phase == Phase::Spawning {
        proof {
            lemma_removes_none(actions@);
            lemma_persists_none(actions@);
        }
        let (mut e2, mut a2) = s.step(SessionInput::Launched(spawn));
        events.append(&mut e2);
        actions.append(&mut a2);

        if s.phase == Phase::Streaming {
            proof {
                lemma_removes_none(actions@);
                lemma_persists_none(actions@);
            }
            let ghost dv = lines.deep_view();
            let n = lines.len();
            let mut i: usize = 0;
            while i < n
                invariant
                    n == lines@.len(),
                    dv == lines.deep_view(),
                    dv.len() == n,
                    i <= n,
                    s.phase is Streaming,
                    s.agent == agent,
                    s.model@ == model@,
                    s.fallback == fallback,
                    s.agg@ == spec_drain(dv.subrange(0, i as int), fallback).1,
                    events@.len() == spec_drain(dv.subrange(0, i as int), fallback).0.len(),
                    forall|k: int|
                        0 <= k < events@.len() ==> (#[trigger] events@[k]) is Content
                            && events@[k]->Content_0@ == spec_drain(
                            dv.subrange(0, i as int),
                            fallback,
                        ).0[k],
                    spec_removes(actions@) == 0,
                    spec_persists(actions@) == 0,
                    forall|j: int| 0 <= j < actions@.len() ==> !((#[trigger] actions@[j]) is Persist),
                decreases n - i,
            {
                let line = lines[i].clone();
                proof {
                    assert(dv[i as int] == lines@[i as int]@);
                }
                let (mut e3, mut a3) = s.step(SessionInput::Line(line));
                proof {
                    let pre = dv.subrange(0, i as int);
                    let cur = dv.subrange(0, i + 1);
                    assert(cur.drop_last() =~= pre);
                    assert(cur.last() == dv[i as int]);
                    lemma_removes_concat(actions@, a3@);
                    lemma_persists_concat(actions@, a3@);
                    lemma_removes_none(a3@);
                    lemma_persists_none(a3@);
                }
                events.append(&mut e3);
                actions.append(&mut a3);
                i += 1;
            }
            proof {
                assert(dv.subrange(0, n as int) =~= dv);
            }
            let (mut e4, mut a4) = s.step(SessionInput::StdoutClosed);
            proof {
                lemma_removes_concat(actions@, a4@);
                lemma_persists_concat(actions@, a4@);
                lemma_removes_none(a4@);
                lemma_persists_none(a4@);
            }
            events.append(&mut e4);
            actions.append(&mut a4);

            let ghost agg_final = s.agg@;
            let ghost pre_acts = actions@;
            let (mut e5, mut a5) = s.step(SessionInput::Waited(wait));
            proof {
                lemma_removes_concat(actions@, a5@);
                lemma_persists_concat(actions@, a5@);
                lemma_removes_single(a5@, 0);
                if agg_final.len() > 0 {
                    lemma_persists_single(a5@, 1);
                } else {
                    lemma_persists_none(a5@);
                }
            }
            events.append(&mut e5);
            actions.append(&mut a5);
            proof {
                assert forall|j: int|
                    0 <= j < actions@.len() && (#[trigger] actions@[j]) is Persist implies actions@[j]->Persist_0@
                    == agg_final && actions@[j]->Persist_1@ == model@ by {
                    if j < pre_acts.len() {
                        assert(actions@[j] == pre_acts[j]);
                    }
                }
            }
            SessionRun { events, actions }
        } else {
            proof {
                lemma_removes_single(actions@, 1);
                lemma_persists_none(actions@);
            }
            SessionRun { events, actions }
        }
    } else {
        proof {
            lemma_removes_single(actions@, 0);
            lemma_persists_none(actions@);
        }
        SessionRun { events, actions }
    }
}

} // verus!

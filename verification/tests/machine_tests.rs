use vibe_kanban::agent::PmChatAgent;
use vibe_kanban::normalize::NormalizedEvent;
use vibe_kanban::session::{
    Phase, ProvisionOutcome, Session, SessionAction, SessionInput, SpawnOutcome, WaitOutcome,
};

#[test]
fn the_lifecycle_advances_through_every_phase_in_order() {
    let mut s = Session::new(PmChatAgent::PrimaryCli, "sonnet".to_string(), false);
    assert_eq!(s.phase, Phase::Provisioning);

    let (evs, acts) = s.step(SessionInput::Provisioned(ProvisionOutcome::Written));
    assert_eq!(s.phase, Phase::Spawning);
    assert!(evs.is_empty());
    assert_eq!(acts, vec![SessionAction::LaunchProcess]);

    let (evs, acts) = s.step(SessionInput::Launched(SpawnOutcome::Spawned));
    assert_eq!(s.phase, Phase::Streaming);
    assert!(evs.is_empty());
    assert_eq!(acts, vec![SessionAction::ReadLine]);

    let (evs, acts) = s.step(SessionInput::Line(
        r#"{"type":"result","result":"done deal"}"#.to_string(),
    ));
    assert_eq!(s.phase, Phase::Streaming);
    assert_eq!(evs, vec![NormalizedEvent::Content("done deal".to_string())]);
    assert_eq!(acts, vec![SessionAction::ReadLine]);

    let (evs, acts) = s.step(SessionInput::StdoutClosed);
    assert_eq!(s.phase, Phase::Finalizing);
    assert!(evs.is_empty());
    assert_eq!(acts, vec![SessionAction::AwaitExit]);

    let (evs, acts) = s.step(SessionInput::Waited(WaitOutcome::Exited(
        true,
        "exit status: 0".to_string(),
    )));
    assert_eq!(s.phase, Phase::Terminated);
    assert_eq!(evs, vec![NormalizedEvent::Done]);
    assert_eq!(
        acts,
        vec![
            SessionAction::RemoveConfig,
            SessionAction::Persist("done deal".to_string(), "sonnet".to_string()),
            SessionAction::CloseStream,
        ]
    );
}

#[test]
fn a_stimulus_for_the_wrong_phase_is_ignored() {
    let mut s = Session::new(PmChatAgent::PrimaryCli, "m".to_string(), false);
    let (evs, acts) = s.step(SessionInput::Line("ignored".to_string()));
    assert_eq!(s.phase, Phase::Provisioning);
    assert!(evs.is_empty());
    assert!(acts.is_empty());

    let (evs, acts) = s.step(SessionInput::Waited(WaitOutcome::WaitError("x".to_string())));
    assert_eq!(s.phase, Phase::Provisioning);
    assert!(evs.is_empty());
    assert!(acts.is_empty());
}

#[test]
fn a_terminated_session_stays_terminated() {
    let mut s = Session::new(PmChatAgent::PrimaryCli, "m".to_string(), false);
    let _ = s.step(SessionInput::Provisioned(ProvisionOutcome::WriteFailed(
        "denied".to_string(),
    )));
    assert_eq!(s.phase, Phase::Terminated);
    let (evs, acts) = s.step(SessionInput::StdoutClosed);
    assert_eq!(s.phase, Phase::Terminated);
    assert!(evs.is_empty());
    assert!(acts.is_empty());
}

#[test]
fn a_failed_spawn_terminates_with_cleanup() {
    let mut s = Session::new(PmChatAgent::GeminiCli, "m".to_string(), false);
    let _ = s.step(SessionInput::Provisioned(ProvisionOutcome::Written));
    let (evs, acts) = s.step(SessionInput::Launched(SpawnOutcome::ExecutableMissing));
    assert_eq!(s.phase, Phase::Terminated);
    assert_eq!(
        evs,
        vec![
            NormalizedEvent::Error("Gemini CLI not found. Please install it first.".to_string()),
            NormalizedEvent::Done,
        ]
    );
    assert_eq!(acts, vec![SessionAction::RemoveConfig, SessionAction::CloseStream]);
}

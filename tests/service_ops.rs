use venus_worker::ctrl::{
    after_poll, after_resume, resumed_cursor, signal_reply, state_or_empty, ControlError, Ctrl,
    CtrlSnapshot, PipelineCtrl, RecvOutcome, SendOutcome,
};
use venus_worker::state::InvalidState;
use venus_worker::service::{elapsed, worker_info, Service};
use venus_worker::state::SealingState;

fn registry_with_pipelines(n: usize) -> (Service, Vec<PipelineCtrl>) {
    let mut ctrls = Vec::new();
    let mut pipelines = Vec::new();
    for i in 0..n {
        let (ctrl, pipeline) = Ctrl::new(format!("/data/worker{}", i));
        ctrls.push((i, ctrl));
        pipelines.push(pipeline);
    }
    (Service::new(ctrls), pipelines)
}

#[test]
fn list_in_registry_order() {
    let (svc, _pipelines) = registry_with_pipelines(3);
    for _ in 0..3 {
        let infos = svc.worker_list();
        assert_eq!(infos.len(), 3);
        for (i, info) in infos.iter().enumerate() {
            assert_eq!(info.index, i);
            assert_eq!(info.location, format!("/data/worker{}", i));
            assert!(!info.paused);
            assert!(info.paused_elapsed.is_none());
            assert_eq!(info.state, "Empty");
            assert!(info.sector_id.is_none() && info.last_error.is_none());
        }
    }
}

#[test]
fn list_shows_published_status() {
    let (svc, pipelines) = registry_with_pipelines(2);
    let worker = &pipelines[1];
    worker.set_state(SealingState::PC2Done);
    worker.set_sector_id(Some("s-t01000-7".to_string()));
    worker.set_last_error(Some("disk full".to_string()));
    let infos = svc.worker_list();
    assert_eq!(infos[1].state, "PC2Done");
    assert_eq!(infos[1].sector_id.as_deref(), Some("s-t01000-7"));
    assert_eq!(infos[1].last_error.as_deref(), Some("disk full"));
    assert_eq!(infos[0].state, "Empty");
    worker.set_sector_id(None);
    assert!(svc.worker_list()[1].sector_id.is_none());
}

#[test]
fn unknown_index_not_found() {
    let (svc, _pipelines) = registry_with_pipelines(3);
    assert_eq!(svc.worker_pause(3), Err(ControlError::NotFound(3)));
    assert_eq!(svc.worker_pause(usize::MAX), Err(ControlError::NotFound(usize::MAX)));
    assert_eq!(svc.worker_resume(7, None), Err(ControlError::NotFound(7)));
    assert_eq!(
        svc.worker_resume(3, Some("Empty".to_string())),
        Err(ControlError::NotFound(3))
    );
    assert!(svc.get_ctrl(3).is_err());
    assert_eq!(Service::new(Vec::new()).worker_pause(0), Err(ControlError::NotFound(0)));
}

#[test]
fn resume_unknown_state_invalid() {
    let (svc, _pipelines) = registry_with_pipelines(3);
    assert_eq!(
        svc.worker_resume(1, Some("not-a-real-state".to_string())),
        Err(ControlError::InvalidParams(InvalidState { text: "not-a-real-state".to_string() }))
    );
    assert!(!svc.worker_list()[1].paused);
}

#[test]
fn requests_without_waiting_pipeline_are_refused() {
    let (svc, _pipelines) = registry_with_pipelines(3);
    assert_eq!(svc.worker_pause(1), Ok(false));
    assert_eq!(svc.worker_resume(1, None), Ok(false));
    assert_eq!(svc.worker_resume(2, Some("C1Done".to_string())), Ok(false));
}

#[test]
fn checkpoint_without_signal_keeps_cursor() {
    let (_ctrl, pipeline) = Ctrl::new("/w".to_string());
    assert_eq!(pipeline.checkpoint(SealingState::PieceAdded, 0), Ok(SealingState::PieceAdded));
}

#[test]
fn service_identity() {
    let (svc, _pipelines) = registry_with_pipelines(1);
    assert_eq!(svc.id(), "worker-server");
    assert!(!svc.should_wait());
    assert_eq!(svc.len(), 1);
}

#[test]
fn signal_replies() {
    assert_eq!(signal_reply(SendOutcome::Delivered), Ok(true));
    assert_eq!(signal_reply(SendOutcome::NotReady), Ok(false));
    assert_eq!(signal_reply(SendOutcome::Closed), Err(ControlError::ChannelFailure));
}

#[test]
fn resume_target_moves_cursor() {
    assert_eq!(
        resumed_cursor(SealingState::PC1Done, Some(SealingState::Allocated)),
        SealingState::Allocated
    );
    assert_eq!(resumed_cursor(SealingState::PC1Done, None), SealingState::PC1Done);
}

#[test]
fn elapsed_values() {
    assert_eq!(elapsed(100, 350), 250);
    assert_eq!(elapsed(350, 100), 0);
    assert_eq!(elapsed(7, 7), 0);
}

#[test]
fn worker_info_from_snapshot() {
    let snap = CtrlSnapshot {
        state: SealingState::SeedAssigned,
        sector_id: Some("s-1".to_string()),
        last_error: None,
        paused_at: Some(500_000_000),
        now: 2_000_000_000,
    };
    let info = worker_info(4, &"/w4".to_string(), snap);
    assert_eq!(info.index, 4);
    assert_eq!(info.location, "/w4");
    assert!(info.paused);
    assert_eq!(info.paused_elapsed.as_deref(), Some("1.5s"));
    assert_eq!(info.state, "SeedAssigned");
    assert_eq!(info.sector_id.as_deref(), Some("s-1"));
    let idle = CtrlSnapshot {
        state: SealingState::Empty,
        sector_id: None,
        last_error: Some("boom".to_string()),
        paused_at: None,
        now: 9,
    };
    let info = worker_info(0, &"/w0".to_string(), idle);
    assert!(!info.paused);
    assert!(info.paused_elapsed.is_none());
    assert_eq!(info.last_error.as_deref(), Some("boom"));
}

#[test]
fn three_worker_scenario() {
    let (svc, _pipelines) = registry_with_pipelines(3);
    let infos = svc.worker_list();
    assert_eq!(infos.iter().map(|w| w.index).collect::<Vec<_>>(), vec![0, 1, 2]);
    assert!(infos.iter().all(|w| !w.paused));
    assert_eq!(svc.worker_pause(5), Err(ControlError::NotFound(5)));
    assert_eq!(svc.worker_pause(1), Ok(false));
    assert!(!svc.worker_list()[1].paused);
}

#[test]
fn ended_pipeline_is_channel_failure() {
    let (ctrl, pipeline) = Ctrl::new("/w".to_string());
    let svc = Service::new(vec![(0, ctrl)]);
    assert_eq!(svc.worker_pause(0), Ok(false));
    drop(pipeline);
    assert_eq!(svc.worker_pause(0), Err(ControlError::ChannelFailure));
    assert_eq!(svc.worker_resume(0, None), Err(ControlError::ChannelFailure));
    assert!(matches!(
        svc.worker_resume(0, Some("bogus".to_string())),
        Err(ControlError::InvalidParams(_))
    ));
}

#[test]
fn checkpoint_on_closed_channel_fails() {
    let (ctrl, pipeline) = Ctrl::new("/w".to_string());
    drop(ctrl);
    assert_eq!(pipeline.checkpoint(SealingState::Empty, 0), Err(ControlError::ChannelFailure));
}

#[test]
fn checkpoint_steps() {
    let c = SealingState::PC2Done;
    assert_eq!(after_poll(&RecvOutcome::Nothing, c), Some(Ok(c)));
    assert_eq!(after_poll(&RecvOutcome::Closed, c), Some(Err(ControlError::ChannelFailure)));
    assert_eq!(after_poll(&RecvOutcome::Received(()), c), None);
    assert_eq!(after_resume(Some(None), c), Ok(c));
    assert_eq!(after_resume(Some(Some(SealingState::Aborted)), c), Ok(SealingState::Aborted));
    assert_eq!(after_resume(None, c), Err(ControlError::ChannelFailure));
    assert_eq!(state_or_empty(None), SealingState::Empty);
    assert_eq!(state_or_empty(Some(c)), c);
}

#[test]
fn describe_registry_uses_each_snapshot() {
    let (svc, _pipelines) = registry_with_pipelines(2);
    let snaps = vec![
        CtrlSnapshot {
            state: SealingState::Finished,
            sector_id: Some("a".to_string()),
            last_error: None,
            paused_at: None,
            now: 0,
        },
        CtrlSnapshot {
            state: SealingState::C1Done,
            sector_id: None,
            last_error: Some("e".to_string()),
            paused_at: Some(0),
            now: 3_000_000_000,
        },
    ];
    let infos = svc.describe_registry(snaps);
    assert_eq!(infos[0].state, "Finished");
    assert_eq!(infos[0].sector_id.as_deref(), Some("a"));
    assert_eq!(infos[1].index, 1);
    assert_eq!(infos[1].last_error.as_deref(), Some("e"));
    assert_eq!(infos[1].paused_elapsed.as_deref(), Some("3s"));
    assert!(infos[1].paused && !infos[0].paused);
}

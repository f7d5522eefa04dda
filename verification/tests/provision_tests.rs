use whisper_server::error::ServiceError;
use whisper_server::provision::{step, ProvisionAction, ProvisionEvent, ProvisionState};

fn drive(events: &[ProvisionEvent]) -> (ProvisionState, Vec<ProvisionAction>) {
    let mut state = ProvisionState::Idle;
    let mut actions = Vec::new();
    for e in events {
        let (next, action) = step(state, *e);
        state = next;
        actions.push(action);
    }
    (state, actions)
}

const FAIL: ProvisionAction = ProvisionAction::Abort(ServiceError::DownloadFailed);

#[test]
fn cache_hit_probes_and_finishes() {
    let (state, actions) = drive(&[ProvisionEvent::Begin, ProvisionEvent::Probed { present: true }]);
    assert_eq!(state, ProvisionState::Ready);
    assert_eq!(actions, vec![ProvisionAction::Probe, ProvisionAction::Finish]);
}

#[test]
fn second_run_on_cached_artifact_uses_no_network() {
    for _ in 0..2 {
        let (state, actions) =
            drive(&[ProvisionEvent::Begin, ProvisionEvent::Probed { present: true }]);
        assert_eq!(state, ProvisionState::Ready);
        assert!(!actions.contains(&ProvisionAction::Fetch));
        assert!(!actions.contains(&ProvisionAction::PrepareDirectory));
        assert!(!actions.contains(&ProvisionAction::Store));
    }
}

#[test]
fn cache_miss_downloads_once_and_stores() {
    let (state, actions) = drive(&[
        ProvisionEvent::Begin,
        ProvisionEvent::Probed { present: false },
        ProvisionEvent::DirectoryPrepared { ok: true },
        ProvisionEvent::Fetched { status: Some(200) },
        ProvisionEvent::Stored { ok: true },
    ]);
    assert_eq!(state, ProvisionState::Ready);
    assert_eq!(
        actions,
        vec![
            ProvisionAction::Probe,
            ProvisionAction::PrepareDirectory,
            ProvisionAction::Fetch,
            ProvisionAction::Store,
            ProvisionAction::Finish,
        ]
    );
    assert_eq!(actions.iter().filter(|a| **a == ProvisionAction::Fetch).count(), 1);
}

#[test]
fn each_step_moves_one_state() {
    assert_eq!(
        step(ProvisionState::Idle, ProvisionEvent::Begin),
        (ProvisionState::Probing, ProvisionAction::Probe)
    );
    assert_eq!(
        step(ProvisionState::Probing, ProvisionEvent::Probed { present: false }),
        (ProvisionState::PreparingDirectory, ProvisionAction::PrepareDirectory)
    );
    assert_eq!(
        step(ProvisionState::PreparingDirectory, ProvisionEvent::DirectoryPrepared { ok: true }),
        (ProvisionState::Fetching, ProvisionAction::Fetch)
    );
    assert_eq!(
        step(ProvisionState::Fetching, ProvisionEvent::Fetched { status: Some(204) }),
        (ProvisionState::Storing, ProvisionAction::Store)
    );
    assert_eq!(
        step(ProvisionState::Storing, ProvisionEvent::Stored { ok: true }),
        (ProvisionState::Ready, ProvisionAction::Finish)
    );
}

#[test]
fn status_bounds_of_success() {
    let fetching = ProvisionState::Fetching;
    let ok = (ProvisionState::Storing, ProvisionAction::Store);
    let bad = (ProvisionState::Failed, FAIL);
    assert_eq!(step(fetching, ProvisionEvent::Fetched { status: Some(199) }), bad);
    assert_eq!(step(fetching, ProvisionEvent::Fetched { status: Some(200) }), ok);
    assert_eq!(step(fetching, ProvisionEvent::Fetched { status: Some(299) }), ok);
    assert_eq!(step(fetching, ProvisionEvent::Fetched { status: Some(300) }), bad);
    assert_eq!(step(fetching, ProvisionEvent::Fetched { status: Some(404) }), bad);
    assert_eq!(step(fetching, ProvisionEvent::Fetched { status: Some(500) }), bad);
    assert_eq!(step(fetching, ProvisionEvent::Fetched { status: Some(0) }), bad);
    assert_eq!(step(fetching, ProvisionEvent::Fetched { status: Some(u16::MAX) }), bad);
}

#[test]
fn transport_failure_fails_download() {
    let (state, actions) = drive(&[
        ProvisionEvent::Begin,
        ProvisionEvent::Probed { present: false },
        ProvisionEvent::DirectoryPrepared { ok: true },
        ProvisionEvent::Fetched { status: None },
    ]);
    assert_eq!(state, ProvisionState::Failed);
    assert_eq!(actions[3], FAIL);
}

#[test]
fn directory_failure_fails_before_any_request() {
    let (state, actions) = drive(&[
        ProvisionEvent::Begin,
        ProvisionEvent::Probed { present: false },
        ProvisionEvent::DirectoryPrepared { ok: false },
    ]);
    assert_eq!(state, ProvisionState::Failed);
    assert_eq!(actions[2], FAIL);
    assert!(!actions.contains(&ProvisionAction::Fetch));
}

#[test]
fn write_failure_fails_download() {
    let (state, actions) = drive(&[
        ProvisionEvent::Begin,
        ProvisionEvent::Probed { present: false },
        ProvisionEvent::DirectoryPrepared { ok: true },
        ProvisionEvent::Fetched { status: Some(200) },
        ProvisionEvent::Stored { ok: false },
    ]);
    assert_eq!(state, ProvisionState::Failed);
    assert_eq!(actions[4], FAIL);
}

#[test]
fn unexpected_event_fails_the_run() {
    assert_eq!(
        step(ProvisionState::Idle, ProvisionEvent::Stored { ok: true }),
        (ProvisionState::Failed, FAIL)
    );
    assert_eq!(
        step(ProvisionState::Probing, ProvisionEvent::Begin),
        (ProvisionState::Failed, FAIL)
    );
    assert_eq!(
        step(ProvisionState::Storing, ProvisionEvent::Fetched { status: Some(200) }),
        (ProvisionState::Failed, FAIL)
    );
    assert_eq!(
        step(ProvisionState::Fetching, ProvisionEvent::Probed { present: true }),
        (ProvisionState::Failed, FAIL)
    );
}

#[test]
fn ready_and_failed_absorb_every_event() {
    let all = [
        ProvisionEvent::Begin,
        ProvisionEvent::Probed { present: true },
        ProvisionEvent::Probed { present: false },
        ProvisionEvent::DirectoryPrepared { ok: true },
        ProvisionEvent::Fetched { status: Some(200) },
        ProvisionEvent::Fetched { status: None },
        ProvisionEvent::Stored { ok: true },
    ];
    for e in all {
        assert_eq!(
            step(ProvisionState::Ready, e),
            (ProvisionState::Ready, ProvisionAction::Finish)
        );
        assert_eq!(step(ProvisionState::Failed, e), (ProvisionState::Failed, FAIL));
    }
}

#[test]
fn no_second_request_after_the_first() {
    let (_, actions) = drive(&[
        ProvisionEvent::Begin,
        ProvisionEvent::Probed { present: false },
        ProvisionEvent::DirectoryPrepared { ok: true },
        ProvisionEvent::DirectoryPrepared { ok: true },
        ProvisionEvent::Probed { present: false },
        ProvisionEvent::DirectoryPrepared { ok: true },
    ]);
    assert_eq!(actions.iter().filter(|a| **a == ProvisionAction::Fetch).count(), 1);
}

//! The decisions of model provisioning, as a machine from state and event to
//! next state and action. Whoever drives it performs each action against the
//! file system or the network and reports back what happened.

use vstd::prelude::*;
use crate::error::ServiceError;
use crate::model_handler::{lemma_same_request_same_artifact, ModelHandler};

verus! {

/// Where a provisioning run stands.
#[derive(Clone, Copy, Debug, PartialEq, Eq, Structural)]
pub enum ProvisionState {
    /// Nothing has been asked yet.
    Idle,
    /// Waiting to learn whether the artifact is already cached.
    Probing,
    /// Waiting for the cache directory to exist.
    PreparingDirectory,
    /// Waiting for the response to the one download request.
    Fetching,
    /// Waiting for the body to be written to the cache.
    Storing,
    /// The artifact is in the cache.
    Ready,
    /// The run has failed.
    Failed,
}

/// What the driver reports.
#[derive(Clone, Copy, Debug, PartialEq, Eq, Structural)]
pub enum ProvisionEvent {
    /// The run is asked to start.
    Begin,
    /// The artifact path was looked at.
    Probed { present: bool },
    /// The cache directory was created, or could not be.
    DirectoryPrepared { ok: bool },
    /// The download request ended: `None` for a transport failure, else the
    /// HTTP status of the response.
    Fetched { status: Option<u16> },
    /// The body was written whole to the artifact path, or could not be.
    Stored { ok: bool },
}

/// What the driver is to do next.
#[derive(Clone, Copy, Debug, PartialEq, Eq, Structural)]
pub enum ProvisionAction {
    /// Look whether the artifact path exists.
    Probe,
    /// Create the cache directory and its parents; harmless if it exists.
    PrepareDirectory,
    /// Issue one GET for the artifact URL.
    Fetch,
    /// Write the whole body beside the artifact path and move it into place,
    /// replacing what is there, so that a present artifact is never partial.
    Store,
    /// Hand out the artifact path.
    Finish,
    /// Give up with this error.
    Abort(ServiceError),
}

/// Whether an HTTP status reports success.
pub open spec fn is_success(status: int) -> bool {
    200 <= status < 300
}

/// The machine's transition: the state after `event` and the action it calls for.
/// `Ready` and `Failed` absorb every event; an event that the state was not
/// waiting for fails the run.
pub open spec fn transition(state: ProvisionState, event: ProvisionEvent) -> (
    ProvisionState,
    ProvisionAction,
) {
    match (state, event) {
        (ProvisionState::Ready, _) => (ProvisionState::Ready, ProvisionAction::Finish),
        (ProvisionState::Idle, ProvisionEvent::Begin) => (
            ProvisionState::Probing,
            ProvisionAction::Probe,
        ),
        (ProvisionState::Probing, ProvisionEvent::Probed { present: true }) => (
            ProvisionState::Ready,
            ProvisionAction::Finish,
        ),
        (ProvisionState::Probing, ProvisionEvent::Probed { present: false }) => (
            ProvisionState::PreparingDirectory,
            ProvisionAction::PrepareDirectory,
        ),
        (ProvisionState::PreparingDirectory, ProvisionEvent::DirectoryPrepared { ok: true }) => (
            ProvisionState::Fetching,
            ProvisionAction::Fetch,
        ),
        (ProvisionState::Fetching, ProvisionEvent::Fetched { status: Some(code) }) => if is_success(
            code as int,
        ) {
            (ProvisionState::Storing, ProvisionAction::Store)
        } else {
            (ProvisionState::Failed, ProvisionAction::Abort(ServiceError::DownloadFailed))
        },
        (ProvisionState::Storing, ProvisionEvent::Stored { ok: true }) => (
            ProvisionState::Ready,
            ProvisionAction::Finish,
        ),
        _ => (ProvisionState::Failed, ProvisionAction::Abort(ServiceError::DownloadFailed)),
    }
}

/// One step of provisioning.
pub fn step(state: ProvisionState, event: ProvisionEvent) -> (r: (ProvisionState, ProvisionAction))
    ensures
        r == transition(state, event),
{
    let failed = (ProvisionState::Failed, ProvisionAction::Abort(ServiceError::DownloadFailed));
    match state {
        ProvisionState::Ready => (ProvisionState::Ready, ProvisionAction::Finish),
        ProvisionState::Failed => failed,
        ProvisionState::Idle => match event {
            ProvisionEvent::Begin => (ProvisionState::Probing, ProvisionAction::Probe),
            _ => failed,
        },
        ProvisionState::Probing => match event {
            ProvisionEvent::Probed { present } => if present {
                (ProvisionState::Ready, ProvisionAction::Finish)
            } else {
                (ProvisionState::PreparingDirectory, ProvisionAction::PrepareDirectory)
            },
            _ => failed,
        },
        ProvisionState::PreparingDirectory => match event {
            ProvisionEvent::DirectoryPrepared { ok } => if ok {
                (ProvisionState::Fetching, ProvisionAction::Fetch)
            } else {
                failed
            },
            _ => failed,
        },
        ProvisionState::Fetching => match event {
            ProvisionEvent::Fetched { status: Some(code) } => if 200 <= code && code < 300 {
                (ProvisionState::Storing, ProvisionAction::Store)
            } else {
                failed
            },
            _ => failed,
        },
        ProvisionState::Storing => match event {
            ProvisionEvent::Stored { ok } => if ok {
                (ProvisionState::Ready, ProvisionAction::Finish)
            } else {
                failed
            },
            _ => failed,
        },
    }
}

/// The state after a whole run of events.
pub open spec fn run_state(state: ProvisionState, events: Seq<ProvisionEvent>) -> ProvisionState
    decreases events.len(),
{
    if events.len() == 0 {
        state
    } else {
        run_state(transition(state, events[0]).0, events.drop_first())
    }
}

/// The actions that a run of events calls for, one per event.
pub open spec fn run_actions(state: ProvisionState, events: Seq<ProvisionEvent>) -> Seq<
    ProvisionAction,
>
    decreases events.len(),
{
    if events.len() == 0 {
        Seq::empty()
    } else {
        seq![transition(state, events[0]).1] + run_actions(
            transition(state, events[0]).0,
            events.drop_first(),
        )
    }
}

/// An action that creates a directory, uses the network or writes a file.
pub open spec fn has_side_effect(action: ProvisionAction) -> bool {
    action == ProvisionAction::PrepareDirectory || action == ProvisionAction::Fetch || action
        == ProvisionAction::Store
}

/// How many download requests a sequence of actions holds.
pub open spec fn fetch_count(actions: Seq<ProvisionAction>) -> nat
    decreases actions.len(),
{
    if actions.len() == 0 {
        0
    } else {
        fetch_count(actions.drop_first()) + if actions[0] == ProvisionAction::Fetch {
            1nat
        } else {
            0nat
        }
    }
}

/// A run yields exactly one action for each event.
pub proof fn lemma_one_action_per_event(state: ProvisionState, events: Seq<ProvisionEvent>)
    ensures
        run_actions(state, events).len() == events.len(),
    decreases events.len(),
{
    if events.len() > 0 {
        lemma_one_action_per_event(transition(state, events[0]).0, events.drop_first());
    }
}

/// What the driver reports when it finds the artifact in the cache.
pub open spec fn cache_hit_events() -> Seq<ProvisionEvent> {
    seq![ProvisionEvent::Begin, ProvisionEvent::Probed { present: true }]
}

/// With the artifact already cached, a run is a probe and then the path:
/// it ends `Ready` and calls for no directory, no download and no write.
pub proof fn lemma_cache_hit_is_quiet()
    ensures
        run_state(ProvisionState::Idle, cache_hit_events()) == ProvisionState::Ready,
        run_actions(ProvisionState::Idle, cache_hit_events()) == seq![
            ProvisionAction::Probe,
            ProvisionAction::Finish,
        ],
{
    let events = cache_hit_events();
    let rest = events.drop_first();
    assert(rest =~= seq![ProvisionEvent::Probed { present: true }]);
    assert(rest.drop_first() =~= Seq::<ProvisionEvent>::empty());
    reveal_with_fuel(run_state, 3);
    reveal_with_fuel(run_actions, 3);
    assert(run_actions(ProvisionState::Idle, events) =~= seq![
        ProvisionAction::Probe,
        ProvisionAction::Finish,
    ]);
}

/// Provisioning twice for the same name and directory, with the artifact
/// cached, is idempotent: the second run only probes, so it uses no network
/// and changes no file, and both runs hand out the same path.
pub proof fn lemma_cached_provisioning_is_idempotent(
    first: ModelHandler,
    second: ModelHandler,
    key: Seq<char>,
)
    requires
        first.resolves(key),
        second.resolves(key),
        first.dir() == second.dir(),
    ensures
        first.artifact_path() == second.artifact_path(),
        run_state(ProvisionState::Idle, cache_hit_events()) == ProvisionState::Ready,
        run_actions(ProvisionState::Idle, cache_hit_events()) == seq![
            ProvisionAction::Probe,
            ProvisionAction::Finish,
        ],
{
    lemma_same_request_same_artifact(first, second, key);
    lemma_cache_hit_is_quiet();
}

/// However a run goes, as long as no probe reports the artifact missing it
/// calls for no action with a side effect.
pub proof fn lemma_no_side_effect_without_miss(events: Seq<ProvisionEvent>, k: int)
    requires
        forall|i: int|
            0 <= i < events.len() ==> events[i] != (ProvisionEvent::Probed { present: false }),
        0 <= k < events.len(),
    ensures
        !has_side_effect(run_actions(ProvisionState::Idle, events)[k]),
{
    lemma_quiet_from(ProvisionState::Idle, events, k);
}

/// The same, from any state that lies before the miss or after the end.
proof fn lemma_quiet_from(state: ProvisionState, events: Seq<ProvisionEvent>, k: int)
    requires
        state == ProvisionState::Idle || state == ProvisionState::Probing || state
            == ProvisionState::Ready || state == ProvisionState::Failed,
        forall|i: int|
            0 <= i < events.len() ==> events[i] != (ProvisionEvent::Probed { present: false }),
        0 <= k < events.len(),
    ensures
        !has_side_effect(run_actions(state, events)[k]),
    decreases events.len(),
{
    let next = transition(state, events[0]).0;
    let rest = events.drop_first();
    assert(events[0] != (ProvisionEvent::Probed { present: false }));
    if k > 0 {
        assert forall|i: int| 0 <= i < rest.len() implies rest[i] != (ProvisionEvent::Probed {
            present: false,
        }) by {
            assert(rest[i] == events[i + 1]);
        }
        lemma_one_action_per_event(next, rest);
        lemma_quiet_from(next, rest, k - 1);
    }
}

/// The states from which the download request can no longer be reached.
pub open spec fn past_fetch(state: ProvisionState) -> bool {
    state == ProvisionState::Fetching || state == ProvisionState::Storing || state
        == ProvisionState::Ready || state == ProvisionState::Failed
}

/// A run issues at most one download request, and none once the request is
/// behind it.
pub proof fn lemma_single_fetch(state: ProvisionState, events: Seq<ProvisionEvent>)
    ensures
        fetch_count(run_actions(state, events)) <= 1,
        past_fetch(state) ==> fetch_count(run_actions(state, events)) == 0,
    decreases events.len(),
{
    if events.len() > 0 {
        let next = transition(state, events[0]);
        let rest = events.drop_first();
        lemma_single_fetch(next.0, rest);
        let actions = run_actions(state, events);
        assert(actions.drop_first() =~= run_actions(next.0, rest));
        assert(actions[0] == next.1);
    }
}

/// A run that ends `Ready` from `Idle` either found the artifact cached or
/// saw the download succeed and the body stored.
pub proof fn lemma_ready_is_earned(events: Seq<ProvisionEvent>)
    requires
        run_state(ProvisionState::Idle, events) == ProvisionState::Ready,
    ensures
        events.contains(ProvisionEvent::Probed { present: true }) || events.contains(
            ProvisionEvent::Stored { ok: true },
        ),
{
    lemma_ready_needs_witness(ProvisionState::Idle, events);
}

proof fn lemma_ready_needs_witness(state: ProvisionState, events: Seq<ProvisionEvent>)
    requires
        state != ProvisionState::Ready,
        run_state(state, events) == ProvisionState::Ready,
    ensures
        events.contains(ProvisionEvent::Probed { present: true }) || events.contains(
            ProvisionEvent::Stored { ok: true },
        ),
    decreases events.len(),
{
    if events.len() > 0 {
        let next = transition(state, events[0]).0;
        let rest = events.drop_first();
        if next == ProvisionState::Ready {
            assert(events[0] == (ProvisionEvent::Probed { present: true }) || events[0] == (
                ProvisionEvent::Stored { ok: true }
            ));
        } else {
            lemma_ready_needs_witness(next, rest);
            if rest.contains(ProvisionEvent::Probed { present: true }) {
                let i = choose|i: int|
                    0 <= i < rest.len() && rest[i] == (ProvisionEvent::Probed { present: true });
                assert(events[i + 1] == rest[i]);
            } else {
                let i = choose|i: int|
                    0 <= i < rest.len() && rest[i] == (ProvisionEvent::Stored { ok: true });
                assert(events[i + 1] == rest[i]);
            }
        }
    }
}

} // verus!

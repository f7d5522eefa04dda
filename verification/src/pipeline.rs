//! The decisions of one transcription request: decode, fresh inference state,
//! run, collect. A machine from state and event to next state and action; the
//! driver does the decoding and the engine calls and reports how each went.

use vstd::prelude::*;
use crate::error::ServiceError;

verus! {

/// Where a transcription request stands.
#[derive(Clone, Copy, Debug, PartialEq, Eq, Structural)]
pub enum PipelineState {
    /// Nothing has been asked yet.
    Idle,
    /// Waiting for the audio to be decoded to samples.
    Decoding,
    /// Waiting for a fresh inference state of this request's own.
    Preparing,
    /// Waiting for the run over the samples to end.
    Running,
    /// Waiting for the segments to be read back and assembled.
    Collecting,
    /// The transcript has been handed out.
    Delivered,
    /// The request failed with this error; nothing is handed out.
    Failed(ServiceError),
}

/// What the driver reports.
#[derive(Clone, Copy, Debug, PartialEq, Eq, Structural)]
pub enum PipelineEvent {
    /// The request is asked to start.
    Begin,
    /// The decoder produced this many samples.
    Decoded { samples: usize },
    /// The decoder gave up; `recognized` tells whether it knew the format.
    Undecodable { recognized: bool },
    /// The engine made an inference state, or could not.
    StateCreated { ok: bool },
    /// The run ended, well or with an engine error.
    RunEnded { ok: bool },
    /// The segments were read back and make a transcript, or do not.
    Collected { ok: bool },
}

/// What the driver is to do next.
#[derive(Clone, Copy, Debug, PartialEq, Eq, Structural)]
pub enum PipelineAction {
    /// Decode the upload to mono samples at the engine's rate.
    Decode,
    /// Ask the shared model for a new inference state.
    CreateState,
    /// Run the engine over all samples with the request's parameters.
    Run,
    /// Read every segment back and build the transcript.
    Collect,
    /// Hand the transcript to the caller.
    Deliver,
    /// Give up with this error and hand out nothing.
    Abort(ServiceError),
}

/// The error of an event that arrives in a state that was not waiting for it:
/// a decode failure before the samples exist, an engine failure after.
pub open spec fn stage_error(state: PipelineState) -> ServiceError {
    match state {
        PipelineState::Idle | PipelineState::Decoding => ServiceError::DecodeError,
        PipelineState::Failed(e) => e,
        _ => ServiceError::InferenceError,
    }
}

/// The error that an event makes the request fail with in `state`, if it does.
pub open spec fn failure(state: PipelineState, event: PipelineEvent) -> Option<ServiceError> {
    match (state, event) {
        (PipelineState::Delivered, _) => None,
        (PipelineState::Failed(e), _) => Some(e),
        (PipelineState::Idle, PipelineEvent::Begin) => None,
        (PipelineState::Decoding, PipelineEvent::Decoded { samples }) => if samples == 0 {
            Some(ServiceError::DecodeError)
        } else {
            None
        },
        (PipelineState::Decoding, PipelineEvent::Undecodable { recognized }) => if recognized {
            Some(ServiceError::DecodeError)
        } else {
            Some(ServiceError::UnsupportedFormat)
        },
        (PipelineState::Preparing, PipelineEvent::StateCreated { ok: true }) => None,
        (PipelineState::Running, PipelineEvent::RunEnded { ok: true }) => None,
        (PipelineState::Collecting, PipelineEvent::Collected { ok: true }) => None,
        _ => Some(stage_error(state)),
    }
}

/// The stage that follows `state` when its event brought no failure.
pub open spec fn advance(state: PipelineState) -> (PipelineState, PipelineAction) {
    match state {
        PipelineState::Idle => (PipelineState::Decoding, PipelineAction::Decode),
        PipelineState::Decoding => (PipelineState::Preparing, PipelineAction::CreateState),
        PipelineState::Preparing => (PipelineState::Running, PipelineAction::Run),
        PipelineState::Running => (PipelineState::Collecting, PipelineAction::Collect),
        _ => (PipelineState::Delivered, PipelineAction::Deliver),
    }
}

/// The machine's transition. The first failure ends the request: from then on
/// every event is answered with the same error.
pub open spec fn transition(state: PipelineState, event: PipelineEvent) -> (
    PipelineState,
    PipelineAction,
) {
    match failure(state, event) {
        Some(e) => (PipelineState::Failed(e), PipelineAction::Abort(e)),
        None => advance(state),
    }
}

fn fail(e: ServiceError) -> (r: (PipelineState, PipelineAction))
    ensures
        r == (PipelineState::Failed(e), PipelineAction::Abort(e)),
{
    (PipelineState::Failed(e), PipelineAction::Abort(e))
}

/// One step of a transcription request.
pub fn step(state: PipelineState, event: PipelineEvent) -> (r: (PipelineState, PipelineAction))
    ensures
        r == transition(state, event),
{
    match state {
        PipelineState::Delivered => (PipelineState::Delivered, PipelineAction::Deliver),
        PipelineState::Failed(e) => fail(e),
        PipelineState::Idle => match event {
            PipelineEvent::Begin => (PipelineState::Decoding, PipelineAction::Decode),
            _ => fail(ServiceError::DecodeError),
        },
        PipelineState::Decoding => match event {
            PipelineEvent::Decoded { samples } => if samples == 0 {
                fail(ServiceError::DecodeError)
            } else {
                (PipelineState::Preparing, PipelineAction::CreateState)
            },
            PipelineEvent::Undecodable { recognized } => if recognized {
                fail(ServiceError::DecodeError)
            } else {
                fail(ServiceError::UnsupportedFormat)
            },
            _ => fail(ServiceError::DecodeError),
        },
        PipelineState::Preparing => match event {
            PipelineEvent::StateCreated { ok: true } => (
                PipelineState::Running,
                PipelineAction::Run,
            ),
            _ => fail(ServiceError::InferenceError),
        },
        PipelineState::Running => match event {
            PipelineEvent::RunEnded { ok: true } => (
                PipelineState::Collecting,
                PipelineAction::Collect,
            ),
            _ => fail(ServiceError::InferenceError),
        },
        PipelineState::Collecting => match event {
            PipelineEvent::Collected { ok: true } => (
                PipelineState::Delivered,
                PipelineAction::Deliver,
            ),
            _ => fail(ServiceError::InferenceError),
        },
    }
}

/// The state after a whole run of events.
pub open spec fn run_state(state: PipelineState, events: Seq<PipelineEvent>) -> PipelineState
    decreases events.len(),
{
    if events.len() == 0 {
        state
    } else {
        run_state(transition(state, events[0]).0, events.drop_first())
    }
}

/// The events of a request in which every stage succeeds.
pub open spec fn is_clean_run(events: Seq<PipelineEvent>) -> bool {
    &&& events.len() >= 5
    &&& events[0] == PipelineEvent::Begin
    &&& events[1] matches PipelineEvent::Decoded { samples } && samples > 0
    &&& events[2] == (PipelineEvent::StateCreated { ok: true })
    &&& events[3] == (PipelineEvent::RunEnded { ok: true })
    &&& events[4] == (PipelineEvent::Collected { ok: true })
}

/// A failed request stays failed with the error it first met.
pub proof fn lemma_failure_is_final(e: ServiceError, events: Seq<PipelineEvent>)
    ensures
        run_state(PipelineState::Failed(e), events) == PipelineState::Failed(e),
    decreases events.len(),
{
    if events.len() > 0 {
        lemma_failure_is_final(e, events.drop_first());
    }
}

/// How many stages lie behind a state on the way to delivery.
spec fn stages_done(state: PipelineState) -> int {
    match state {
        PipelineState::Idle => 0,
        PipelineState::Decoding => 1,
        PipelineState::Preparing => 2,
        PipelineState::Running => 3,
        PipelineState::Collecting => 4,
        _ => 5,
    }
}

/// A run that reaches delivery from a stage short of it begins with an event
/// that takes that stage on without failure.
proof fn lemma_next_stage(state: PipelineState, events: Seq<PipelineEvent>)
    requires
        stages_done(state) < 5,
        run_state(state, events) == PipelineState::Delivered,
    ensures
        events.len() > 0,
        failure(state, events[0]) is None,
        run_state(advance(state).0, events.drop_first()) == PipelineState::Delivered,
{
    if events.len() > 0 {
        match failure(state, events[0]) {
            Some(e) => {
                lemma_failure_is_final(e, events.drop_first());
            },
            None => {},
        }
    }
}

/// A transcript is handed out only when decoding gave samples, the state was
/// made, the run ended well and the segments made a transcript, in that order.
pub proof fn lemma_delivery_needs_every_stage(events: Seq<PipelineEvent>)
    requires
        run_state(PipelineState::Idle, events) == PipelineState::Delivered,
    ensures
        is_clean_run(events),
{
    let r1 = events.drop_first();
    let r2 = r1.drop_first();
    let r3 = r2.drop_first();
    let r4 = r3.drop_first();
    lemma_next_stage(PipelineState::Idle, events);
    lemma_next_stage(PipelineState::Decoding, r1);
    lemma_next_stage(PipelineState::Preparing, r2);
    lemma_next_stage(PipelineState::Running, r3);
    lemma_next_stage(PipelineState::Collecting, r4);
    assert(r1[0] == events[1]);
    assert(r2[0] == events[2]);
    assert(r3[0] == events[3]);
    assert(r4[0] == events[4]);
}

/// A request in which every stage succeeds is delivered, whatever is
/// reported after that.
pub proof fn lemma_clean_run_delivers(events: Seq<PipelineEvent>)
    requires
        is_clean_run(events),
    ensures
        run_state(PipelineState::Idle, events) == PipelineState::Delivered,
{
    let r1 = events.drop_first();
    let r2 = r1.drop_first();
    let r3 = r2.drop_first();
    let r4 = r3.drop_first();
    assert(r1[0] == events[1]);
    assert(r2[0] == events[2]);
    assert(r3[0] == events[3]);
    assert(r4[0] == events[4]);
    reveal_with_fuel(run_state, 6);
    lemma_delivery_is_final(r4.drop_first());
}

/// Once delivered, a request stays delivered.
pub proof fn lemma_delivery_is_final(events: Seq<PipelineEvent>)
    ensures
        run_state(PipelineState::Delivered, events) == PipelineState::Delivered,
    decreases events.len(),
{
    if events.len() > 0 {
        lemma_delivery_is_final(events.drop_first());
    }
}

} // verus!

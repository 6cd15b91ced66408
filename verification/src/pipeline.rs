//! The pipeline coordinator: which of backfill and live subscription runs
//! when, and when the pipeline is over.

use vstd::prelude::*;

verus! {

/// How backfill and live subscription are put together.
#[derive(Clone, Copy, Debug, PartialEq, Eq)]
pub enum PipelineMode {
    /// Backfill to the end, then subscribe.
    Sequential,
    /// Subscribe first, then backfill beside the open subscription.
    Concurrent,
}

#[derive(Clone, Copy, Debug, PartialEq, Eq)]
pub enum PipelineState {
    Created,
    /// The backfill runs; no subscription yet.
    Backfilling,
    /// The backfill runs beside the open subscription.
    BackfillingAndLive,
    /// Only the subscription runs.
    Live,
    Stopped,
}

#[derive(Clone, Copy, Debug, PartialEq, Eq)]
pub enum PipelineEvent {
    Start,
    BackfillCompleted,
    SubscriptionClosed,
    /// A message could not be delivered to the queue.
    PublishFailed,
    Cancelled,
}

/// What the caller has to set going after an event.
#[derive(Clone, Copy, Debug, PartialEq, Eq)]
pub enum PipelineAction {
    Nothing,
    StartBackfill,
    StartSubscription,
    /// Open the subscription, and once it is open start the backfill.
    StartSubscriptionThenBackfill,
    /// Report the message as lost and go on.
    ReportFailure,
    /// Stop asking the log source, close the subscription, let publishes in
    /// flight finish.
    Shutdown,
}

#[derive(Clone, Copy, Debug, PartialEq, Eq)]
pub struct Pipeline {
    pub mode: PipelineMode,
    pub state: PipelineState,
}

/// The state that follows `state` on `event`, and what is to be set going.
/// An event that does not concern the state leaves everything as it is.
pub open spec fn transition(mode: PipelineMode, state: PipelineState, event: PipelineEvent) -> (
    PipelineState,
    PipelineAction,
) {
    match (state, event) {
        (PipelineState::Stopped, _) => (PipelineState::Stopped, PipelineAction::Nothing),
        (_, PipelineEvent::Cancelled) => (PipelineState::Stopped, PipelineAction::Shutdown),
        (PipelineState::Created, PipelineEvent::Start) => match mode {
            PipelineMode::Sequential => (PipelineState::Backfilling, PipelineAction::StartBackfill),
            PipelineMode::Concurrent => (
                PipelineState::BackfillingAndLive,
                PipelineAction::StartSubscriptionThenBackfill,
            ),
        },
        (PipelineState::Backfilling, PipelineEvent::BackfillCompleted) => (
            PipelineState::Live,
            PipelineAction::StartSubscription,
        ),
        (PipelineState::BackfillingAndLive, PipelineEvent::BackfillCompleted) => (
            PipelineState::Live,
            PipelineAction::Nothing,
        ),
        (PipelineState::BackfillingAndLive, PipelineEvent::SubscriptionClosed) => (
            PipelineState::Stopped,
            PipelineAction::Shutdown,
        ),
        (PipelineState::Live, PipelineEvent::SubscriptionClosed) => (
            PipelineState::Stopped,
            PipelineAction::Shutdown,
        ),
        (PipelineState::Backfilling, PipelineEvent::PublishFailed) => (
            state,
            PipelineAction::ReportFailure,
        ),
        (PipelineState::BackfillingAndLive, PipelineEvent::PublishFailed) => (
            state,
            PipelineAction::ReportFailure,
        ),
        (PipelineState::Live, PipelineEvent::PublishFailed) => (
            state,
            PipelineAction::ReportFailure,
        ),
        _ => (state, PipelineAction::Nothing),
    }
}

impl Pipeline {
    /// A pipeline that has not started.
    pub fn new(mode: PipelineMode) -> (pipeline: Pipeline)
        ensures
            pipeline == (Pipeline { mode, state: PipelineState::Created }),
    {
        Pipeline { mode, state: PipelineState::Created }
    }

    /// Whether the pipeline is over.
    pub fn is_stopped(&self) -> (stopped: bool)
        ensures
            stopped == (self.state is Stopped),
    {
        match self.state {
            PipelineState::Stopped => true,
            _ => false,
        }
    }

    /// Moves the pipeline on `event` and says what is to be set going.
    pub fn on_event(&mut self, event: PipelineEvent) -> (action: PipelineAction)
        ensures
            final(self).mode == old(self).mode,
            (final(self).state, action) == transition(old(self).mode, old(self).state, event),
    {
        let (state, action) = match (self.state, event) {
            (PipelineState::Stopped, _) => (PipelineState::Stopped, PipelineAction::Nothing),
            (_, PipelineEvent::Cancelled) => (PipelineState::Stopped, PipelineAction::Shutdown),
            (PipelineState::Created, PipelineEvent::Start) => match self.mode {
                PipelineMode::Sequential => (
                    PipelineState::Backfilling,
                    PipelineAction::StartBackfill,
                ),
                PipelineMode::Concurrent => (
                    PipelineState::BackfillingAndLive,
                    PipelineAction::StartSubscriptionThenBackfill,
                ),
            },
            (PipelineState::Backfilling, PipelineEvent::BackfillCompleted) => (
                PipelineState::Live,
                PipelineAction::StartSubscription,
            ),
            (PipelineState::BackfillingAndLive, PipelineEvent::BackfillCompleted) => (
                PipelineState::Live,
                PipelineAction::Nothing,
            ),
            (PipelineState::BackfillingAndLive, PipelineEvent::SubscriptionClosed) => (
                PipelineState::Stopped,
                PipelineAction::Shutdown,
            ),
            (PipelineState::Live, PipelineEvent::SubscriptionClosed) => (
                PipelineState::Stopped,
                PipelineAction::Shutdown,
            ),
            (PipelineState::Backfilling, PipelineEvent::PublishFailed) => (
                PipelineState::Backfilling,
                PipelineAction::ReportFailure,
            ),
            (PipelineState::BackfillingAndLive, PipelineEvent::PublishFailed) => (
                PipelineState::BackfillingAndLive,
                PipelineAction::ReportFailure,
            ),
            (PipelineState::Live, PipelineEvent::PublishFailed) => (
                PipelineState::Live,
                PipelineAction::ReportFailure,
            ),
            (state, _) => (state, PipelineAction::Nothing),
        };
        self.state = state;
        action
    }
}

/// The pipeline stops only on cancellation or when the subscription closes,
/// it never leaves `Stopped`, it is `Live` only once the backfill has
/// completed, and a message that could not be delivered changes no state.
pub proof fn law_pipeline_transitions(mode: PipelineMode, state: PipelineState, event: PipelineEvent)
    ensures
        state is Stopped ==> transition(mode, state, event).0 is Stopped,
        !(state is Stopped) && transition(mode, state, event).0 is Stopped ==> event is Cancelled
            || event is SubscriptionClosed,
        !(state is Live) && transition(mode, state, event).0 is Live ==> event
            is BackfillCompleted,
        event is Cancelled ==> transition(mode, state, event).0 is Stopped,
        event is PublishFailed ==> transition(mode, state, event).0 == state,
{
}

} // verus!

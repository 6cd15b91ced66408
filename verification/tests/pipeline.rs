use eth_indexer::pipeline::{Pipeline, PipelineAction, PipelineEvent, PipelineMode, PipelineState};

const STATES: [PipelineState; 5] = [
    PipelineState::Created,
    PipelineState::Backfilling,
    PipelineState::BackfillingAndLive,
    PipelineState::Live,
    PipelineState::Stopped,
];

const EVENTS: [PipelineEvent; 5] = [
    PipelineEvent::Start,
    PipelineEvent::BackfillCompleted,
    PipelineEvent::SubscriptionClosed,
    PipelineEvent::PublishFailed,
    PipelineEvent::Cancelled,
];

const MODES: [PipelineMode; 2] = [PipelineMode::Sequential, PipelineMode::Concurrent];

#[test]
fn pipeline_starts_in_created() {
    let pipeline = Pipeline::new(PipelineMode::Sequential);
    assert_eq!(pipeline.state, PipelineState::Created);
    assert_eq!(pipeline.mode, PipelineMode::Sequential);
    assert!(!pipeline.is_stopped());
}

#[test]
fn sequential_pipeline_backfills_then_subscribes() {
    let mut pipeline = Pipeline::new(PipelineMode::Sequential);
    assert_eq!(pipeline.on_event(PipelineEvent::Start), PipelineAction::StartBackfill);
    assert_eq!(pipeline.state, PipelineState::Backfilling);
    assert_eq!(
        pipeline.on_event(PipelineEvent::BackfillCompleted),
        PipelineAction::StartSubscription
    );
    assert_eq!(pipeline.state, PipelineState::Live);
    assert_eq!(pipeline.on_event(PipelineEvent::SubscriptionClosed), PipelineAction::Shutdown);
    assert_eq!(pipeline.state, PipelineState::Stopped);
    assert!(pipeline.is_stopped());
}

#[test]
fn concurrent_pipeline_subscribes_before_it_backfills() {
    let mut pipeline = Pipeline::new(PipelineMode::Concurrent);
    assert_eq!(
        pipeline.on_event(PipelineEvent::Start),
        PipelineAction::StartSubscriptionThenBackfill
    );
    assert_eq!(pipeline.state, PipelineState::BackfillingAndLive);
    assert_eq!(pipeline.on_event(PipelineEvent::BackfillCompleted), PipelineAction::Nothing);
    assert_eq!(pipeline.state, PipelineState::Live);
    assert_eq!(pipeline.on_event(PipelineEvent::SubscriptionClosed), PipelineAction::Shutdown);
    assert_eq!(pipeline.state, PipelineState::Stopped);
}

#[test]
fn subscription_closing_during_backfill_stops_the_pipeline() {
    let mut pipeline = Pipeline::new(PipelineMode::Concurrent);
    pipeline.on_event(PipelineEvent::Start);
    assert_eq!(pipeline.on_event(PipelineEvent::SubscriptionClosed), PipelineAction::Shutdown);
    assert!(pipeline.is_stopped());
}

#[test]
fn cancellation_stops_from_every_running_state() {
    for mode in MODES {
        for state in STATES {
            let mut pipeline = Pipeline { mode, state };
            let action = pipeline.on_event(PipelineEvent::Cancelled);
            assert_eq!(pipeline.state, PipelineState::Stopped);
            if state == PipelineState::Stopped {
                assert_eq!(action, PipelineAction::Nothing);
            } else {
                assert_eq!(action, PipelineAction::Shutdown);
            }
        }
    }
}

#[test]
fn stopped_pipeline_never_restarts() {
    for mode in MODES {
        for event in EVENTS {
            let mut pipeline = Pipeline { mode, state: PipelineState::Stopped };
            assert_eq!(pipeline.on_event(event), PipelineAction::Nothing);
            assert_eq!(pipeline.state, PipelineState::Stopped);
        }
    }
}

#[test]
fn only_cancellation_or_closure_stops_the_pipeline() {
    for mode in MODES {
        for state in STATES {
            for event in EVENTS {
                let mut pipeline = Pipeline { mode, state };
                pipeline.on_event(event);
                if pipeline.state == PipelineState::Stopped && state != PipelineState::Stopped {
                    assert!(
                        event == PipelineEvent::Cancelled
                            || event == PipelineEvent::SubscriptionClosed
                    );
                }
                assert_eq!(pipeline.mode, mode);
            }
        }
    }
}

#[test]
fn events_that_do_not_concern_the_state_are_ignored() {
    let mut pipeline = Pipeline::new(PipelineMode::Sequential);
    assert_eq!(pipeline.on_event(PipelineEvent::BackfillCompleted), PipelineAction::Nothing);
    assert_eq!(pipeline.on_event(PipelineEvent::SubscriptionClosed), PipelineAction::Nothing);
    assert_eq!(pipeline.state, PipelineState::Created);
    pipeline.on_event(PipelineEvent::Start);
    assert_eq!(pipeline.on_event(PipelineEvent::Start), PipelineAction::Nothing);
    assert_eq!(pipeline.on_event(PipelineEvent::SubscriptionClosed), PipelineAction::Nothing);
    assert_eq!(pipeline.state, PipelineState::Backfilling);
    pipeline.on_event(PipelineEvent::BackfillCompleted);
    assert_eq!(pipeline.on_event(PipelineEvent::BackfillCompleted), PipelineAction::Nothing);
    assert_eq!(pipeline.on_event(PipelineEvent::Start), PipelineAction::Nothing);
    assert_eq!(pipeline.state, PipelineState::Live);
}

#[test]
fn failed_publish_is_reported_and_the_pipeline_goes_on() {
    for mode in MODES {
        for state in STATES {
            let mut pipeline = Pipeline { mode, state };
            let action = pipeline.on_event(PipelineEvent::PublishFailed);
            assert_eq!(pipeline.state, state);
            let publishing = state == PipelineState::Backfilling
                || state == PipelineState::BackfillingAndLive
                || state == PipelineState::Live;
            if publishing {
                assert_eq!(action, PipelineAction::ReportFailure);
            } else {
                assert_eq!(action, PipelineAction::Nothing);
            }
        }
    }
}

use fccli::error::{ErrorContext, ErrorOperation, ProviderError};
use fccli::model::{GapGeneration, ReplayRevision};
use fccli::provider::{
    final_value_or_closed, map_join_result, AcceptedWatermarkSender, AcceptedWatermarkUpdateError,
    AckState, ExpectationUpdate, LiveFeedJoinError, ProducerCompletion, ProducerCompletionClosed,
    ReconcileAck, ReconcileAckClosed, ReconcileAckPublishError, ReconcileAckUpdate,
    ReconcileExpectation, ReconcileExpectationError, TaskEnd, WatermarkUpdate,
};

fn expectation(generation: u64, revision: u64, target_open_time: i64) -> ReconcileExpectation {
    ReconcileExpectation {
        generation: GapGeneration(generation),
        revision: ReplayRevision(revision),
        target_open_time,
    }
}

fn ack(generation: u64, revision: u64, through: i64) -> ReconcileAck {
    ReconcileAck {
        generation: GapGeneration(generation),
        revision: ReplayRevision(revision),
        through,
    }
}

#[test]
fn watermarks_only_advance() {
    let mut sender = AcceptedWatermarkSender::new(None);
    assert_eq!(sender.publish(None), Ok(WatermarkUpdate::Unchanged));
    assert_eq!(sender.publish(Some(5)), Ok(WatermarkUpdate::Advanced));
    assert_eq!(sender.publish(Some(5)), Ok(WatermarkUpdate::Unchanged));
    assert_eq!(
        sender.publish(Some(4)),
        Err(AcceptedWatermarkUpdateError::Regression)
    );
    assert_eq!(
        sender.publish(None),
        Err(AcceptedWatermarkUpdateError::Regression)
    );
    assert_eq!(sender.current(), Some(5));
    sender.close();
    assert_eq!(
        sender.publish(Some(9)),
        Err(AcceptedWatermarkUpdateError::Closed)
    );
    assert_eq!(sender.current(), Some(5));
}

#[test]
fn a_watermark_never_goes_back_over_many_offers() {
    let mut sender = AcceptedWatermarkSender::new(Some(-3));
    let mut last = sender.current();
    for value in [Some(7), Some(i64::MIN), None, Some(8), Some(8), Some(-1), Some(i64::MAX)] {
        let _ = sender.publish(value);
        assert!(sender.current() >= last);
        last = sender.current();
    }
    assert_eq!(last, Some(i64::MAX));
}

#[test]
fn an_acknowledgement_must_meet_its_expectation() {
    let mut state = AckState::new();
    assert_eq!(
        state.publish(ack(1, 1, 0)),
        Err(ReconcileAckPublishError::NoExpectation)
    );
    assert_eq!(
        state.register_expectation(expectation(2, 3, 100)),
        Ok(ExpectationUpdate::Registered)
    );
    assert_eq!(
        state.publish(ack(2, 2, 100)),
        Err(ReconcileAckPublishError::Stale)
    );
    assert_eq!(
        state.publish(ack(1, 9, 100)),
        Err(ReconcileAckPublishError::Stale)
    );
    assert_eq!(
        state.publish(ack(2, 4, 100)),
        Err(ReconcileAckPublishError::UnexpectedKey)
    );
    assert_eq!(
        state.publish(ack(2, 3, 99)),
        Err(ReconcileAckPublishError::ThroughBeforeTarget)
    );
    assert_eq!(state.poll_changed(), None);
    assert_eq!(
        state.publish(ack(2, 3, 100)),
        Ok(ReconcileAckUpdate::Published)
    );
    assert_eq!(
        state.publish(ack(2, 3, 100)),
        Ok(ReconcileAckUpdate::Unchanged)
    );
    assert_eq!(
        state.publish(ack(2, 3, 101)),
        Err(ReconcileAckPublishError::ConflictingThrough)
    );
    assert_eq!(state.current(), Ok(Some(ack(2, 3, 100))));
    assert_eq!(state.poll_changed(), Some(Ok(ack(2, 3, 100))));
    assert_eq!(state.poll_changed(), None);
    state.close_receiver();
    assert_eq!(
        state.publish(ack(2, 3, 100)),
        Err(ReconcileAckPublishError::Closed)
    );
}

#[test]
fn expectations_never_go_back() {
    let mut state = AckState::new();
    assert_eq!(
        state.register_expectation(expectation(2, 3, 100)),
        Ok(ExpectationUpdate::Registered)
    );
    assert_eq!(
        state.publish(ack(2, 3, 100)),
        Ok(ReconcileAckUpdate::Published)
    );
    assert_eq!(
        state.register_expectation(expectation(2, 3, 100)),
        Ok(ExpectationUpdate::Unchanged)
    );
    assert_eq!(
        state.register_expectation(expectation(2, 3, 101)),
        Err(ReconcileExpectationError::Conflict)
    );
    assert_eq!(
        state.register_expectation(expectation(1, 9, 100)),
        Err(ReconcileExpectationError::Regression)
    );
    assert_eq!(state.current(), Ok(Some(ack(2, 3, 100))));
    assert_eq!(
        state.register_expectation(expectation(2, 4, 50)),
        Ok(ExpectationUpdate::Registered)
    );
    // What was acknowledged before is forgotten, read or not.
    assert_eq!(state.current(), Ok(None));
    assert_eq!(state.poll_changed(), None);
    assert_eq!(state.current_expectation(), Ok(Some(expectation(2, 4, 50))));
}

#[test]
fn the_last_sender_closes_the_channel() {
    let mut state = AckState::new();
    state.add_sender();
    assert!(!state.remove_sender());
    assert_eq!(state.current(), Ok(None));
    assert!(state.remove_sender());
    assert_eq!(state.current(), Err(ReconcileAckClosed));
    assert_eq!(state.current_expectation(), Err(ReconcileAckClosed));
    assert_eq!(state.poll_changed(), Some(Err(ReconcileAckClosed)));
    assert_eq!(
        state.register_expectation(expectation(1, 1, 0)),
        Err(ReconcileExpectationError::Closed)
    );
}

#[test]
fn an_unread_acknowledgement_outlives_its_sender() {
    let mut state = AckState::new();
    state.register_expectation(expectation(1, 1, 0)).unwrap();
    state.publish(ack(1, 1, 0)).unwrap();
    state.remove_sender();
    assert_eq!(state.poll_changed(), Some(Ok(ack(1, 1, 0))));
    assert_eq!(state.poll_changed(), Some(Err(ReconcileAckClosed)));
}

#[test]
fn a_producer_that_vanishes_has_no_completion() {
    assert_eq!(
        final_value_or_closed(ProducerCompletion::Running),
        Err(ProducerCompletionClosed)
    );
    assert_eq!(
        final_value_or_closed(ProducerCompletion::Finished(Ok(()))),
        Ok(ProducerCompletion::Finished(Ok(())))
    );
}

#[test]
fn a_task_ends_in_one_of_four_ways() {
    let error = || ProviderError::ChannelClosed {
        context: ErrorContext::operation(ErrorOperation::LiveFeed),
    };
    assert_eq!(map_join_result(TaskEnd::Returned(Ok(()))), Ok(()));
    assert_eq!(
        map_join_result(TaskEnd::Returned(Err(error()))),
        Err(LiveFeedJoinError::Producer(error()))
    );
    assert_eq!(
        map_join_result(TaskEnd::Cancelled),
        Err(LiveFeedJoinError::Aborted)
    );
    assert_eq!(
        map_join_result(TaskEnd::Panicked),
        Err(LiveFeedJoinError::JoinFailure)
    );
    assert_eq!(
        LiveFeedJoinError::Producer(error()).message("gap generation overflow"),
        "live-feed producer failed: gap generation overflow"
    );
    assert_eq!(
        LiveFeedJoinError::DeadlineElapsed.message(""),
        "live-feed join deadline elapsed"
    );
    assert_eq!(LiveFeedJoinError::Aborted.message(""), "live-feed supervisor was aborted");
    assert_eq!(LiveFeedJoinError::JoinFailure.message(""), "live-feed supervisor join failed");
}

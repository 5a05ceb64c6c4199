use std::collections::VecDeque;
use std::time::Duration;

use fccli::error::{
    ErrorContext, ErrorOperation, PayloadError, ProviderError, SanitizedCause, TimeoutKind,
};
use fccli::model::{Instrument, Market, MonoInstant, Timeframe};
use fccli::provider::hyperliquid::HyperliquidDecoded;
use fccli::provider::runtime::config::WsConfig;
use fccli::provider::runtime::frame::{
    coalesce_readiness_outcomes, contains_close, has_actionable_readiness, is_closing,
    readiness_priority, take_prioritized_readiness, DecodedFrame, ReadinessInput, WsMessage,
};
use fccli::provider::runtime::websocket::{
    contextualize_websocket_configuration, map_websocket_error, IoEvent, IoRequest,
    OutboundMessage, PumpEvent, PumpStep, ReadStep, ReadinessMode, SocketState, WebSocketFault,
};

type Frame = DecodedFrame<HyperliquidDecoded>;

const SECOND: u64 = 1_000_000_000;

fn context() -> ErrorContext {
    ErrorContext::operation(ErrorOperation::WebSocket)
}

fn pong() -> Frame {
    DecodedFrame::Provider(HyperliquidDecoded::ApplicationPong)
}

fn accepted() -> Frame {
    DecodedFrame::Provider(HyperliquidDecoded::SubscribeAccepted)
}

fn failed() -> Frame {
    DecodedFrame::ProviderError(ProviderError::QueueSaturated)
}

fn timeout(kind: TimeoutKind) -> ProviderError {
    ProviderError::Timeout { context: context(), kind }
}

fn closed() -> ProviderError {
    ProviderError::Transport { context: context(), cause: SanitizedCause::Closed }
}

fn socket() -> SocketState<HyperliquidDecoded> {
    SocketState::new(
        WsConfig::production(),
        context(),
        Some(OutboundMessage::Text("ping".to_owned())),
        MonoInstant(0),
    )
}

fn received(frames: Vec<Frame>) -> IoEvent<HyperliquidDecoded> {
    IoEvent::Received { is_data: true, frames: VecDeque::from(frames) }
}

#[test]
fn frames_have_priorities() {
    assert_eq!(readiness_priority(&Frame::Close(None)), 0);
    assert_eq!(readiness_priority(&Frame::ReconnectRequested), 0);
    assert_eq!(readiness_priority(&failed()), 1);
    assert_eq!(readiness_priority(&accepted()), 2);
    assert!(readiness_priority(&pong()) >= readiness_priority(&accepted()));
    assert!(is_closing(&Frame::Close(Some(1000))));
    assert!(!is_closing(&pong()));
    assert!(WsMessage::Text(vec![]).is_data());
    assert!(!WsMessage::Ping.is_data());
}

#[test]
fn coalescing_keeps_the_first_of_the_foremost() {
    let mut decoded = VecDeque::from([pong(), accepted(), failed(), Frame::Ignored]);
    coalesce_readiness_outcomes(&mut decoded);
    assert_eq!(decoded, VecDeque::from([failed()]));
    let mut empty: VecDeque<Frame> = VecDeque::new();
    coalesce_readiness_outcomes(&mut empty);
    assert!(empty.is_empty());
    assert!(contains_close(&VecDeque::from([pong(), Frame::Close(None)])));
    assert!(!contains_close(&VecDeque::from([pong()])));
}

#[test]
fn an_end_goes_before_an_error_and_an_error_before_the_rest() {
    let mut decoded = VecDeque::from([accepted(), Frame::Close(Some(1001))]);
    assert_eq!(
        take_prioritized_readiness(&mut decoded, Some(closed()), None),
        Some(ReadinessInput::Frame(Frame::Close(Some(1001))))
    );
    assert_eq!(
        take_prioritized_readiness(
            &mut decoded,
            Some(closed()),
            Some(timeout(TimeoutKind::StalledWrite))
        ),
        Some(ReadinessInput::Error(timeout(TimeoutKind::StalledWrite)))
    );
    assert_eq!(
        take_prioritized_readiness(&mut decoded, Some(closed()), None),
        Some(ReadinessInput::Error(closed()))
    );
    assert_eq!(
        take_prioritized_readiness(&mut decoded, None, None),
        Some(ReadinessInput::Frame(accepted()))
    );
    assert_eq!(take_prioritized_readiness(&mut decoded, None, None), None);
    assert!(has_actionable_readiness(&decoded, true, false));
    assert!(has_actionable_readiness(&VecDeque::from([accepted()]), false, false));
    assert!(!has_actionable_readiness(&VecDeque::from([Frame::Ignored]), false, false));
}

#[test]
fn faults_are_told_without_their_details() {
    let cause = |cause| ProviderError::Transport { context: context(), cause };
    assert_eq!(
        map_websocket_error(WebSocketFault::MessageTooLong { max_size: 7 }, &context()),
        ProviderError::Payload {
            context: context(),
            source: PayloadError::OverBudget { limit_bytes: 7 },
        }
    );
    assert_eq!(
        map_websocket_error(WebSocketFault::Tls, &context()),
        cause(SanitizedCause::Tls)
    );
    assert_eq!(
        map_websocket_error(WebSocketFault::Io, &context()),
        cause(SanitizedCause::Io)
    );
    assert_eq!(
        map_websocket_error(WebSocketFault::Closed, &context()),
        closed()
    );
    let instrument = Instrument {
        provider: "okx".to_owned(),
        market: Market::Spot,
        base: "BTC".to_owned(),
        quote: "USDT".to_owned(),
        provider_symbol: "BTC-USDT".to_owned(),
    };
    assert_eq!(
        contextualize_websocket_configuration(
            ProviderError::Configuration("bad"),
            &instrument,
            Timeframe::Day1
        ),
        ProviderError::WebSocketConfiguration {
            context: ErrorContext::market(ErrorOperation::WebSocket, &instrument, Timeframe::Day1),
            detail: "bad",
        }
    );
    assert_eq!(
        contextualize_websocket_configuration(closed(), &instrument, Timeframe::Day1),
        closed()
    );
}

#[test]
fn a_round_reads_what_there_is_and_flushes() {
    let mut state = socket();
    let now = MonoInstant(1);
    let (mut run, request) =
        state.begin_io(false, ReadinessMode::Ordinary, state.inactivity_deadline(), now);
    assert_eq!(request, IoRequest::Receive);
    assert_eq!(
        state.on_io(&mut run, received(vec![pong(), accepted()]), now),
        IoRequest::Receive
    );
    assert_eq!(
        state.on_io(&mut run, IoEvent::ReceivePending, now),
        IoRequest::Flush
    );
    assert_eq!(
        state.on_io(&mut run, IoEvent::Flushed, now),
        IoRequest::Done(Ok(()))
    );
    assert_eq!(state.read_step(), ReadStep::Deliver(pong()));
    assert_eq!(state.read_step(), ReadStep::Deliver(accepted()));
    assert_eq!(state.read_step(), ReadStep::Pump);
}

#[test]
fn what_is_sent_leaves_in_order() {
    let mut state = socket();
    let now = MonoInstant(1);
    let text = |text: &str| OutboundMessage::Text(text.to_owned());
    assert_eq!(state.begin_send(text("a"), now), Ok(()));
    assert_eq!(state.begin_send(text("b"), now), Ok(()));
    assert!(state.has_pending_write());
    let deadline = state.inactivity_deadline();
    let (mut run, _) = state.begin_io(true, ReadinessMode::Ordinary, deadline, now);
    assert_eq!(
        state.on_io(&mut run, IoEvent::ReceivePending, now),
        IoRequest::Ready
    );
    // The sink is not ready: the message keeps its place.
    assert_eq!(
        state.on_io(&mut run, IoEvent::SinkPending, now),
        IoRequest::Flush
    );
    assert_eq!(
        state.on_io(&mut run, IoEvent::FlushPending, now),
        IoRequest::Pending
    );
    let (mut run, _) = state.begin_io(true, ReadinessMode::Ordinary, deadline, now);
    state.on_io(&mut run, IoEvent::ReceivePending, now);
    assert_eq!(
        state.on_io(&mut run, IoEvent::SinkReady, now),
        IoRequest::Send(text("a"))
    );
    assert_eq!(state.on_io(&mut run, IoEvent::Sent, now), IoRequest::Flush);
    assert_eq!(
        state.on_io(&mut run, IoEvent::Flushed, now),
        IoRequest::Done(Ok(()))
    );
    assert!(state.has_pending_write());
}

#[test]
fn a_stalled_write_is_given_up() {
    let mut state = socket();
    state
        .begin_send(OutboundMessage::Zeros(3), MonoInstant(0))
        .unwrap();
    let stalled = timeout(TimeoutKind::StalledWrite);
    let deadline = state.inactivity_deadline();
    let (_, request) = state.begin_io(
        true,
        ReadinessMode::Ordinary,
        deadline,
        MonoInstant(5 * SECOND),
    );
    assert_eq!(request, IoRequest::Done(Err(stalled.clone())));
    assert!(!state.has_pending_write());
    assert_eq!(state.reject_terminal_write(), Err(stalled.clone()));
    assert_eq!(
        state.begin_send(OutboundMessage::Zeros(1), MonoInstant(0)),
        Err(stalled.clone())
    );
    assert_eq!(state.begin_flush(MonoInstant(0)), Err(stalled));
}

#[test]
fn a_silent_peer_is_given_up() {
    let mut state = socket();
    let deadline = state.inactivity_deadline();
    assert_eq!(deadline, MonoInstant(60 * SECOND));
    let (mut run, _) = state.begin_io(false, ReadinessMode::Ordinary, deadline, deadline);
    assert_eq!(
        state.on_io(&mut run, IoEvent::ReceivePending, deadline),
        IoRequest::Done(Err(timeout(TimeoutKind::WebSocketInactivity)))
    );
    assert_eq!(state.reject_terminal_write(), Err(closed()));
}

#[test]
fn what_was_read_goes_before_the_error_that_ended_the_reading() {
    let mut state = socket();
    let now = MonoInstant(1);
    let deadline = state.inactivity_deadline();
    let (mut run, _) = state.begin_io(false, ReadinessMode::Ordinary, deadline, now);
    state.on_io(&mut run, received(vec![pong()]), now);
    assert_eq!(
        state.on_io(&mut run, IoEvent::ReceiveEnded, now),
        IoRequest::Done(Ok(()))
    );
    assert_eq!(state.read_step(), ReadStep::Deliver(pong()));
    assert_eq!(state.read_step(), ReadStep::Fail(closed()));
}

#[test]
fn a_peer_that_closes_is_answered_and_left() {
    let mut state = socket();
    let now = MonoInstant(1);
    state.begin_send(OutboundMessage::Zeros(1), now).unwrap();
    let deadline = state.inactivity_deadline();
    let (mut run, _) = state.begin_io(false, ReadinessMode::Ordinary, deadline, now);
    state.on_io(&mut run, received(vec![Frame::Close(Some(1000))]), now);
    assert_eq!(
        state.on_io(&mut run, IoEvent::ReceivePending, now),
        IoRequest::Flush
    );
    assert_eq!(
        state.on_io(&mut run, IoEvent::Flushed, now),
        IoRequest::Done(Ok(()))
    );
    assert_eq!(state.read_step(), ReadStep::Deliver(Frame::Close(Some(1000))));
    assert_eq!(state.read_step(), ReadStep::Fail(closed()));
}

#[test]
fn readiness_keeps_one_frame_and_yields_in_time() {
    let mut state = socket();
    let now = MonoInstant(1);
    let deadline = state.inactivity_deadline();
    state.begin_readiness();
    let (mut run, mut request) =
        state.begin_io(false, ReadinessMode::PreSubscription, deadline, now);
    for _ in 0..256 {
        assert_eq!(request, IoRequest::Receive);
        request = state.on_io(&mut run, received(vec![pong()]), now);
    }
    assert_eq!(request, IoRequest::Yield);
    assert_eq!(state.readiness_step(), None);
    assert_eq!(state.readiness_end(None), None);
    state.begin_readiness();
    let (mut run, _) = state.begin_io(false, ReadinessMode::PreSubscription, deadline, now);
    state.on_io(&mut run, received(vec![accepted()]), now);
    state.on_io(&mut run, IoEvent::ReceivePending, now);
    assert_eq!(
        state.on_io(&mut run, IoEvent::Flushed, now),
        IoRequest::Done(Ok(()))
    );
    assert_eq!(
        state.readiness_step(),
        Some(ReadinessInput::Frame(accepted()))
    );
    assert_eq!(
        state.readiness_end(Some(Err(closed()))),
        Some(ReadinessInput::Error(closed()))
    );
}

#[test]
fn a_heartbeat_is_queued_when_it_is_due() {
    let mut state = socket();
    assert!(!state.application_heartbeat_started());
    state.start_application_heartbeat(Duration::from_secs(20), MonoInstant(0));
    assert!(state.application_heartbeat_started());
    assert_eq!(
        state.begin_pump(false, MonoInstant(1)),
        PumpStep::Wait {
            inactivity_deadline: MonoInstant(60 * SECOND),
            write_stall_deadline: None,
            heartbeat_deadline: Some(MonoInstant(20 * SECOND)),
        }
    );
    assert_eq!(
        state.on_pump(PumpEvent::HeartbeatDue, false, MonoInstant(20 * SECOND)),
        Ok(())
    );
    assert!(state.has_pending_write());
    assert_eq!(
        state.begin_pump(false, MonoInstant(20 * SECOND)),
        PumpStep::Wait {
            inactivity_deadline: MonoInstant(60 * SECOND),
            write_stall_deadline: Some(MonoInstant(25 * SECOND)),
            heartbeat_deadline: Some(MonoInstant(40 * SECOND)),
        }
    );
    assert_eq!(
        state.on_pump(PumpEvent::InactivityElapsed, false, MonoInstant(60 * SECOND)),
        Err(timeout(TimeoutKind::WebSocketInactivity))
    );
}

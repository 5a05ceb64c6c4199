//! A socket that waits for its subscription to be accepted.
use vstd::prelude::*;

use crate::error::{ErrorContext, ErrorOperation, ProviderError, TimeoutKind};
use crate::provider::runtime::live::LiveMarket;

verus! {

/// What a socket does that waits for its subscription.
#[derive(Debug, PartialEq)]
pub enum ReadyStep<B> {
    /// Go on waiting.
    Wait,
    /// The subscription is accepted; what came with it.
    Ready(B),
    /// The peer closes the connection: answer it, and fail.
    Close(ProviderError),
    /// Fail.
    Fail(ProviderError),
}

impl LiveMarket {
    pub open spec fn timeout_error(self, kind: TimeoutKind) -> ProviderError {
        ProviderError::Timeout {
            context: ErrorContext::of_market(
                ErrorOperation::WebSocket,
                self.instrument,
                self.timeframe,
            ),
            kind,
        }
    }

    fn timeout(&self, kind: TimeoutKind) -> (error: ProviderError)
        ensures
            error == self.timeout_error(kind),
    {
        ProviderError::Timeout {
            context: ErrorContext::market(
                ErrorOperation::WebSocket,
                &self.instrument,
                self.timeframe,
            ),
            kind,
        }
    }

    /// The subscription was not accepted in time.
    pub fn subscribe_ack_timeout(&self) -> (error: ProviderError)
        ensures
            error == self.timeout_error(TimeoutKind::SubscribeAck),
    {
        self.timeout(TimeoutKind::SubscribeAck)
    }

    /// The peer said nothing for too long.
    pub fn inactivity_timeout(&self) -> (error: ProviderError)
        ensures
            error == self.timeout_error(TimeoutKind::WebSocketInactivity),
    {
        self.timeout(TimeoutKind::WebSocketInactivity)
    }
}

} // verus!

//! What a live feed tells its consumer.
use vstd::prelude::*;

use crate::candle::Candle;
use crate::error::ProviderError;
use crate::model::{ConnectionStatus, GapGeneration, MonoInstant, ReplayRevision};

verus! {

#[allow(inconsistent_fields)]
#[derive(Debug, PartialEq)]
pub enum MarketEvent {
    Status { generation: Option<GapGeneration>, status: ConnectionStatus },
    RecoverableError {
        generation: Option<GapGeneration>,
        error: ProviderError,
        rate_gate_deadline: Option<MonoInstant>,
    },
    ReconcileBatch {
        generation: GapGeneration,
        revision: ReplayRevision,
        target_open_time: i64,
        candles: Vec<Candle>,
    },
    Candle { generation: GapGeneration, candle: Candle },
    TerminalError(ProviderError),
}

impl MarketEvent {
    /// The generation that an event belongs to, where it belongs to one.
    pub open spec fn generation_of(self) -> Option<GapGeneration> {
        match self {
            MarketEvent::Status { generation, .. } => generation,
            MarketEvent::RecoverableError { generation, .. } => generation,
            MarketEvent::ReconcileBatch { generation, .. } => Some(generation),
            MarketEvent::Candle { generation, .. } => Some(generation),
            MarketEvent::TerminalError(_) => None,
        }
    }

    /// Whether an event is about the feed itself rather than about prices.
    pub open spec fn is_control(self) -> bool {
        !(self is Candle || self is ReconcileBatch)
    }

    /// Whether an event means nothing once its generation is over.
    pub open spec fn purges(self) -> bool {
        match self {
            MarketEvent::Candle { .. } => true,
            MarketEvent::ReconcileBatch { .. } => true,
            MarketEvent::Status { generation, status } => generation is Some && (status
                == ConnectionStatus::Connecting || status == ConnectionStatus::GapSync || status
                == ConnectionStatus::Connected),
            _ => false,
        }
    }

    pub open spec fn status_of(self) -> Option<(Option<GapGeneration>, ConnectionStatus)> {
        match self {
            MarketEvent::Status { generation, status } => Some((generation, status)),
            _ => None,
        }
    }
}

pub fn event_generation(event: &MarketEvent) -> (generation: Option<GapGeneration>)
    ensures
        generation == event.generation_of(),
{
    match event {
        MarketEvent::Status { generation, .. } => *generation,
        MarketEvent::RecoverableError { generation, .. } => *generation,
        MarketEvent::ReconcileBatch { generation, .. } => Some(*generation),
        MarketEvent::Candle { generation, .. } => Some(*generation),
        MarketEvent::TerminalError(_) => None,
    }
}

pub fn is_control_event(event: &MarketEvent) -> (control: bool)
    ensures
        control == event.is_control(),
{
    match event {
        MarketEvent::Candle { .. } => false,
        MarketEvent::ReconcileBatch { .. } => false,
        _ => true,
    }
}

pub fn event_purges_with_generation(event: &MarketEvent) -> (purges: bool)
    ensures
        purges == event.purges(),
{
    match event {
        MarketEvent::Candle { .. } => true,
        MarketEvent::ReconcileBatch { .. } => true,
        MarketEvent::Status { generation, status } => generation.is_some() && (*status
            == ConnectionStatus::Connecting || *status == ConnectionStatus::GapSync || *status
            == ConnectionStatus::Connected),
        _ => false,
    }
}

pub fn status_key(event: &MarketEvent) -> (key: Option<(Option<GapGeneration>, ConnectionStatus)>)
    ensures
        key == event.status_of(),
{
    match event {
        MarketEvent::Status { generation, status } => Some((*generation, *status)),
        _ => None,
    }
}

/// Candles and replays are about prices, and everything else is about the feed; both lose their
/// meaning with their generation. Of what is about the feed, only the news of a connection that is
/// being made or stands does, and only where it names its generation; errors, waits and the end never
/// do.
pub proof fn law_events_by_kind(event: MarketEvent)
    ensures
        event is Candle ==> !event.is_control() && event.purges() && event.generation_of() is Some,
        event is ReconcileBatch ==> !event.is_control() && event.purges()
            && event.generation_of() is Some,
        event is TerminalError ==> event.is_control() && !event.purges()
            && event.generation_of() is None,
        event is RecoverableError ==> event.is_control() && !event.purges(),
        event is Status ==> event.is_control(),
        event matches MarketEvent::Status { generation, status } ==> {
            &&& event.status_of() == Some((generation, status))
            &&& event.generation_of() == generation
            &&& generation is None ==> !event.purges()
            &&& status == ConnectionStatus::Backoff || status == ConnectionStatus::Stopped
                ==> !event.purges()
            &&& generation is Some && (status == ConnectionStatus::Connecting || status
                == ConnectionStatus::GapSync || status == ConnectionStatus::Connected)
                ==> event.purges()
        },
        event matches MarketEvent::Candle { generation, .. } ==> event.generation_of() == Some(
            generation,
        ),
        event matches MarketEvent::ReconcileBatch { generation, .. } ==> event.generation_of()
            == Some(generation),
        event matches MarketEvent::RecoverableError { generation, .. } ==> event.generation_of()
            == generation,
        !(event is Status) ==> event.status_of() is None,
{
}

} // verus!

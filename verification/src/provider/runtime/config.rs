//! Limits of a WebSocket connection and of the supervisor above it.
use std::time::Duration;

use vstd::prelude::*;

use crate::clock::{is_within_millis, is_zero};
use crate::error::ProviderError;
use crate::model::ProviderCapabilities;

verus! {

pub const WS_BYTE_LIMIT_MAX: usize = 16_777_216;

pub const WS_READ_BUFFER_SIZE: usize = 131_072;

pub const WS_MESSAGE_SIZE: usize = 1_048_576;

pub const WS_FRAME_SIZE: usize = 262_144;

pub const WS_WRITE_BUFFER_SIZE: usize = 65_536;

pub const WS_MAX_WRITE_BUFFER_SIZE: usize = 1_048_576;

pub const WS_STALLED_WRITE_TIMEOUT_MILLIS: u64 = 5_000;

pub const WS_MESSAGE_INACTIVITY_TIMEOUT_MILLIS: u64 = 60_000;

/// The longest payload of a control frame, and the bytes that frame it.
pub const CONTROL_PAYLOAD_MAX: usize = 125;

pub const CONTROL_FRAME_OVERHEAD: usize = 6;

#[derive(Clone, Copy, Debug, PartialEq, Eq)]
pub struct WsConfig {
    pub read_buffer_size: usize,
    pub max_message_size: usize,
    pub max_frame_size: usize,
    pub write_buffer_size: usize,
    pub max_write_buffer_size: usize,
    pub stalled_write_timeout: Duration,
    pub message_inactivity_timeout: Duration,
}

pub open spec fn byte_limit(size: usize) -> bool {
    1 <= size <= WS_BYTE_LIMIT_MAX
}

impl WsConfig {
    /// The first rule that a configuration breaks, if it breaks one.
    pub open spec fn fault(self) -> Option<&'static str> {
        if !(byte_limit(self.read_buffer_size) && byte_limit(self.max_message_size) && byte_limit(
            self.max_frame_size,
        ) && byte_limit(self.write_buffer_size) && byte_limit(self.max_write_buffer_size)) {
            Some("WebSocket byte limits must be within 1..=16 MiB")
        } else if self.max_frame_size > self.max_message_size {
            Some("WebSocket frame limit must not exceed message limit")
        } else if self.write_buffer_size >= self.max_write_buffer_size {
            Some("WebSocket write buffer must be smaller than max write buffer")
        } else if self.max_write_buffer_size < self.write_buffer_size + (if self.max_frame_size
            < CONTROL_PAYLOAD_MAX {
            self.max_frame_size
        } else {
            CONTROL_PAYLOAD_MAX
        }) + CONTROL_FRAME_OVERHEAD {
            Some("WebSocket max write buffer lacks automatic control-frame headroom")
        } else if !crate::clock::within_millis(self.stalled_write_timeout, 1, 60_000) {
            Some("WebSocket stalled-write timeout must be within 1 ms..=60 s")
        } else if !crate::clock::within_millis(self.message_inactivity_timeout, 1, 120_000) {
            Some("WebSocket message-inactivity timeout must be within 1 ms..=120 s")
        } else {
            None
        }
    }

    /// Whether a configuration has the usual sizes, and the usual patience with a stalled write.
    pub open spec fn usual(self) -> bool {
        &&& self.read_buffer_size == WS_READ_BUFFER_SIZE
        &&& self.max_message_size == WS_MESSAGE_SIZE
        &&& self.max_frame_size == WS_FRAME_SIZE
        &&& self.write_buffer_size == WS_WRITE_BUFFER_SIZE
        &&& self.max_write_buffer_size == WS_MAX_WRITE_BUFFER_SIZE
        &&& crate::clock::duration_nanos(self.stalled_write_timeout) == 5_000_000_000
    }

    /// The size of the message that probes whether writes stall: what fits into the write buffer, a
    /// frame and a message, and at least one byte.
    pub open spec fn probe_size(self) -> usize {
        let framed = if self.max_frame_size < self.max_message_size {
            self.max_frame_size
        } else {
            self.max_message_size
        };
        let written = if self.write_buffer_size < framed {
            self.write_buffer_size
        } else {
            framed
        };
        if written == 0 {
            1
        } else {
            written
        }
    }

    pub fn probe_payload_size(&self) -> (size: usize)
        ensures
            size == self.probe_size(),
    {
        let mut size: usize = self.write_buffer_size;
        if self.max_frame_size < size {
            size = self.max_frame_size;
        }
        if self.max_message_size < size {
            size = self.max_message_size;
        }
        if size < 1 {
            size = 1;
        }
        size
    }

    pub fn production() -> (config: WsConfig)
        ensures
            config.usual(),
            crate::clock::duration_nanos(config.message_inactivity_timeout) == 60_000_000_000,
            config.fault() is None,
    {
        WsConfig {
            read_buffer_size: WS_READ_BUFFER_SIZE,
            max_message_size: WS_MESSAGE_SIZE,
            max_frame_size: WS_FRAME_SIZE,
            write_buffer_size: WS_WRITE_BUFFER_SIZE,
            max_write_buffer_size: WS_MAX_WRITE_BUFFER_SIZE,
            stalled_write_timeout: Duration::from_millis(WS_STALLED_WRITE_TIMEOUT_MILLIS),
            message_inactivity_timeout: Duration::from_millis(WS_MESSAGE_INACTIVITY_TIMEOUT_MILLIS),
        }
    }

    /// The configuration itself where it breaks no rule, and the first rule that it breaks
    /// otherwise.
    pub fn validate(self) -> (validated: Result<WsConfig, ProviderError>)
        ensures
            validated == (match self.fault() {
                None => Ok::<WsConfig, ProviderError>(self),
                Some(detail) => Err(ProviderError::Configuration(detail)),
            }),
    {
        if !(is_byte_limit(self.read_buffer_size) && is_byte_limit(self.max_message_size)
            && is_byte_limit(self.max_frame_size) && is_byte_limit(self.write_buffer_size)
            && is_byte_limit(self.max_write_buffer_size)) {
            return Err(
                ProviderError::Configuration("WebSocket byte limits must be within 1..=16 MiB"),
            );
        }
        if self.max_frame_size > self.max_message_size {
            return Err(
                ProviderError::Configuration("WebSocket frame limit must not exceed message limit"),
            );
        }
        if self.write_buffer_size >= self.max_write_buffer_size {
            return Err(
                ProviderError::Configuration(
                    "WebSocket write buffer must be smaller than max write buffer",
                ),
            );
        }
        let control_payload: usize = if self.max_frame_size < CONTROL_PAYLOAD_MAX {
            self.max_frame_size
        } else {
            CONTROL_PAYLOAD_MAX
        };
        if self.max_write_buffer_size < self.write_buffer_size + control_payload
            + CONTROL_FRAME_OVERHEAD {
            return Err(
                ProviderError::Configuration(
                    "WebSocket max write buffer lacks automatic control-frame headroom",
                ),
            );
        }
        if !is_within_millis(self.stalled_write_timeout, 1, 60_000) {
            return Err(
                ProviderError::Configuration(
                    "WebSocket stalled-write timeout must be within 1 ms..=60 s",
                ),
            );
        }
        if !is_within_millis(self.message_inactivity_timeout, 1, 120_000) {
            return Err(
                ProviderError::Configuration(
                    "WebSocket message-inactivity timeout must be within 1 ms..=120 s",
                ),
            );
        }
        Ok(self)
    }
}

impl Default for WsConfig {
    fn default() -> (config: Self)
        ensures
            config.usual(),
            crate::clock::duration_nanos(config.message_inactivity_timeout) == 60_000_000_000,
            config.fault() is None,
    {
        WsConfig::production()
    }
}

fn is_byte_limit(size: usize) -> (within: bool)
    ensures
        within == byte_limit(size),
{
    1 <= size && size <= WS_BYTE_LIMIT_MAX
}

pub const KEYED_CANDLE_CAPACITY: usize = 1024;

pub const CONTROL_CAPACITY: usize = 64;

pub const EMERGENCY_CONTROL_CAPACITY: usize = 2;

pub const MARKET_EVENT_CHANNEL_CAPACITY: usize = 256;

pub const MAX_SUPERVISOR_CAPACITY: usize = 65_536;

pub const FIRST_KLINE_HANDSHAKE_TIMEOUT_MILLIS: u64 = 10_000;

pub const RECONCILE_ACK_TIMEOUT_MILLIS: u64 = 10_000;

#[derive(Clone, Copy, Debug, PartialEq, Eq)]
pub struct LiveSupervisorConfig {
    pub keyed_candle_capacity: usize,
    pub control_capacity: usize,
    pub market_event_capacity: usize,
    pub first_kline_timeout: Duration,
    pub reconcile_ack_timeout: Duration,
    pub ws_config: WsConfig,
    pub stalled_write_probe_frames: usize,
}

pub open spec fn supervisor_capacity(capacity: usize) -> bool {
    1 <= capacity <= MAX_SUPERVISOR_CAPACITY
}

fn is_supervisor_capacity(capacity: usize) -> (within: bool)
    ensures
        within == supervisor_capacity(capacity),
{
    1 <= capacity && capacity <= MAX_SUPERVISOR_CAPACITY
}

impl LiveSupervisorConfig {
    /// Whether a configuration has the usual capacities and timeouts, and a socket of the usual sizes.
    pub open spec fn usual(self) -> bool {
        &&& self.keyed_candle_capacity == KEYED_CANDLE_CAPACITY
        &&& self.control_capacity == CONTROL_CAPACITY
        &&& self.market_event_capacity == MARKET_EVENT_CHANNEL_CAPACITY
        &&& crate::clock::duration_nanos(self.first_kline_timeout) == 10_000_000_000
        &&& crate::clock::duration_nanos(self.reconcile_ack_timeout) == 10_000_000_000
        &&& self.stalled_write_probe_frames == 0
        &&& self.ws_config.usual()
    }

    /// The first rule that a configuration breaks, if it breaks one.
    pub open spec fn fault(self) -> Option<&'static str> {
        match self.limits_fault() {
            Some(detail) => Some(detail),
            None => self.ws_config.fault(),
        }
    }

    /// The first rule on capacities and timeouts that a configuration breaks, if it breaks one.
    pub open spec fn limits_fault(self) -> Option<&'static str> {
        if !(supervisor_capacity(self.keyed_candle_capacity) && supervisor_capacity(
            self.control_capacity,
        ) && supervisor_capacity(self.market_event_capacity)) {
            Some("live supervisor capacity is outside 1..=65536")
        } else if self.stalled_write_probe_frames > MAX_SUPERVISOR_CAPACITY {
            Some("live supervisor stalled-write probe is outside 0..=65536")
        } else if !(crate::clock::within_millis(self.first_kline_timeout, 1, 60_000)
            && crate::clock::within_millis(self.reconcile_ack_timeout, 1, 60_000)) {
            Some("live supervisor timeout is outside 1ms..=60s")
        } else {
            None
        }
    }

    /// Checks capacities and timeouts alone.
    pub fn validate_limits(&self) -> (validated: Result<(), ProviderError>)
        ensures
            validated == (match self.limits_fault() {
                None => Ok::<(), ProviderError>(()),
                Some(detail) => Err(ProviderError::Configuration(detail)),
            }),
    {
        if !(is_supervisor_capacity(self.keyed_candle_capacity) && is_supervisor_capacity(
            self.control_capacity,
        ) && is_supervisor_capacity(self.market_event_capacity)) {
            return Err(
                ProviderError::Configuration("live supervisor capacity is outside 1..=65536"),
            );
        }
        if self.stalled_write_probe_frames > MAX_SUPERVISOR_CAPACITY {
            return Err(
                ProviderError::Configuration(
                    "live supervisor stalled-write probe is outside 0..=65536",
                ),
            );
        }
        if !(is_within_millis(self.first_kline_timeout, 1, 60_000) && is_within_millis(
            self.reconcile_ack_timeout,
            1,
            60_000,
        )) {
            return Err(
                ProviderError::Configuration("live supervisor timeout is outside 1ms..=60s"),
            );
        }
        Ok(())
    }

    pub fn validate(&self) -> (validated: Result<(), ProviderError>)
        ensures
            validated == (match self.fault() {
                None => Ok::<(), ProviderError>(()),
                Some(detail) => Err(ProviderError::Configuration(detail)),
            }),
    {
        match self.validate_limits() {
            Ok(()) => {},
            Err(error) => {
                return Err(error);
            },
        }
        match self.ws_config.validate() {
            Ok(_) => Ok(()),
            Err(error) => Err(error),
        }
    }
}

impl Default for LiveSupervisorConfig {
    fn default() -> (config: Self)
        ensures
            config.fault() is None,
            config.usual(),
            crate::clock::duration_nanos(config.ws_config.message_inactivity_timeout)
                == 60_000_000_000,
    {
        LiveSupervisorConfig {
            keyed_candle_capacity: KEYED_CANDLE_CAPACITY,
            control_capacity: CONTROL_CAPACITY,
            market_event_capacity: MARKET_EVENT_CHANNEL_CAPACITY,
            first_kline_timeout: Duration::from_millis(FIRST_KLINE_HANDSHAKE_TIMEOUT_MILLIS),
            reconcile_ack_timeout: Duration::from_millis(RECONCILE_ACK_TIMEOUT_MILLIS),
            ws_config: WsConfig::default(),
            stalled_write_probe_frames: 0,
        }
    }
}

/// When a connection is given up for its age: never, or once it is as old as said.
#[derive(Clone, Copy, Debug, PartialEq, Eq)]
pub enum ConnectionRotation {
    Never,
    After { max_age: Duration, detail: &'static str },
}

/// What a rate gate that blocks the process means to a provider.
#[derive(Clone, Copy, Debug, PartialEq, Eq)]
pub enum ProcessBlockPolicy {
    InvalidBanExpiry,
    Forbidden(&'static str),
}

/// How far one generation may reconcile.
#[derive(Clone, Copy, Debug, PartialEq, Eq)]
pub enum ReconciliationPolicy {
    Unbounded,
    Bounded(ReconciliationLimits),
}

#[derive(Clone, Copy, Debug, PartialEq, Eq)]
pub struct ReconciliationLimits {
    pub max_successors: usize,
    pub max_pages: usize,
    pub span_exceeded: &'static str,
    pub page_exceeded: &'static str,
    pub distinct_exceeded: &'static str,
}

/// The terms on which a provider's live feed is run.
#[derive(Clone, Copy, Debug)]
pub struct LiveConfig<'a> {
    pub supervisor: &'a LiveSupervisorConfig,
    pub reconciliation: ReconciliationPolicy,
}

/// The first rule that a provider's terms break, if they break one.
pub open spec fn runtime_fault(
    history_page_limit: u16,
    config: LiveSupervisorConfig,
    reconciliation: ReconciliationPolicy,
    rotation: ConnectionRotation,
) -> Option<&'static str> {
    if config.fault() is Some {
        config.fault()
    } else if reconciliation matches ReconciliationPolicy::Bounded(limits) && (
    limits.max_successors == 0 || limits.max_pages == 0 || limits.max_successors == usize::MAX) {
        Some("live reconciliation limits must be positive and representable")
    } else if rotation matches ConnectionRotation::After { max_age, detail }
        && crate::clock::duration_nanos(max_age) == 0 {
        Some("live connection max age must be positive")
    } else if history_page_limit == 0 {
        Some("provider history page limit must be non-zero")
    } else {
        None
    }
}

/// Checks a provider's terms before a live feed is opened on them, and gives its page limit back.
pub fn validate_runtime_contract(
    capabilities: &ProviderCapabilities,
    config: LiveConfig<'_>,
    rotation: ConnectionRotation,
) -> (limit: Result<u16, ProviderError>)
    ensures
        limit == (match runtime_fault(
            capabilities.history_page_limit,
            *config.supervisor,
            config.reconciliation,
            rotation,
        ) {
            None => Ok::<u16, ProviderError>(capabilities.history_page_limit),
            Some(detail) => Err(ProviderError::Configuration(detail)),
        }),
{
    match config.supervisor.validate() {
        Ok(()) => {},
        Err(error) => {
            return Err(error);
        },
    }
    match config.reconciliation {
        ReconciliationPolicy::Bounded(limits) => {
            if limits.max_successors == 0 || limits.max_pages == 0
                || limits.max_successors.checked_add(1).is_none() {
                return Err(
                    ProviderError::Configuration(
                        "live reconciliation limits must be positive and representable",
                    ),
                );
            }
        },
        ReconciliationPolicy::Unbounded => {},
    }
    match rotation {
        ConnectionRotation::After { max_age, .. } => {
            if is_zero(max_age) {
                return Err(
                    ProviderError::Configuration("live connection max age must be positive"),
                );
            }
        },
        ConnectionRotation::Never => {},
    }
    if capabilities.history_page_limit == 0 {
        return Err(ProviderError::Configuration("provider history page limit must be non-zero"));
    }
    Ok(capabilities.history_page_limit)
}

/// How many events a feed's channel must hold: the regular ones, and room for an emergency pair.
pub fn physical_capacity(market_event_capacity: usize) -> (capacity: Result<usize, ProviderError>)
    ensures
        capacity == (if market_event_capacity + EMERGENCY_CONTROL_CAPACITY <= usize::MAX {
            Ok::<usize, ProviderError>((market_event_capacity + EMERGENCY_CONTROL_CAPACITY) as usize)
        } else {
            Err(ProviderError::Invariant("market event capacity overflow"))
        }),
{
    match market_event_capacity.checked_add(EMERGENCY_CONTROL_CAPACITY) {
        Some(capacity) => Ok(capacity),
        None => Err(ProviderError::Invariant("market event capacity overflow")),
    }
}

/// Every configuration that a WebSocket accepts leaves room in the write buffer for a whole control
/// frame behind a full regular buffer.
pub proof fn law_valid_config_has_control_headroom(config: WsConfig)
    requires
        config.fault() is None,
    ensures
        config.max_write_buffer_size >= config.write_buffer_size + CONTROL_FRAME_OVERHEAD + 1,
        config.max_frame_size >= CONTROL_PAYLOAD_MAX ==> config.max_write_buffer_size
            >= config.write_buffer_size + CONTROL_PAYLOAD_MAX + CONTROL_FRAME_OVERHEAD,
        config.max_frame_size <= config.max_message_size,
{
}

/// A socket's limits are accepted exactly where every size is at least a byte and at most sixteen
/// mebibytes, a frame is no larger than a message, the write buffer has room for one more control
/// frame, a write may stall for up to a minute and a peer be silent for up to two, and neither for no
/// time.
pub proof fn law_valid_sockets(config: WsConfig)
    ensures
        config.fault() is None <==> {
            let most: nat = 16 * 1024 * 1024;
            let control: int = if config.max_frame_size < 125 {
                config.max_frame_size as int
            } else {
                125
            };
            let stall = crate::clock::duration_nanos(config.stalled_write_timeout);
            let silence = crate::clock::duration_nanos(config.message_inactivity_timeout);
            &&& 0 < config.read_buffer_size <= most
            &&& 0 < config.max_message_size <= most
            &&& 0 < config.max_frame_size <= most
            &&& 0 < config.write_buffer_size <= most
            &&& 0 < config.max_write_buffer_size <= most
            &&& config.max_frame_size <= config.max_message_size
            &&& config.write_buffer_size + control + 6 <= config.max_write_buffer_size
            &&& 1_000_000 <= stall <= 60_000_000_000
            &&& 1_000_000 <= silence <= 120_000_000_000
        },
{
}

/// A supervisor's limits are accepted exactly where each capacity is at least one and at most
/// sixty-five thousand, five hundred and thirty-six, its probe sends no more frames than that, its
/// waits last from a millisecond to a minute, and its socket's limits are accepted.
pub proof fn law_valid_supervisors(config: LiveSupervisorConfig)
    ensures
        config.limits_fault() is None <==> {
            let first = crate::clock::duration_nanos(config.first_kline_timeout);
            let ack = crate::clock::duration_nanos(config.reconcile_ack_timeout);
            &&& 0 < config.keyed_candle_capacity <= 65_536
            &&& 0 < config.control_capacity <= 65_536
            &&& 0 < config.market_event_capacity <= 65_536
            &&& config.stalled_write_probe_frames <= 65_536
            &&& 1_000_000 <= first <= 60_000_000_000
            &&& 1_000_000 <= ack <= 60_000_000_000
        },
        config.fault() is None <==> config.limits_fault() is None && config.ws_config.fault()
            is None,
{
}

/// A provider's terms are accepted exactly where its supervisor's are, its pages have rows, its
/// connections may grow older than no time, and a bound on its reconciliation lets something through.
pub proof fn law_valid_terms(
    history_page_limit: u16,
    config: LiveSupervisorConfig,
    reconciliation: ReconciliationPolicy,
    rotation: ConnectionRotation,
)
    ensures
        runtime_fault(history_page_limit, config, reconciliation, rotation) is None <==> {
            &&& config.fault() is None
            &&& history_page_limit > 0
            &&& rotation matches ConnectionRotation::After { max_age, .. }
                ==> crate::clock::duration_nanos(max_age) > 0
            &&& reconciliation matches ReconciliationPolicy::Bounded(limits)
                ==> limits.max_successors > 0 && limits.max_pages > 0 && limits.max_successors
                < usize::MAX
        },
{
}

/// A probe is as large as it can be without being parted: it fits into a frame, a message and the
/// write buffer, and nothing larger does, but that it has at least one byte.
pub proof fn law_probes_fit(config: WsConfig, size: usize)
    requires
        config.fault() is None,
    ensures
        0 < config.probe_size(),
        config.probe_size() <= config.max_frame_size,
        config.probe_size() <= config.max_message_size,
        config.probe_size() <= config.write_buffer_size,
        size <= config.max_frame_size && size <= config.max_message_size && size
            <= config.write_buffer_size ==> size <= config.probe_size(),
{
}

/// The usual socket: what it reads, sends and holds, in bytes, and how long a write may stall.
pub proof fn law_usual_sockets(config: WsConfig)
    requires
        config.usual(),
    ensures
        config.read_buffer_size == 128 * 1024,
        config.max_message_size == 1024 * 1024,
        config.max_frame_size == 256 * 1024,
        config.write_buffer_size == 64 * 1024,
        config.max_write_buffer_size == 1024 * 1024,
        crate::clock::duration_nanos(config.stalled_write_timeout) == 5_000_000_000,
{
}

/// The usual supervisor: how many opening times, control events and events it holds, and how long it
/// waits for a first candle and for an acknowledgement.
pub proof fn law_usual_supervisors(config: LiveSupervisorConfig)
    requires
        config.usual(),
    ensures
        config.keyed_candle_capacity == 1024,
        config.control_capacity == 64,
        config.market_event_capacity == 256,
        crate::clock::duration_nanos(config.first_kline_timeout) == 10_000_000_000,
        crate::clock::duration_nanos(config.reconcile_ack_timeout) == 10_000_000_000,
        config.stalled_write_probe_frames == 0,
        config.ws_config.usual(),
{
}

} // verus!

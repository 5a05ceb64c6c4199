//! Frames as a provider's codec reads them, and which of several to heed first.
use std::collections::VecDeque;

use vstd::prelude::*;

use crate::error::ProviderError;

verus! {

/// What comes off a socket.
#[derive(Debug, PartialEq, Eq)]
pub enum WsMessage {
    Text(Vec<u8>),
    Binary(Vec<u8>),
    Close(Option<u16>),
    Ping,
    Pong,
    Frame,
}

impl WsMessage {
    pub open spec fn is_data_message(self) -> bool {
        self is Text || self is Binary
    }

    /// Whether a message carries something of the provider's.
    pub fn is_data(&self) -> (data: bool)
        ensures
            data == self.is_data_message(),
    {
        match self {
            WsMessage::Text(_) => true,
            WsMessage::Binary(_) => true,
            _ => false,
        }
    }
}

/// What a codec makes of a message.
#[derive(Debug, PartialEq)]
pub enum DecodedFrame<T> {
    Provider(T),
    Ignored,
    ProviderError(ProviderError),
    ReconnectRequested,
    Close(Option<u16>),
}

/// What is heeded last of all.
pub const LOWEST_PRIORITY: u8 = 255;

/// Something that only one provider's socket says, with its place among what is to be heeded.
pub trait WsOutcome: Sized {
    spec fn rank(self) -> int;

    /// The smaller, the sooner it is heeded.
    fn readiness_priority(&self) -> (priority: u8)
        ensures
            priority == self.rank(),
    ;
}

/// The place of a frame among what is to be heeded: the end of a connection first, failures next,
/// and what says nothing last.
pub open spec fn frame_rank<T: WsOutcome>(frame: DecodedFrame<T>) -> int {
    match frame {
        DecodedFrame::Close(_) => 0,
        DecodedFrame::ReconnectRequested => 0,
        DecodedFrame::ProviderError(_) => 1,
        DecodedFrame::Provider(outcome) => outcome.rank(),
        DecodedFrame::Ignored => LOWEST_PRIORITY as int,
    }
}

pub fn readiness_priority<T: WsOutcome>(frame: &DecodedFrame<T>) -> (priority: u8)
    ensures
        priority == frame_rank(*frame),
{
    match frame {
        DecodedFrame::Close(_) => 0,
        DecodedFrame::ReconnectRequested => 0,
        DecodedFrame::ProviderError(_) => 1,
        DecodedFrame::Provider(outcome) => outcome.readiness_priority(),
        DecodedFrame::Ignored => LOWEST_PRIORITY,
    }
}

/// Whether a frame ends the connection.
pub open spec fn closing<T>(frame: DecodedFrame<T>) -> bool {
    frame is Close || frame is ReconnectRequested
}

pub fn is_closing<T>(frame: &DecodedFrame<T>) -> (ends: bool)
    ensures
        ends == closing(*frame),
{
    match frame {
        DecodedFrame::Close(_) => true,
        DecodedFrame::ReconnectRequested => true,
        _ => false,
    }
}

/// Whether the frame at a place is to be heeded before all others: none has a smaller rank, and none
/// before it has as small a one.
pub open spec fn foremost<T: WsOutcome>(frames: Seq<DecodedFrame<T>>, place: int) -> bool {
    &&& 0 <= place < frames.len()
    &&& forall|i: int|
        0 <= i < frames.len() ==> frame_rank(frames[place]) <= frame_rank(#[trigger] frames[i])
    &&& forall|i: int|
        0 <= i < place ==> frame_rank(frames[place]) < frame_rank(#[trigger] frames[i])
}

/// Whether the frame at a place is the first that ends the connection.
pub open spec fn first_closing<T>(frames: Seq<DecodedFrame<T>>, place: int) -> bool {
    &&& 0 <= place < frames.len()
    &&& closing(frames[place])
    &&& forall|i: int| 0 <= i < place ==> !closing(#[trigger] frames[i])
}

pub open spec fn has_closing<T>(frames: Seq<DecodedFrame<T>>) -> bool {
    exists|i: int| 0 <= i < frames.len() && closing(#[trigger] frames[i])
}

fn find_foremost<T: WsOutcome>(frames: &VecDeque<DecodedFrame<T>>) -> (place: Option<usize>)
    ensures
        match place {
            Some(index) => foremost(frames@, index as int),
            None => frames@.len() == 0,
        },
{
    if frames.len() == 0 {
        return None;
    }
    let mut best: usize = 0;
    let mut index: usize = 1;
    while index < frames.len()
        invariant
            1 <= index <= frames@.len(),
            best < index,
            forall|i: int|
                0 <= i < index ==> frame_rank(frames@[best as int]) <= frame_rank(
                    #[trigger] frames@[i],
                ),
            forall|i: int|
                0 <= i < best ==> frame_rank(frames@[best as int]) < frame_rank(
                    #[trigger] frames@[i],
                ),
        decreases frames@.len() - index,
    {
        if readiness_priority(&frames[index]) < readiness_priority(&frames[best]) {
            best = index;
        }
        index += 1;
    }
    Some(best)
}

fn find_closing<T>(frames: &VecDeque<DecodedFrame<T>>) -> (place: Option<usize>)
    ensures
        match place {
            Some(index) => first_closing(frames@, index as int),
            None => !has_closing(frames@),
        },
{
    let mut index: usize = 0;
    while index < frames.len()
        invariant
            index <= frames@.len(),
            forall|i: int| 0 <= i < index ==> !closing(#[trigger] frames@[i]),
        decreases frames@.len() - index,
    {
        if is_closing(&frames[index]) {
            return Some(index);
        }
        index += 1;
    }
    None
}

/// Whether any frame is a close frame.
pub open spec fn has_close<T>(frames: Seq<DecodedFrame<T>>) -> bool {
    exists|i: int| 0 <= i < frames.len() && (#[trigger] frames[i]) is Close
}

pub fn contains_close<T>(frames: &VecDeque<DecodedFrame<T>>) -> (found: bool)
    ensures
        found == has_close(frames@),
{
    let mut index: usize = 0;
    while index < frames.len()
        invariant
            index <= frames@.len(),
            forall|i: int| 0 <= i < index ==> !((#[trigger] frames@[i]) is Close),
        decreases frames@.len() - index,
    {
        if let DecodedFrame::Close(_) = &frames[index] {
            assert(frames@[index as int] is Close);
            return true;
        }
        index += 1;
    }
    false
}

/// Whether one row of frames is what is kept of another: the foremost frame alone.
pub open spec fn coalesced<T: WsOutcome>(
    before: Seq<DecodedFrame<T>>,
    after: Seq<DecodedFrame<T>>,
) -> bool {
    if before.len() == 0 {
        after.len() == 0
    } else {
        exists|place: int| #[trigger] foremost(before, place) && after == seq![before[place]]
    }
}

/// Keeps the foremost frame and forgets the rest.
pub fn coalesce_readiness_outcomes<T: WsOutcome>(decoded: &mut VecDeque<DecodedFrame<T>>)
    ensures
        coalesced(old(decoded)@, final(decoded)@),
{
    match find_foremost(decoded) {
        None => {},
        Some(index) => {
            let ghost before = decoded@;
            let kept = decoded.remove(index);
            decoded.clear();
            if let Some(frame) = kept {
                decoded.push_back(frame);
            }
            assert(foremost(before, index as int));
            assert(decoded@ =~= seq![before[index as int]]);
        },
    }
}

/// Whether there is anything to act on.
pub open spec fn actionable<T: WsOutcome>(
    frames: Seq<DecodedFrame<T>>,
    terminal: bool,
    stalled: bool,
) -> bool {
    terminal || stalled || exists|i: int|
        0 <= i < frames.len() && frame_rank(#[trigger] frames[i]) < LOWEST_PRIORITY
}

pub fn has_actionable_readiness<T: WsOutcome>(
    decoded: &VecDeque<DecodedFrame<T>>,
    terminal: bool,
    stalled: bool,
) -> (found: bool)
    ensures
        found == actionable(decoded@, terminal, stalled),
{
    if terminal || stalled {
        return true;
    }
    let mut index: usize = 0;
    while index < decoded.len()
        invariant
            index <= decoded@.len(),
            forall|i: int|
                0 <= i < index ==> frame_rank(#[trigger] decoded@[i]) >= LOWEST_PRIORITY,
        decreases decoded@.len() - index,
    {
        if readiness_priority(&decoded[index]) < LOWEST_PRIORITY {
            assert(frame_rank(decoded@[index as int]) < LOWEST_PRIORITY);
            return true;
        }
        index += 1;
    }
    false
}

/// What a socket that is not yet subscribed is to heed.
#[derive(Debug, PartialEq)]
pub enum ReadinessInput<T> {
    Frame(DecodedFrame<T>),
    Error(ProviderError),
}

/// Whether an input is the one to heed: the first frame that ends the connection; else a stalled
/// write, else another failure; else the foremost frame. What is heeded is taken out.
pub open spec fn prioritized<T: WsOutcome>(
    before: Seq<DecodedFrame<T>>,
    terminal: Option<ProviderError>,
    stalled: Option<ProviderError>,
    after: Seq<DecodedFrame<T>>,
    input: Option<ReadinessInput<T>>,
) -> bool {
    if has_closing(before) {
        exists|place: int| #[trigger]
            first_closing(before, place) && after == before.remove(place) && input == Some(
                ReadinessInput::Frame(before[place]),
            )
    } else if stalled is Some || terminal is Some {
        after == before && input == Some(
            ReadinessInput::<T>::Error(
                if stalled is Some {
                    stalled->0
                } else {
                    terminal->0
                },
            ),
        )
    } else if before.len() == 0 {
        after == before && input is None
    } else {
        exists|place: int| #[trigger]
            foremost(before, place) && after == before.remove(place) && input == Some(
                ReadinessInput::Frame(before[place]),
            )
    }
}

fn take_frame<T>(decoded: &mut VecDeque<DecodedFrame<T>>, index: usize) -> (frame: Option<
    ReadinessInput<T>,
>)
    requires
        index < old(decoded)@.len(),
    ensures
        final(decoded)@ == old(decoded)@.remove(index as int),
        frame == Some(ReadinessInput::Frame(old(decoded)@[index as int])),
{
    match decoded.remove(index) {
        Some(frame) => Some(ReadinessInput::Frame(frame)),
        None => None,
    }
}

pub fn take_prioritized_readiness<T: WsOutcome>(
    decoded: &mut VecDeque<DecodedFrame<T>>,
    terminal_error: Option<ProviderError>,
    stalled_write_error: Option<ProviderError>,
) -> (input: Option<ReadinessInput<T>>)
    ensures
        prioritized(
            old(decoded)@,
            terminal_error,
            stalled_write_error,
            final(decoded)@,
            input,
        ),
{
    if let Some(index) = find_closing(decoded) {
        assert(first_closing(decoded@, index as int));
        return take_frame(decoded, index);
    }
    if let Some(error) = stalled_write_error {
        return Some(ReadinessInput::Error(error));
    }
    if let Some(error) = terminal_error {
        return Some(ReadinessInput::Error(error));
    }
    match find_foremost(decoded) {
        None => None,
        Some(index) => {
            assert(foremost(decoded@, index as int));
            take_frame(decoded, index)
        },
    }
}

/// Only one frame can be foremost.
pub proof fn law_foremost_is_single<T: WsOutcome>(
    frames: Seq<DecodedFrame<T>>,
    left: int,
    right: int,
)
    requires
        foremost(frames, left),
        foremost(frames, right),
    ensures
        left == right,
{
    let low = frames[left];
    let high = frames[right];
    if left < right {
        assert(frame_rank(high) < frame_rank(low));
    } else if right < left {
        assert(frame_rank(low) < frame_rank(high));
    }
}

/// A frame that ends the connection is heeded before any failure and before any other frame.
pub proof fn law_closing_is_heeded_first<T: WsOutcome>(
    before: Seq<DecodedFrame<T>>,
    terminal: Option<ProviderError>,
    stalled: Option<ProviderError>,
    after: Seq<DecodedFrame<T>>,
    input: Option<ReadinessInput<T>>,
)
    requires
        prioritized(before, terminal, stalled, after, input),
        has_closing(before),
    ensures
        input matches Some(ReadinessInput::Frame(frame)) && closing(frame),
{
}

/// What is heeded before what: the end of a connection before a failure, a failure before whatever
/// says nothing, and what says nothing last of all.
pub proof fn law_ends_come_before_failures<T: WsOutcome>(
    code: Option<u16>,
    error: ProviderError,
    outcome: T,
)
    ensures
        frame_rank(DecodedFrame::<T>::Close(code)) == frame_rank(
            DecodedFrame::<T>::ReconnectRequested,
        ),
        frame_rank(DecodedFrame::<T>::Close(code)) < frame_rank(
            DecodedFrame::<T>::ProviderError(error),
        ),
        frame_rank(DecodedFrame::<T>::ProviderError(error)) < frame_rank(
            DecodedFrame::<T>::Ignored,
        ),
        frame_rank(DecodedFrame::Provider(outcome)) == outcome.rank(),
        closing(DecodedFrame::<T>::Close(code)) && closing(DecodedFrame::<T>::ReconnectRequested),
        !closing(DecodedFrame::<T>::ProviderError(error)) && !closing(
            DecodedFrame::Provider(outcome),
        ) && !closing(DecodedFrame::<T>::Ignored),
{
}

/// What is taken to be heeded: where nothing ends the connection, a stalled write before any other
/// failure, either before every frame; then the frame that comes before all others. No frame is lost
/// but the one that is taken.
pub proof fn law_what_is_heeded<T: WsOutcome>(
    before: Seq<DecodedFrame<T>>,
    terminal: Option<ProviderError>,
    stalled: Option<ProviderError>,
    after: Seq<DecodedFrame<T>>,
    input: Option<ReadinessInput<T>>,
)
    requires
        prioritized(before, terminal, stalled, after, input),
    ensures
        !has_closing(before) && stalled is Some ==> input == Some(
            ReadinessInput::<T>::Error(stalled->0),
        ) && after == before,
        !has_closing(before) && stalled is None && terminal is Some ==> input == Some(
            ReadinessInput::<T>::Error(terminal->0),
        ) && after == before,
        input is None <==> before.len() == 0 && stalled is None && terminal is None,
        input matches Some(ReadinessInput::Frame(frame)) ==> exists|place: int|
            0 <= place < before.len() && #[trigger] before[place] == frame && after == before.remove(
                place,
            ),
        input matches Some(ReadinessInput::Frame(frame)) ==> (!has_closing(before) ==> forall|
            i: int,
        |
            0 <= i < before.len() ==> frame_rank(frame) <= frame_rank(#[trigger] before[i])),
{
    if has_closing(before) {
        let i = choose|i: int| 0 <= i < before.len() && closing(#[trigger] before[i]);
        assert(before.len() > 0);
        let place = choose|place: int| #[trigger]
            first_closing(before, place) && after == before.remove(place) && input == Some(
                ReadinessInput::Frame(before[place]),
            );
        assert(before[place] == before[place]);
    } else if stalled is None && terminal is None && before.len() > 0 {
        let place = choose|place: int| #[trigger]
            foremost(before, place) && after == before.remove(place) && input == Some(
                ReadinessInput::Frame(before[place]),
            );
        assert(before[place] == before[place]);
    }
}

/// A socket has something to act on where it failed or stalled, or where a frame says something; not
/// where all that came means nothing.
pub proof fn law_when_to_act<T: WsOutcome>(frames: Seq<DecodedFrame<T>>, place: int)
    requires
        0 <= place < frames.len(),
    ensures
        actionable(frames, true, false) && actionable(frames, false, true),
        frames[place] is Close || frames[place] is ReconnectRequested || frames[place]
            is ProviderError ==> actionable(frames, false, false),
        (forall|i: int| 0 <= i < frames.len() ==> (#[trigger] frames[i]) is Ignored)
            ==> !actionable(frames, false, false),
{
    assert(frame_rank(frames[place]) == frame_rank(frames[place]));
}

/// Only text and binary messages carry something of the provider's.
pub proof fn law_data_messages(message: WsMessage)
    ensures
        message.is_data_message() <==> !(message is Close || message is Ping || message is Pong
            || message is Frame),
{
}

/// Of frames that came before a subscription stands one is kept, if any came: one of them, and the
/// foremost.
pub proof fn law_one_frame_is_kept<T: WsOutcome>(
    before: Seq<DecodedFrame<T>>,
    after: Seq<DecodedFrame<T>>,
)
    requires
        coalesced(before, after),
    ensures
        before.len() == 0 ==> after.len() == 0,
        before.len() > 0 ==> after.len() == 1 && before.contains(after[0]),
        before.len() > 0 ==> exists|place: int| #[trigger]
            foremost(before, place) && before[place] == after[0],
        before.len() == 1 ==> after == before,
{
    if before.len() > 0 {
        let place = choose|place: int| #[trigger]
            foremost(before, place) && after == seq![before[place]];
        assert(before.contains(before[place]));
    }
}

} // verus!

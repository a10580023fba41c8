//! The state of the engine and the rules that change it.

use vstd::prelude::*;
use crate::binary32::{exceeds, ZERO};
use crate::device::position;
use crate::error::Failure;
use crate::level::peak_of;
use crate::protocol::{Answer, Outcome, Phase, Request};

verus! {

/// The pattern of 0.001, the threshold of a new monitor.
pub const DEFAULT_THRESHOLD: u32 = 0x3a83_126f;

/// The state of the engine.
pub struct MonitorState {
    /// Whether the last buffer counted as speech.
    pub active: bool,
    /// The peak level of the last buffer, as a pattern.
    pub level: u32,
    /// The level above which a buffer counts as speech, as a pattern.
    pub threshold: u32,
    /// The identifier of the device whose stream is open, if one is.
    pub stream: Option<Seq<char>>,
    /// The identifier that the switch under way asks for; empty while none
    /// is under way.
    pub target: Seq<char>,
    /// How far a switch has come.
    pub phase: Phase,
}

impl MonitorState {
    /// The state of a new engine: silent, no stream, the default threshold.
    pub open spec fn initial() -> MonitorState {
        MonitorState {
            active: false,
            level: ZERO,
            threshold: DEFAULT_THRESHOLD,
            stream: None,
            target: Seq::empty(),
            phase: Phase::Settled,
        }
    }

    /// What holds of every state an engine can be in: a stream is being
    /// opened only while none is open, and nothing is left of a switch
    /// that is over.
    pub open spec fn consistent(self) -> bool {
        &&& self.phase is Opening ==> self.stream is None
        &&& self.phase is Settled ==> self.target == Seq::<char>::empty()
    }

    /// The request that waits for its answer, if a switch is under way.
    pub open spec fn pending(self) -> Option<Request> {
        match self.phase {
            Phase::Settled => None,
            Phase::Listing => Some(Request::ListDevices),
            Phase::Negotiating { device } => Some(Request::NegotiateConfig { device }),
            Phase::Closing { .. } => Some(Request::CloseStream),
            Phase::Opening { device } => Some(Request::OpenStream { device }),
        }
    }

    /// Whether the record of the stream is right of a host that holds
    /// `open` capture streams open for this engine.
    pub open spec fn records(self, open: int) -> bool {
        open == if self.stream is Some {
            1int
        } else {
            0int
        }
    }

    /// The state once a buffer has been processed: the level is the
    /// buffer's peak, and the buffer counts as speech if that level is
    /// greater than the threshold as it stands.
    pub open spec fn after_buffer(self, samples: Seq<u32>) -> MonitorState {
        MonitorState {
            level: peak_of(samples),
            active: exceeds(peak_of(samples), self.threshold),
            ..self
        }
    }

    /// The state with another threshold. Level and activity stay as the
    /// last buffer left them.
    pub open spec fn with_threshold(self, value: u32) -> MonitorState {
        MonitorState { threshold: value, ..self }
    }

    /// The state once the switch under way is over: nothing is pending and
    /// the identifier it asked for is forgotten.
    pub open spec fn settled(self) -> MonitorState {
        MonitorState { target: Seq::empty(), phase: Phase::Settled, ..self }
    }

    /// The state and the first request once a switch to `id` has been asked
    /// for. While another switch is under way nothing changes and there is
    /// no request.
    pub open spec fn begun(self, id: Seq<char>) -> (MonitorState, Option<Request>) {
        if self.phase is Settled {
            (MonitorState { target: id, phase: Phase::Listing, ..self }, Some(Request::ListDevices))
        } else {
            (self, None)
        }
    }

    /// The state and the next step once the host has answered.
    ///
    /// A switch that fails before the old stream is closed leaves that
    /// stream open. One that fails after it leaves the engine without a
    /// stream. An answer to a question that was not asked changes nothing
    /// and gives no step.
    pub open spec fn after_reply(self, answer: Answer) -> (MonitorState, Option<Outcome>) {
        match (self.phase, answer) {
            (Phase::Listing, Answer::Devices(names)) => match position(names, self.target) {
                Some(i) => (
                    MonitorState { phase: Phase::Negotiating { device: i as usize }, ..self },
                    Some(Outcome::Ask(Request::NegotiateConfig { device: i as usize })),
                ),
                None => (self.settled(), Some(Outcome::Done(Err(Failure::DeviceNotFound)))),
            },
            (Phase::Listing, Answer::Unavailable(text)) => (
                self.settled(),
                Some(Outcome::Done(Err(Failure::HostUnavailable(text)))),
            ),
            (Phase::Negotiating { device }, Answer::ConfigAccepted) => if self.stream is Some {
                (
                    MonitorState { phase: Phase::Closing { device }, ..self },
                    Some(Outcome::Ask(Request::CloseStream)),
                )
            } else {
                (
                    MonitorState { phase: Phase::Opening { device }, ..self },
                    Some(Outcome::Ask(Request::OpenStream { device })),
                )
            },
            (Phase::Negotiating { .. }, Answer::ConfigRefused(text)) => (
                self.settled(),
                Some(Outcome::Done(Err(Failure::StreamOpenError(text)))),
            ),
            (Phase::Closing { device }, Answer::StreamClosed) => (
                MonitorState { stream: None, phase: Phase::Opening { device }, ..self },
                Some(Outcome::Ask(Request::OpenStream { device })),
            ),
            (Phase::Opening { .. }, Answer::StreamOpened) => (
                MonitorState { stream: Some(self.target), ..self.settled() },
                Some(Outcome::Done(Ok(()))),
            ),
            (Phase::Opening { .. }, Answer::StreamRefused(text)) => (
                self.settled(),
                Some(Outcome::Done(Err(Failure::StreamOpenError(text)))),
            ),
            _ => (self, None),
        }
    }
}

/// How many capture streams the host holds open for the engine once it has
/// acted on a request and given its answer, where it held `open` before.
/// A stream that was opened is one more, closing leaves none, and nothing
/// else touches the streams.
pub open spec fn streams_after(open: int, request: Request, answer: Answer) -> int {
    match (request, answer) {
        (Request::OpenStream { .. }, Answer::StreamOpened) => open + 1,
        (Request::CloseStream, Answer::StreamClosed) => 0,
        _ => open,
    }
}

/// After a buffer, the level is the buffer's peak and the engine is active
/// exactly if that peak is greater than the threshold that stood when the
/// buffer was processed. Nothing else changes.
pub proof fn lemma_buffer_sets_level_and_activity(state: MonitorState, samples: Seq<u32>)
    ensures
        state.after_buffer(samples).level == peak_of(samples),
        state.after_buffer(samples).active == exceeds(peak_of(samples), state.threshold),
        state.after_buffer(samples).threshold == state.threshold,
        state.after_buffer(samples).stream == state.stream,
        state.after_buffer(samples).phase == state.phase,
{
}

/// Level and activity come from one buffer: whatever was processed before,
/// they are what the last buffer alone gives.
pub proof fn lemma_last_buffer_decides(state: MonitorState, earlier: Seq<u32>, last: Seq<u32>)
    ensures
        state.after_buffer(earlier).after_buffer(last) == state.after_buffer(last),
{
}

/// A threshold that was set is the threshold that is read, whatever its
/// pattern: negative, above full scale, or no number at all.
pub proof fn lemma_threshold_round_trip(state: MonitorState, value: u32)
    ensures
        state.with_threshold(value).threshold == value,
        state.with_threshold(value).with_threshold(state.threshold) == state,
{
}

/// A new threshold leaves level and activity as they are and decides the
/// next buffer.
pub proof fn lemma_threshold_applies_to_next_buffer(
    state: MonitorState,
    value: u32,
    samples: Seq<u32>,
)
    ensures
        state.with_threshold(value).level == state.level,
        state.with_threshold(value).active == state.active,
        state.with_threshold(value).after_buffer(samples).active == exceeds(
            peak_of(samples),
            value,
        ),
{
}

/// No step of a switch touches level, activity or threshold.
pub proof fn lemma_switch_keeps_readings(state: MonitorState, id: Seq<char>, answer: Answer)
    ensures
        state.begun(id).0.active == state.active,
        state.begun(id).0.level == state.level,
        state.begun(id).0.threshold == state.threshold,
        state.after_reply(answer).0.active == state.active,
        state.after_reply(answer).0.level == state.level,
        state.after_reply(answer).0.threshold == state.threshold,
{
}

/// Every step leads from a consistent state to a consistent state, and a
/// stream is asked to be opened only in a state in which none is open.
pub proof fn lemma_opens_only_when_closed(state: MonitorState, id: Seq<char>, answer: Answer)
    requires
        state.consistent(),
    ensures
        MonitorState::initial().consistent(),
        state.begun(id).0.consistent(),
        state.after_reply(answer).0.consistent(),
        state.after_reply(answer).1 matches Some(Outcome::Ask(Request::OpenStream { .. }))
            ==> state.after_reply(answer).0.stream is None,
{
}

/// Selecting a device that the host does not list fails with
/// `DeviceNotFound` and leaves the engine as it was: same level, same
/// activity, same threshold, and the stream that was open still open.
pub proof fn lemma_unknown_device_changes_nothing(
    state: MonitorState,
    id: Seq<char>,
    names: Seq<Option<Seq<char>>>,
)
    requires
        state.consistent(),
        state.phase is Settled,
        position(names, id) is None,
    ensures
        state.begun(id).1 == Some(Request::ListDevices),
        state.begun(id).0.after_reply(Answer::Devices(names)).1 == Some(
            Outcome::Done(Err(Failure::DeviceNotFound)),
        ),
        state.begun(id).0.after_reply(Answer::Devices(names)).0 == state,
{
}

/// Selecting a device while none is monitored: the device is looked up,
/// its configuration settled and its stream opened, in this order, and the
/// engine ends up monitoring it.
pub proof fn lemma_first_selection(state: MonitorState, id: Seq<char>, names: Seq<Option<Seq<char>>>)
    requires
        state.consistent(),
        state.phase is Settled,
        state.stream is None,
        position(names, id) is Some,
    ensures
        ({
            let device = position(names, id)->0 as usize;
            let listing = state.begun(id);
            let found = listing.0.after_reply(Answer::Devices(names));
            let settled = found.0.after_reply(Answer::ConfigAccepted);
            let opened = settled.0.after_reply(Answer::StreamOpened);
            &&& listing.1 == Some(Request::ListDevices)
            &&& found.1 == Some(Outcome::Ask(Request::NegotiateConfig { device }))
            &&& settled.1 == Some(Outcome::Ask(Request::OpenStream { device }))
            &&& opened.1 == Some(Outcome::Done(Ok(())))
            &&& opened.0 == (MonitorState { stream: Some(id), ..state })
        }),
{
}

/// Selecting a second device while a first is monitored: the first stream
/// is closed before the second is asked to be opened, so that at no step
/// two streams are open, and the engine ends up monitoring the second.
pub proof fn lemma_switch_closes_before_opening(
    state: MonitorState,
    first: Seq<char>,
    second: Seq<char>,
    names: Seq<Option<Seq<char>>>,
)
    requires
        state.consistent(),
        state.phase is Settled,
        state.stream == Some(first),
        position(names, second) is Some,
    ensures
        ({
            let device = position(names, second)->0 as usize;
            let listing = state.begun(second);
            let found = listing.0.after_reply(Answer::Devices(names));
            let settled = found.0.after_reply(Answer::ConfigAccepted);
            let closed = settled.0.after_reply(Answer::StreamClosed);
            let opened = closed.0.after_reply(Answer::StreamOpened);
            &&& listing.1 == Some(Request::ListDevices)
            &&& found.1 == Some(Outcome::Ask(Request::NegotiateConfig { device }))
            &&& settled.1 == Some(Outcome::Ask(Request::CloseStream))
            &&& settled.0.stream == Some(first)
            &&& closed.1 == Some(Outcome::Ask(Request::OpenStream { device }))
            &&& closed.0.stream is None
            &&& opened.1 == Some(Outcome::Done(Ok(())))
            &&& opened.0 == (MonitorState { stream: Some(second), ..state })
        }),
{
}

/// Where a switch can fail, and what is left of the stream that was open.
///
/// A failure to list the devices or to settle the configuration comes
/// before the old stream is closed and leaves it open. A failure to open
/// the new stream comes after and leaves the engine without a stream.
pub proof fn lemma_failed_switch(state: MonitorState, text: Seq<char>)
    requires
        state.consistent(),
    ensures
        state.settled().stream == state.stream,
        state.phase is Listing ==> state.after_reply(Answer::Unavailable(text)) == (
            state.settled(),
            Some(Outcome::Done(Err(Failure::HostUnavailable(text)))),
        ),
        state.phase is Negotiating ==> state.after_reply(Answer::ConfigRefused(text)) == (
            state.settled(),
            Some(Outcome::Done(Err(Failure::StreamOpenError(text)))),
        ),
        state.phase is Opening ==> state.after_reply(Answer::StreamRefused(text)) == (
            state.settled(),
            Some(Outcome::Done(Err(Failure::StreamOpenError(text)))),
        ) && state.settled().stream is None,
{
}

/// The monitor knows what it asked: the request it hands out is the one
/// that then waits for its answer, and when a switch is over none waits.
pub proof fn lemma_request_is_pending(state: MonitorState, id: Seq<char>, answer: Answer)
    ensures
        state.begun(id).1 is Some ==> state.begun(id).0.pending() == state.begun(id).1,
        state.after_reply(answer).1 matches Some(Outcome::Ask(request)) ==> state.after_reply(
            answer,
        ).0.pending() == Some(request),
        state.after_reply(answer).1 matches Some(Outcome::Done(_)) ==> state.after_reply(
            answer,
        ).0.pending() is None,
        state.pending() is None ==> state.after_reply(answer).1 is None,
{
}

/// At most one capture stream is open for an engine.
///
/// Let the host hold as many streams open as the monitor records, which
/// is none or one, and let it act on the pending request and answer. Then
/// it again holds as many open as the monitor records, and so none or one.
pub proof fn lemma_at_most_one_stream(state: MonitorState, open: int, answer: Answer)
    requires
        state.consistent(),
        state.records(open),
        state.pending() is Some,
        state.after_reply(answer).1 is Some,
    ensures
        state.after_reply(answer).0.records(streams_after(open, state.pending()->0, answer)),
        0 <= streams_after(open, state.pending()->0, answer) <= 1,
{
}

} // verus!

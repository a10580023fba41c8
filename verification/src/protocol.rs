//! The exchange with the audio host during a device switch.
//!
//! The monitor never talks to the audio host. It says what to ask of the
//! host next, the caller does so and hands back the host's answer, until
//! the monitor says how the switch ended.

use vstd::prelude::*;
use crate::error::{Failure, MonitorError};

verus! {

/// How far a device switch has come.
#[derive(Debug, Clone, Copy, PartialEq, Eq, Structural)]
pub enum Phase {
    /// No switch is under way.
    Settled,
    /// The host has been asked for its devices.
    Listing,
    /// The device was found; its configuration is being settled.
    Negotiating { device: usize },
    /// The stream that was open is being closed.
    Closing { device: usize },
    /// No stream is open; the new one is being opened.
    Opening { device: usize },
}

/// What to ask of the audio host. `device` counts the endpoints of the
/// report that the host gave in this switch, from zero.
#[derive(Debug, Clone, Copy, PartialEq, Eq, Structural)]
pub enum Request {
    /// List the input endpoints, each with its name where that can be read.
    ListDevices,
    /// Settle the default input configuration of the endpoint.
    NegotiateConfig { device: usize },
    /// Close the capture stream that is open, and wait until it delivers
    /// nothing more.
    CloseStream,
    /// Open a capture stream on the endpoint and start it.
    OpenStream { device: usize },
}

/// What the audio host answered.
#[derive(Debug, PartialEq, Eq)]
pub enum Reply {
    /// The endpoints in the host's order: the name, or nothing where the
    /// name could not be read.
    Devices(Vec<Option<String>>),
    /// The host could not list its endpoints.
    Unavailable(String),
    /// The endpoint's default input configuration is settled.
    ConfigAccepted,
    /// The endpoint has no configuration to capture with.
    ConfigRefused(String),
    /// The stream that was open is closed.
    StreamClosed,
    /// The new stream is open and running.
    StreamOpened,
    /// The host would not open the stream, or would not start it.
    StreamRefused(String),
}

/// A reply with its texts as character sequences.
pub enum Answer {
    Devices(Seq<Option<Seq<char>>>),
    Unavailable(Seq<char>),
    ConfigAccepted,
    ConfigRefused(Seq<char>),
    StreamClosed,
    StreamOpened,
    StreamRefused(Seq<char>),
}

impl View for Reply {
    type V = Answer;

    open spec fn view(&self) -> Answer {
        match self {
            Reply::Devices(names) => Answer::Devices(names.deep_view()),
            Reply::Unavailable(text) => Answer::Unavailable(text@),
            Reply::ConfigAccepted => Answer::ConfigAccepted,
            Reply::ConfigRefused(text) => Answer::ConfigRefused(text@),
            Reply::StreamClosed => Answer::StreamClosed,
            Reply::StreamOpened => Answer::StreamOpened,
            Reply::StreamRefused(text) => Answer::StreamRefused(text@),
        }
    }
}

/// How a device switch goes on after a reply.
#[derive(Debug, PartialEq, Eq)]
pub enum Step {
    /// The switch goes on: ask this of the host.
    Ask(Request),
    /// The switch is over, with this result.
    Done(Result<(), MonitorError>),
}

/// A step with its texts as character sequences.
pub enum Outcome {
    Ask(Request),
    Done(Result<(), Failure>),
}

impl View for Step {
    type V = Outcome;

    open spec fn view(&self) -> Outcome {
        match self {
            Step::Ask(request) => Outcome::Ask(*request),
            Step::Done(Ok(())) => Outcome::Done(Ok(())),
            Step::Done(Err(e)) => Outcome::Done(Err(e@)),
        }
    }
}

/// The outcome that an optional step stands for.
pub open spec fn outcome_of(step: Option<Step>) -> Option<Outcome> {
    match step {
        Some(s) => Some(s@),
        None => None,
    }
}

} // verus!

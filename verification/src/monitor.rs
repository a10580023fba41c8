//! The capture monitor: the engine as the caller holds it.
//!
//! Buffers are handed to the monitor as they arrive. A device switch is
//! begun with `start_monitoring_with_device` and carried on with `advance`,
//! one answer of the audio host at a time.

use vstd::prelude::*;
use crate::binary32::{exceeds, greater_than, ZERO};
use crate::device::{directory, list_devices, locate, AudioDevice};
use crate::error::{Failure, MonitorError};
use crate::level::{peak_level, peak_of};
use crate::protocol::{outcome_of, Phase, Reply, Request, Step};
use crate::state::{MonitorState, DEFAULT_THRESHOLD};

verus! {

/// The engine: the readings that the audio callback publishes, the
/// threshold, and the record of the capture stream.
pub struct AudioMonitor {
    is_active: bool,
    current_level: u32,
    threshold: u32,
    stream: Option<String>,
    target: String,
    phase: Phase,
}

impl View for AudioMonitor {
    type V = MonitorState;

    closed spec fn view(&self) -> MonitorState {
        MonitorState {
            active: self.is_active,
            level: self.current_level,
            threshold: self.threshold,
            stream: self.stream.deep_view(),
            target: self.target@,
            phase: self.phase,
        }
    }
}

impl AudioMonitor {
    #[verifier::type_invariant]
    spec fn well_formed(&self) -> bool {
        self@.consistent()
    }

    /// A new engine.
    pub fn new() -> (monitor: AudioMonitor)
        ensures
            monitor@ == MonitorState::initial(),
    {
        AudioMonitor {
            is_active: false,
            current_level: ZERO,
            threshold: DEFAULT_THRESHOLD,
            stream: None,
            target: String::new(),
            phase: Phase::Settled,
        }
    }

    /// Builds the directory from what the host reported when asked for its
    /// input endpoints: the endpoints in the host's order, or the host's
    /// account of why it could not list them.
    pub fn get_input_devices(reported: Result<Vec<Option<String>>, String>) -> (listing: Result<
        Vec<AudioDevice>,
        MonitorError,
    >)
        ensures
            match reported {
                Ok(names) => listing matches Ok(devices) && devices.deep_view() == directory(
                    names.deep_view(),
                ),
                Err(text) => listing matches Err(e) && e@ == Failure::HostUnavailable(text@),
            },
    {
        match reported {
            Ok(names) => Ok(list_devices(names.as_slice())),
            Err(text) => Err(MonitorError::HostUnavailable(text)),
        }
    }

    /// Begins a switch to the device that answers to `device_name` and says
    /// what to ask of the host first. While another switch is under way
    /// nothing changes and there is no request.
    pub fn start_monitoring_with_device(&mut self, device_name: &str) -> (request: Option<Request>)
        ensures
            final(self)@ == old(self)@.begun(device_name@).0,
            request == old(self)@.begun(device_name@).1,
            final(self)@.consistent(),
    {
        proof {
            use_type_invariant(&*self);
        }
        match self.phase {
            Phase::Settled => {
                self.phase = Phase::Listing;
                self.target = device_name.to_owned();
                Some(Request::ListDevices)
            },
            _ => None,
        }
    }

    /// Takes the host's answer to the last request and says how the switch
    /// goes on. An answer to a question that was not asked changes nothing
    /// and gives no step.
    ///
    /// Level, activity and threshold are never touched. A stream is asked
    /// to be opened only in a state in which none is open.
    pub fn advance(&mut self, reply: Reply) -> (step: Option<Step>)
        ensures
            final(self)@ == old(self)@.after_reply(reply@).0,
            outcome_of(step) == old(self)@.after_reply(reply@).1,
            final(self)@.active == old(self)@.active,
            final(self)@.level == old(self)@.level,
            final(self)@.threshold == old(self)@.threshold,
            step matches Some(Step::Ask(Request::OpenStream { .. })) ==> final(self)@.stream is None,
            final(self)@.consistent(),
    {
        proof {
            use_type_invariant(&*self);
        }
        match (self.phase, reply) {
            (Phase::Listing, Reply::Devices(names)) => {
                match locate(names.as_slice(), self.target.as_str()) {
                    Some(device) => {
                        self.phase = Phase::Negotiating { device };
                        Some(Step::Ask(Request::NegotiateConfig { device }))
                    },
                    None => {
                        self.settle();
                        Some(Step::Done(Err(MonitorError::DeviceNotFound)))
                    },
                }
            },
            (Phase::Listing, Reply::Unavailable(text)) => {
                self.settle();
                Some(Step::Done(Err(MonitorError::HostUnavailable(text))))
            },
            (Phase::Negotiating { device }, Reply::ConfigAccepted) => {
                if self.stream.is_some() {
                    self.phase = Phase::Closing { device };
                    Some(Step::Ask(Request::CloseStream))
                } else {
                    self.phase = Phase::Opening { device };
                    Some(Step::Ask(Request::OpenStream { device }))
                }
            },
            (Phase::Negotiating { .. }, Reply::ConfigRefused(text)) => {
                self.settle();
                Some(Step::Done(Err(MonitorError::StreamOpenError(text))))
            },
            (Phase::Closing { device }, Reply::StreamClosed) => {
                self.stream = None;
                self.phase = Phase::Opening { device };
                Some(Step::Ask(Request::OpenStream { device }))
            },
            (Phase::Opening { .. }, Reply::StreamOpened) => {
                let id: String = self.settle();
                self.stream = Some(id);
                Some(Step::Done(Ok(())))
            },
            (Phase::Opening { .. }, Reply::StreamRefused(text)) => {
                self.settle();
                Some(Step::Done(Err(MonitorError::StreamOpenError(text))))
            },
            _ => None,
        }
    }

    /// Ends the switch under way and hands out the identifier it asked for.
    fn settle(&mut self) -> (id: String)
        ensures
            final(self)@ == old(self)@.settled(),
            id@ == old(self)@.target,
    {
        proof {
            use_type_invariant(&*self);
        }
        let mut id: String = String::new();
        std::mem::swap(&mut self.target, &mut id);
        self.phase = Phase::Settled;
        id
    }

    /// How far a switch has come.
    pub fn phase(&self) -> (phase: Phase)
        ensures
            phase == self@.phase,
            self@.consistent(),
    {
        proof {
            use_type_invariant(self);
        }
        self.phase
    }

    /// The identifier of the device whose stream is open, if one is.
    pub fn monitored_device(&self) -> (device: Option<String>)
        ensures
            device.deep_view() == self@.stream,
    {
        match &self.stream {
            Some(id) => Some(id.clone()),
            None => None,
        }
    }

    /// Whether the last buffer counted as speech.
    pub fn is_active(&self) -> (active: bool)
        ensures
            active == self@.active,
    {
        self.is_active
    }

    /// The peak level of the last buffer, as a pattern.
    pub fn get_current_level(&self) -> (level: u32)
        ensures
            level == self@.level,
    {
        self.current_level
    }

    /// Sets the threshold. Any pattern is taken; the next buffer is the
    /// first to be held against it.
    pub fn set_threshold(&mut self, threshold: u32)
        ensures
            final(self)@ == old(self)@.with_threshold(threshold),
            final(self)@.threshold == threshold,
    {
        proof {
            use_type_invariant(&*self);
        }
        self.threshold = threshold;
    }

    /// The threshold, as a pattern.
    pub fn get_threshold(&self) -> (threshold: u32)
        ensures
            threshold == self@.threshold,
    {
        self.threshold
    }

    /// Processes one buffer of samples, given as patterns.
    pub fn process_buffer(&mut self, samples: &[u32])
        ensures
            final(self)@ == old(self)@.after_buffer(samples@),
            final(self)@.level == peak_of(samples@),
            final(self)@.active == exceeds(peak_of(samples@), old(self)@.threshold),
    {
        proof {
            use_type_invariant(&*self);
        }
        let level: u32 = peak_level(samples);
        self.current_level = level;
        self.is_active = greater_than(level, self.threshold);
    }
}

} // verus!

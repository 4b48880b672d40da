//! The pipeline controller: a state machine that is told what happened and
//! answers with what is to be done.
//!
//! The controller does no waiting, reading or writing of its own. The program
//! around it opens the connection, waits for the next item of the stream or
//! for the cancellation, and tells the controller what came; the controller
//! decodes, moves from phase to phase and hands back the effects to carry
//! out, in order.

use vstd::prelude::*;
use vstd::string::*;
use crate::config::Config;
use crate::decoder::{decoded, EventProcessor};
use crate::error::{diagnostic_of, AppError, AppErrorView};
use crate::record::{rendered, GithubEvent, GithubEventView, RawFrame, RawFrameView};
use crate::status::{accepted, is_accepted, refusal, refusal_text};

verus! {

/// Where a run stands.
#[derive(Debug, Clone, Copy, PartialEq, Eq, Structural)]
pub enum Phase {
    /// The connection is being opened.
    Starting,
    /// The stream is read, item by item.
    Running,
    /// The run is over and the connection is being released.
    Draining,
    /// Nothing is left to do. `clean` is false where the connection was never
    /// established.
    Stopped { clean: bool },
}

/// What the stream hands over when it is asked for its next item.
#[derive(Debug, Clone, PartialEq, Eq)]
pub enum StreamItem {
    /// A frame.
    Frame(RawFrame),
    /// Something that is no frame, with what the transport says of it. The
    /// stream goes on behind it.
    Fault(String),
    /// Nothing: the server has closed the stream.
    End,
}

pub enum StreamItemView {
    Frame(RawFrameView),
    Fault(Seq<char>),
    End,
}

impl View for StreamItem {
    type V = StreamItemView;

    open spec fn view(&self) -> StreamItemView {
        match self {
            StreamItem::Frame(frame) => StreamItemView::Frame(frame@),
            StreamItem::Fault(cause) => StreamItemView::Fault(cause@),
            StreamItem::End => StreamItemView::End,
        }
    }
}

/// What the controller is told.
#[derive(Debug, Clone, PartialEq, Eq)]
pub enum Signal {
    /// The server has answered the request, with this status.
    Connected { status: u16 },
    /// The server could not be reached, or gave no answer.
    ConnectionFailed(String),
    /// The stream has handed over its next item.
    Item(StreamItem),
    /// The cancellation was observed.
    Cancelled,
    /// The connection is released.
    Released,
    /// The release of the connection failed.
    ReleaseFailed(String),
    /// A line of output could not be written.
    SinkFailed(String),
}

pub enum SignalView {
    Connected { status: u16 },
    ConnectionFailed(Seq<char>),
    Item(StreamItemView),
    Cancelled,
    Released,
    ReleaseFailed(Seq<char>),
    SinkFailed(Seq<char>),
}

impl View for Signal {
    type V = SignalView;

    open spec fn view(&self) -> SignalView {
        match self {
            Signal::Connected { status } => SignalView::Connected { status: *status },
            Signal::ConnectionFailed(cause) => SignalView::ConnectionFailed(cause@),
            Signal::Item(item) => SignalView::Item(item@),
            Signal::Cancelled => SignalView::Cancelled,
            Signal::Released => SignalView::Released,
            Signal::ReleaseFailed(cause) => SignalView::ReleaseFailed(cause@),
            Signal::SinkFailed(cause) => SignalView::SinkFailed(cause@),
        }
    }
}

/// What the controller asks for.
#[derive(Debug, Clone, PartialEq, Eq)]
pub enum Effect {
    /// Report a decoded event on the output.
    Report(GithubEvent),
    /// Report an error on the diagnostic channel.
    Diagnose(AppError),
    /// Say on the output that the run is shutting down.
    Notice,
    /// Release the connection, and tell how that went.
    Release,
}

pub enum EffectView {
    Report(GithubEventView),
    Diagnose(AppErrorView),
    Notice,
    Release,
}

impl View for Effect {
    type V = EffectView;

    open spec fn view(&self) -> EffectView {
        match self {
            Effect::Report(event) => EffectView::Report(event@),
            Effect::Diagnose(error) => EffectView::Diagnose(error@),
            Effect::Notice => EffectView::Notice,
            Effect::Release => EffectView::Release,
        }
    }
}

/// The views of a list of effects, in order.
pub open spec fn effects_view(effects: Seq<Effect>) -> Seq<EffectView> {
    Seq::new(effects.len(), |i: int| effects[i]@)
}

/// Where a line is written.
#[derive(Debug, Clone, Copy, PartialEq, Eq, Structural)]
pub enum Channel {
    /// Where the events go.
    Output,
    /// Where the errors go, apart from the events.
    Diagnostics,
}

/// The effect that reports what a frame decoded to.
pub open spec fn frame_effect(frame: RawFrameView) -> EffectView {
    match decoded(frame) {
        Ok(event) => EffectView::Report(event),
        Err(error) => EffectView::Diagnose(error),
    }
}

/// The effect that an item of the stream calls for.
pub open spec fn item_effect(item: StreamItemView) -> EffectView {
    match item {
        StreamItemView::Frame(frame) => frame_effect(frame),
        StreamItemView::Fault(cause) => EffectView::Diagnose(AppErrorView::EventStreamError(cause)),
        StreamItemView::End => EffectView::Release,
    }
}

/// One move of the controller: the phase after `signal` has come in `phase`,
/// and the effects it calls for, in order. A signal that has no meaning in a
/// phase changes nothing and calls for nothing.
pub open spec fn step(phase: Phase, signal: SignalView) -> (Phase, Seq<EffectView>) {
    match (phase, signal) {
        (_, SignalView::SinkFailed(cause)) => (
            phase,
            seq![EffectView::Diagnose(AppErrorView::SinkError(cause))],
        ),
        (Phase::Starting, SignalView::Connected { status }) => if accepted(status) {
            (Phase::Running, seq![])
        } else {
            (
                Phase::Stopped { clean: false },
                seq![EffectView::Diagnose(AppErrorView::RequestError(refusal(status)))],
            )
        },
        (Phase::Starting, SignalView::ConnectionFailed(cause)) => (
            Phase::Stopped { clean: false },
            seq![EffectView::Diagnose(AppErrorView::RequestError(cause))],
        ),
        (Phase::Running, SignalView::Item(StreamItemView::End)) => (
            Phase::Draining,
            seq![EffectView::Release],
        ),
        (Phase::Running, SignalView::Item(item)) => (Phase::Running, seq![item_effect(item)]),
        (Phase::Running, SignalView::Cancelled) => (
            Phase::Draining,
            seq![EffectView::Notice, EffectView::Release],
        ),
        (Phase::Draining, SignalView::Released) => (Phase::Stopped { clean: true }, seq![]),
        (Phase::Draining, SignalView::ReleaseFailed(cause)) => (
            Phase::Stopped { clean: true },
            seq![EffectView::Diagnose(AppErrorView::EventStreamError(cause))],
        ),
        _ => (phase, seq![]),
    }
}

/// What one wait of the running pipeline comes to. A cancellation that was
/// observed goes before an item that is ready at the same time; where neither
/// is there, nothing has happened.
pub open spec fn arbitrated(cancelled: bool, pending: Option<StreamItemView>) -> Option<
    SignalView,
> {
    if cancelled {
        Some(SignalView::Cancelled)
    } else {
        match pending {
            Some(item) => Some(SignalView::Item(item)),
            None => None,
        }
    }
}

/// The exit status of a run in `phase`: 0 after a run that was connected, 1
/// after one that never was, none while the run goes on.
pub open spec fn exit_status_of(phase: Phase) -> Option<i32> {
    match phase {
        Phase::Stopped { clean } => Some(
            if clean {
                0i32
            } else {
                1i32
            },
        ),
        _ => None,
    }
}

/// The line that carrying out an effect writes, and where; none for an effect
/// that writes nothing.
pub open spec fn printed(effect: EffectView) -> Option<(Channel, Seq<char>)> {
    match effect {
        EffectView::Report(event) => Some((Channel::Output, rendered(event))),
        EffectView::Diagnose(error) => Some((Channel::Diagnostics, diagnostic_of(error))),
        EffectView::Notice => Some((Channel::Output, "Shutting down gracefully..."@)),
        EffectView::Release => None,
    }
}

impl Effect {
    /// The line to write for this effect, and the channel to write it to.
    pub fn line(&self) -> (r: Option<(Channel, String)>)
        ensures
            match r {
                Some((channel, text)) => printed(self@) == Some((channel, text@)),
                None => printed(self@) is None,
            },
    {
        match self {
            Effect::Report(event) => Some((Channel::Output, event.render())),
            Effect::Diagnose(error) => Some((Channel::Diagnostics, error.diagnostic())),
            Effect::Notice => Some(
                (Channel::Output, String::from_str("Shutting down gracefully...")),
            ),
            Effect::Release => None,
        }
    }
}

/// Settles what one wait of the running pipeline comes to.
pub fn arbitrate(cancelled: bool, pending: Option<StreamItem>) -> (r: Option<Signal>)
    ensures
        match r {
            Some(signal) => arbitrated(
                cancelled,
                match pending {
                    Some(item) => Some(item@),
                    None => None,
                },
            ) == Some(signal@),
            None => !cancelled && pending is None,
        },
{
    if cancelled {
        Some(Signal::Cancelled)
    } else {
        match pending {
            Some(item) => Some(Signal::Item(item)),
            None => None,
        }
    }
}

/// The controller of one run.
#[derive(Debug, Clone, PartialEq, Eq)]
pub struct Application {
    processor: EventProcessor,
    config: Config,
    phase: Phase,
}

pub struct ApplicationView {
    pub url: Seq<char>,
    pub phase: Phase,
}

impl View for Application {
    type V = ApplicationView;

    closed spec fn view(&self) -> ApplicationView {
        ApplicationView { url: self.config@, phase: self.phase }
    }
}

impl Application {
    /// A controller for a run against `config`, before the connection is
    /// opened.
    pub fn new(config: Config) -> (r: Self)
        ensures
            r@ == (ApplicationView { url: config@, phase: Phase::Starting }),
    {
        Application { processor: EventProcessor::new(), config, phase: Phase::Starting }
    }

    /// The configuration of the run.
    pub fn config(&self) -> (r: &Config)
        ensures
            r@ == self@.url,
    {
        &self.config
    }

    /// The phase the run is in.
    pub fn phase(&self) -> (r: Phase)
        ensures
            r == self@.phase,
    {
        self.phase
    }

    /// The exit status of the run, once it has stopped.
    pub fn exit_status(&self) -> (r: Option<i32>)
        ensures
            r == exit_status_of(self@.phase),
    {
        match self.phase {
            Phase::Stopped { clean } => Some(
                if clean {
                    0i32
                } else {
                    1i32
                },
            ),
            _ => None,
        }
    }

    /// Takes one signal: moves to the phase that `step` gives and hands back
    /// the effects that it calls for.
    pub fn handle(&mut self, signal: Signal) -> (r: Vec<Effect>)
        ensures
            final(self)@.url == old(self)@.url,
            final(self)@.phase == step(old(self)@.phase, signal@).0,
            effects_view(r@) == step(old(self)@.phase, signal@).1,
            r@.len() == step(old(self)@.phase, signal@).1.len(),
    {
        let mut effects: Vec<Effect> = Vec::new();
        match signal {
            Signal::SinkFailed(cause) => {
                effects.push(Effect::Diagnose(AppError::SinkError(cause)));
            },
            Signal::Connected { status } => {
                if self.phase == Phase::Starting {
                    if is_accepted(status) {
                        self.phase = Phase::Running;
                    } else {
                        self.phase = Phase::Stopped { clean: false };
                        effects.push(Effect::Diagnose(AppError::RequestError(refusal_text(status))));
                    }
                }
            },
            Signal::ConnectionFailed(cause) => {
                if self.phase == Phase::Starting {
                    self.phase = Phase::Stopped { clean: false };
                    effects.push(Effect::Diagnose(AppError::RequestError(cause)));
                }
            },
            Signal::Item(item) => {
                if self.phase == Phase::Running {
                    match item {
                        StreamItem::Frame(frame) => {
                            match self.processor.process_event(frame) {
                                Ok(event) => {
                                    effects.push(Effect::Report(event));
                                },
                                Err(error) => {
                                    effects.push(Effect::Diagnose(error));
                                },
                            }
                        },
                        StreamItem::Fault(cause) => {
                            effects.push(Effect::Diagnose(AppError::EventStreamError(cause)));
                        },
                        StreamItem::End => {
                            self.phase = Phase::Draining;
                            effects.push(Effect::Release);
                        },
                    }
                }
            },
            Signal::Cancelled => {
                if self.phase == Phase::Running {
                    self.phase = Phase::Draining;
                    effects.push(Effect::Notice);
                    effects.push(Effect::Release);
                }
            },
            Signal::Released => {
                if self.phase == Phase::Draining {
                    self.phase = Phase::Stopped { clean: true };
                }
            },
            Signal::ReleaseFailed(cause) => {
                if self.phase == Phase::Draining {
                    self.phase = Phase::Stopped { clean: true };
                    effects.push(Effect::Diagnose(AppError::EventStreamError(cause)));
                }
            },
        }
        assert(effects_view(effects@) =~= step(old(self)@.phase, signal@).1);
        effects
    }
}

} // verus!
